//! The driver's record of one process, and the usage figure made from it.

use nvml_wrapper::enums::device::UsedGpuMemory;
use nvml_wrapper::struct_wrappers::device::ProcessInfo;
use nvml_wrapper_sys::bindings::nvmlProcessInfo_t;
use vstd::prelude::*;

verus! {

/// What the driver writes in the memory field of a process whose memory it
/// cannot attribute.
pub const MEMORY_NOT_AVAILABLE: u64 = 0xFFFF_FFFF_FFFF_FFFF;

/// One entry of the buffer that the driver fills, field for field.
#[derive(Clone, Copy, Debug, PartialEq, Eq, Structural)]
pub struct RawProcessEntry {
    pub pid: u32,
    pub used_gpu_memory: u64,
    pub gpu_instance_id: u32,
    pub compute_instance_id: u32,
}

/// The memory that one process holds on the device.
#[derive(Clone, Copy, Debug, PartialEq, Eq)]
pub struct ProcessUsage {
    pub process_id: u32,
    /// Bytes in use; `None` where the driver cannot attribute memory to the
    /// process, which is not the same as zero bytes.
    pub memory_used: Option<u64>,
}

/// The entry that a freshly allocated buffer holds in every place.
pub open spec fn zero_entry() -> RawProcessEntry {
    RawProcessEntry { pid: 0, used_gpu_memory: 0, gpu_instance_id: 0, compute_instance_id: 0 }
}

/// The usage figure that a raw entry stands for.
pub open spec fn usage_of(entry: RawProcessEntry) -> ProcessUsage {
    ProcessUsage {
        process_id: entry.pid,
        memory_used: if entry.used_gpu_memory == MEMORY_NOT_AVAILABLE {
            None
        } else {
            Some(entry.used_gpu_memory)
        },
    }
}

/// The usage figures of a run of raw entries, in the same order.
pub open spec fn usages_of(entries: Seq<RawProcessEntry>) -> Seq<ProcessUsage> {
    Seq::new(entries.len(), |i: int| usage_of(entries[i]))
}

/// The first `written` entries of a buffer, or all of it where it holds
/// fewer.
pub open spec fn written_prefix(buffer: Seq<RawProcessEntry>, written: nat) -> Seq<
    RawProcessEntry,
> {
    if written <= buffer.len() {
        buffer.subrange(0, written as int)
    } else {
        buffer
    }
}

/// `ProcessInfo::from(nvmlProcessInfo_t)` of nvml_wrapper, on the four
/// fields of a raw entry. Not proved here: the process id is carried over,
/// and the memory field becomes `Unavailable` exactly where it holds
/// `NVML_VALUE_NOT_AVAILABLE` (all bits set), else `Used` with the same
/// number.
#[verifier::external_body]
fn process_info(entry: &RawProcessEntry) -> (usage: ProcessUsage)
    ensures
        usage == usage_of(*entry),
{
    let info = ProcessInfo::from(
        nvmlProcessInfo_t {
            pid: entry.pid,
            usedGpuMemory: entry.used_gpu_memory,
            gpuInstanceId: entry.gpu_instance_id,
            computeInstanceId: entry.compute_instance_id,
        },
    );
    let memory_used = match info.used_gpu_memory {
        UsedGpuMemory::Unavailable => None,
        UsedGpuMemory::Used(bytes) => Some(bytes),
    };
    ProcessUsage { process_id: info.pid, memory_used }
}

impl RawProcessEntry {
    /// An entry with every field zero.
    pub fn zeroed() -> (entry: RawProcessEntry)
        ensures
            entry == zero_entry(),
    {
        RawProcessEntry { pid: 0, used_gpu_memory: 0, gpu_instance_id: 0, compute_instance_id: 0 }
    }
}

impl ProcessUsage {
    /// The usage figure of one raw entry. An entry whose memory field holds
    /// `MEMORY_NOT_AVAILABLE` has no figure; one that holds zero has the
    /// figure zero.
    pub fn from_raw(entry: &RawProcessEntry) -> (usage: ProcessUsage)
        ensures
            usage == usage_of(*entry),
            usage.process_id == entry.pid,
            usage.memory_used is None <==> entry.used_gpu_memory == MEMORY_NOT_AVAILABLE,
            entry.used_gpu_memory != MEMORY_NOT_AVAILABLE ==> usage.memory_used == Some(
                entry.used_gpu_memory,
            ),
    {
        process_info(entry)
    }
}

/// A buffer of `capacity` zeroed entries for the driver to fill.
pub fn zeroed_buffer(capacity: u32) -> (buffer: Vec<RawProcessEntry>)
    ensures
        buffer@ == Seq::new(capacity as nat, |i: int| zero_entry()),
{
    let mut buffer: Vec<RawProcessEntry> = Vec::new();
    let mut filled: u32 = 0;
    while filled < capacity
        invariant
            filled <= capacity,
            buffer@ == Seq::new(filled as nat, |i: int| zero_entry()),
        decreases capacity - filled,
    {
        buffer.push(RawProcessEntry::zeroed());
        filled = filled + 1;
    }
    buffer
}

/// Cuts a filled buffer down to the `written` entries that the driver wrote
/// and turns each into a usage figure, in the driver's order.
pub fn convert_entries(buffer: Vec<RawProcessEntry>, written: u32) -> (usages: Vec<ProcessUsage>)
    ensures
        usages@ == usages_of(written_prefix(buffer@, written as nat)),
{
    let mut entries = buffer;
    entries.truncate(written as usize);
    let mut usages: Vec<ProcessUsage> = Vec::new();
    let mut next: usize = 0;
    while next < entries.len()
        invariant
            next <= entries.len(),
            usages@ == usages_of(entries@.subrange(0, next as int)),
        decreases entries.len() - next,
    {
        usages.push(ProcessUsage::from_raw(&entries[next]));
        next = next + 1;
    }
    assert(entries@.subrange(0, next as int) == entries@);
    usages
}

} // verus!
