//! What one tick reports: the device's totals and the memory of the one
//! process that is being watched.

use crate::process::ProcessUsage;
use crate::sampler::MemorySnapshot;
use vstd::prelude::*;

verus! {

/// The figures of one tick.
#[derive(Clone, Copy, Debug, PartialEq, Eq)]
pub struct TickReport {
    pub total: u64,
    pub used: u64,
    pub free: u64,
    /// Bytes that the watched process holds; `None` where it is not listed
    /// or the driver cannot attribute memory to it.
    pub target_usage: Option<u64>,
}

/// The first entry of a list that belongs to process `pid`.
pub open spec fn first_entry_of(processes: Seq<ProcessUsage>, pid: u32) -> Option<ProcessUsage>
    decreases processes.len(),
{
    if processes.len() == 0 {
        None
    } else if processes[0].process_id == pid {
        Some(processes[0])
    } else {
        first_entry_of(processes.drop_first(), pid)
    }
}

/// The bytes that process `pid` holds according to a list.
pub open spec fn usage_in(processes: Seq<ProcessUsage>, pid: u32) -> Option<u64> {
    match first_entry_of(processes, pid) {
        None => None,
        Some(entry) => entry.memory_used,
    }
}

/// The number that a trace shows for a usage: the bytes, or -1 where there
/// is none.
pub open spec fn figure_of(usage: Option<u64>) -> int {
    match usage {
        None => -1,
        Some(bytes) => bytes as int,
    }
}

/// The report of a snapshot for the process `pid`.
pub open spec fn report_of(snapshot: MemorySnapshot, pid: u32) -> TickReport {
    TickReport {
        total: snapshot.total,
        used: snapshot.used,
        free: snapshot.free,
        target_usage: usage_in(snapshot.processes@, pid),
    }
}

/// What `first_entry_of` finds is the entry at the least index whose process
/// id is `pid`; it finds nothing exactly when no entry has that id.
pub proof fn lemma_first_entry_is_first_match(processes: Seq<ProcessUsage>, pid: u32)
    ensures
        match first_entry_of(processes, pid) {
            None => forall|i: int| 0 <= i < processes.len() ==> processes[i].process_id != pid,
            Some(entry) => exists|i: int|
                0 <= i < processes.len() && processes[i] == entry && entry.process_id == pid
                    && forall|j: int| 0 <= j < i ==> processes[j].process_id != pid,
        },
    decreases processes.len(),
{
    if processes.len() > 0 && processes[0].process_id != pid {
        let rest = processes.drop_first();
        lemma_first_entry_is_first_match(rest, pid);
        match first_entry_of(rest, pid) {
            None => {
                assert forall|i: int| 0 <= i < processes.len() implies processes[i].process_id
                    != pid by {
                    if i > 0 {
                        assert(rest[i - 1] == processes[i]);
                    }
                }
            },
            Some(entry) => {
                let k: int = choose|i: int|
                    0 <= i < rest.len() && rest[i] == entry && entry.process_id == pid
                        && forall|j: int| 0 <= j < i ==> rest[j].process_id != pid;
                assert(processes[k + 1] == entry);
                assert forall|j: int| 0 <= j < k + 1 implies processes[j].process_id != pid by {
                    if j > 0 {
                        assert(rest[j - 1] == processes[j]);
                    }
                }
            },
        }
    } else if processes.len() > 0 {
        assert(processes[0] == first_entry_of(processes, pid).unwrap());
    }
}

/// The bytes that process `pid` holds according to a list: those of its
/// first entry, and `None` where it has no entry or its entry has no figure.
pub fn target_usage(processes: &Vec<ProcessUsage>, pid: u32) -> (usage: Option<u64>)
    ensures
        usage == usage_in(processes@, pid),
{
    let mut next: usize = 0;
    assert(processes@.subrange(0, processes@.len() as int) == processes@);
    while next < processes.len()
        invariant
            next <= processes.len(),
            first_entry_of(processes@, pid) == first_entry_of(
                processes@.subrange(next as int, processes@.len() as int),
                pid,
            ),
        decreases processes.len() - next,
    {
        let ghost rest = processes@.subrange(next as int, processes@.len() as int);
        assert(rest[0] == processes@[next as int]);
        if processes[next].process_id == pid {
            return processes[next].memory_used;
        }
        assert(rest.drop_first() == processes@.subrange(next + 1, processes@.len() as int));
        next = next + 1;
    }
    None
}

impl TickReport {
    /// The report of a snapshot for the process `pid`.
    pub fn new(snapshot: &MemorySnapshot, pid: u32) -> (report: TickReport)
        ensures
            report == report_of(*snapshot, pid),
    {
        TickReport {
            total: snapshot.total,
            used: snapshot.used,
            free: snapshot.free,
            target_usage: target_usage(&snapshot.processes, pid),
        }
    }

    /// The number to print for the watched process: its bytes, or -1 where
    /// it is not listed or has no figure.
    pub fn usage_figure(&self) -> (figure: i128)
        ensures
            figure == figure_of(self.target_usage),
    {
        match self.target_usage {
            None => -1,
            Some(bytes) => bytes as i128,
        }
    }
}

} // verus!
