//! One sample: the device's memory totals and the processes on it, taken
//! together or not at all.

use crate::enumeration::EnumerationError;
use crate::process::ProcessUsage;
use crate::resolver::ResolveError;
use vstd::prelude::*;

verus! {

/// The memory totals of a device, in bytes.
#[derive(Clone, Copy, Debug, PartialEq, Eq, Structural)]
pub struct MemoryTotals {
    pub total: u64,
    pub used: u64,
    pub free: u64,
}

/// What one tick measured: the device's totals and every process that held
/// memory on it, in the driver's order.
#[derive(Debug, PartialEq, Eq)]
pub struct MemorySnapshot {
    pub total: u64,
    pub used: u64,
    pub free: u64,
    pub processes: Vec<ProcessUsage>,
}

/// Why a sample could not be taken.
#[derive(Clone, Copy, Debug, PartialEq, Eq, Structural)]
pub enum SampleError {
    /// The driver refused to report the memory totals, with this status.
    MemoryInfo { status: u32 },
    /// The entry point that lists the processes cannot be had.
    EntryPoint(ResolveError),
    /// The enumeration of the processes failed.
    Enumeration(EnumerationError),
}

/// A sample whose totals have been read and whose processes have not been
/// listed yet.
#[derive(Debug)]
pub struct Sampler {
    totals: MemoryTotals,
}

impl Sampler {
    /// The totals that were read.
    pub closed spec fn totals(self) -> MemoryTotals {
        self.totals
    }

    /// Starts a sample with the reply to the memory query: the totals, or
    /// the status with which the driver refused. A refusal ends the sample
    /// before any process is listed.
    pub fn begin(memory: Result<MemoryTotals, u32>) -> (begun: Result<Sampler, SampleError>)
        ensures
            match memory {
                Ok(totals) => begun matches Ok(sampler) && sampler.totals() == totals,
                Err(status) => begun == Err::<Sampler, SampleError>(
                    SampleError::MemoryInfo { status },
                ),
            },
    {
        match memory {
            Ok(totals) => Ok(Sampler { totals }),
            Err(status) => Err(SampleError::MemoryInfo { status }),
        }
    }

    /// Completes the sample with the outcome of the enumeration. A list
    /// makes a snapshot of the totals and exactly that list; a failure is
    /// handed on as it is, and nothing of the sample is kept.
    pub fn finish(self, listing: Result<Vec<ProcessUsage>, SampleError>) -> (sample: Result<
        MemorySnapshot,
        SampleError,
    >)
        ensures
            match listing {
                Ok(processes) => sample matches Ok(snapshot) && snapshot.total
                    == self.totals().total && snapshot.used == self.totals().used && snapshot.free
                    == self.totals().free && snapshot.processes@ == processes@,
                Err(error) => sample == Err::<MemorySnapshot, SampleError>(error),
            },
    {
        match listing {
            Ok(processes) => Ok(
                MemorySnapshot {
                    total: self.totals.total,
                    used: self.totals.used,
                    free: self.totals.free,
                    processes,
                },
            ),
            Err(error) => Err(error),
        }
    }
}

} // verus!
