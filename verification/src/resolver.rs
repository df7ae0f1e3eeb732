//! Resolution of the driver's entry point, done once and remembered.
//!
//! The entry point lives in a shared library that is found at run time, and
//! older drivers do not export it. Loading is the caller's part. What the
//! attempt means, and that the first answer stands for the rest of the
//! process, is decided here.

use vstd::prelude::*;

verus! {

/// The shared library of the driver, as the system's loader finds it.
pub const DRIVER_LIBRARY: &'static str = "libnvidia-ml.so";

/// The symbol under which the driver exports the call that lists the
/// graphics processes of a device.
pub const PROCESS_LIST_SYMBOL: &'static str = "nvmlDeviceGetGraphicsRunningProcesses_v2";

/// Why the entry point cannot be had.
#[derive(Clone, Copy, Debug, PartialEq, Eq, Structural)]
pub enum ResolveError {
    /// The driver's shared library was not found.
    DriverLibraryNotFound,
    /// The library was loaded, but does not export the symbol.
    EntryPointNotFound,
}

/// What one attempt to load the library and look the symbol up found.
#[derive(Debug)]
pub enum LoadOutcome<H> {
    LibraryMissing,
    SymbolMissing,
    Found(H),
}

/// What an attempt resolves to.
pub open spec fn resolution<H>(outcome: LoadOutcome<H>) -> Result<H, ResolveError> {
    match outcome {
        LoadOutcome::LibraryMissing => Err(ResolveError::DriverLibraryNotFound),
        LoadOutcome::SymbolMissing => Err(ResolveError::EntryPointNotFound),
        LoadOutcome::Found(handle) => Ok(handle),
    }
}

/// What is remembered once an attempt was recorded: the first resolution
/// stands, and a later attempt changes nothing.
pub open spec fn after_load<H>(
    remembered: Option<Result<H, ResolveError>>,
    outcome: LoadOutcome<H>,
) -> Option<Result<H, ResolveError>> {
    match remembered {
        None => Some(resolution(outcome)),
        Some(_) => remembered,
    }
}

/// Turns what an attempt found into the handle or the reason it is missing.
pub fn resolve<H>(outcome: LoadOutcome<H>) -> (resolved: Result<H, ResolveError>)
    ensures
        resolved == resolution(outcome),
{
    match outcome {
        LoadOutcome::LibraryMissing => Err(ResolveError::DriverLibraryNotFound),
        LoadOutcome::SymbolMissing => Err(ResolveError::EntryPointNotFound),
        LoadOutcome::Found(handle) => Ok(handle),
    }
}

/// The place where the resolved entry point is kept for the life of the
/// process. It is empty until the first attempt is recorded, and never
/// changes after that.
#[derive(Debug)]
pub struct EntryPointCache<H> {
    slot: Option<Result<H, ResolveError>>,
}

impl<H> EntryPointCache<H> {
    /// What the cache remembers: nothing yet, or the first resolution.
    pub closed spec fn remembered(self) -> Option<Result<H, ResolveError>> {
        self.slot
    }

    /// An empty cache.
    pub fn new() -> (cache: EntryPointCache<H>)
        ensures
            cache.remembered() is None,
    {
        EntryPointCache { slot: None }
    }

    /// Whether the library still has to be loaded: true until the first
    /// attempt is recorded, false ever after.
    pub fn needs_load(&self) -> (needed: bool)
        ensures
            needed == (self.remembered() is None),
    {
        self.slot.is_none()
    }

    /// Records what an attempt found. The first record fills the cache; a
    /// cache that is filled keeps what it has.
    pub fn record(&mut self, outcome: LoadOutcome<H>)
        ensures
            final(self).remembered() == after_load(old(self).remembered(), outcome),
            final(self).remembered() is Some,
            old(self).remembered() is Some ==> final(self).remembered() == old(self).remembered(),
    {
        if self.slot.is_none() {
            self.slot = Some(resolve(outcome));
        }
    }

    /// The entry point, or the reason it is missing; `None` while nothing
    /// was recorded.
    pub fn entry_point(&self) -> (found: Option<Result<&H, ResolveError>>)
        ensures
            match self.remembered() {
                None => found is None,
                Some(Ok(handle)) => found == Some(Ok::<&H, ResolveError>(&handle)),
                Some(Err(error)) => found == Some(Err::<&H, ResolveError>(error)),
            },
    {
        match &self.slot {
            None => None,
            Some(Ok(handle)) => Some(Ok(handle)),
            Some(Err(error)) => Some(Err(*error)),
        }
    }
}

/// What is remembered after a run of attempts, recorded in order.
pub open spec fn after_loads<H>(
    remembered: Option<Result<H, ResolveError>>,
    outcomes: Seq<LoadOutcome<H>>,
) -> Option<Result<H, ResolveError>>
    decreases outcomes.len(),
{
    if outcomes.len() == 0 {
        remembered
    } else {
        after_loads(after_load(remembered, outcomes[0]), outcomes.drop_first())
    }
}

/// A filled cache is never changed: whatever attempts are recorded after the
/// first, it remembers what it did.
pub proof fn lemma_filled_cache_is_stable<H>(
    resolved: Result<H, ResolveError>,
    outcomes: Seq<LoadOutcome<H>>,
)
    ensures
        after_loads(Some(resolved), outcomes) == Some(resolved),
    decreases outcomes.len(),
{
    if outcomes.len() > 0 {
        lemma_filled_cache_is_stable(resolved, outcomes.drop_first());
    }
}

/// The first resolution wins. After any run of attempts the cache remembers
/// what the first of them resolved to, so every caller is handed the same
/// entry point, and once an attempt is recorded no caller is told to load
/// again.
pub proof fn lemma_first_resolution_wins<H>(outcomes: Seq<LoadOutcome<H>>)
    requires
        outcomes.len() > 0,
    ensures
        after_loads(None, outcomes) == Some(resolution(outcomes[0])),
{
    lemma_filled_cache_is_stable(resolution(outcomes[0]), outcomes.drop_first());
}

} // verus!
