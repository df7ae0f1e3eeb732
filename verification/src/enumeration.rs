//! The count-then-fetch protocol that lists the processes on a device.
//!
//! The driver is asked twice: first, without a buffer, how many processes
//! there are; then, with a buffer, for their entries. Processes may start
//! between the two calls, so the buffer is allocated with some headroom, and
//! a fetch that still does not fit starts the sequence again, a bounded
//! number of times.
//!
//! The calls themselves are made by the caller. `Enumeration` takes each
//! reply and answers with the next step.

use crate::process::convert_entries;
use crate::process::usages_of;
use crate::process::zero_entry;
use crate::process::zeroed_buffer;
use crate::process::ProcessUsage;
use crate::process::RawProcessEntry;
use crate::status::class_of;
use crate::status::classify;
use crate::status::StatusClass;
use crate::status::STATUS_INSUFFICIENT_SIZE;
use crate::status::STATUS_SUCCESS;
use vstd::prelude::*;

verus! {

/// Entries that the fetch buffer has beyond the count that was observed.
pub const HEADROOM: u32 = 5;

/// How often one enumeration starts again after a fetch that did not fit.
pub const RETRY_LIMIT: u32 = 3;

/// Why an enumeration gave up.
#[derive(Clone, Copy, Debug, PartialEq, Eq, Structural)]
pub enum EnumerationError {
    /// The driver answered with a status that is neither success nor
    /// insufficient size.
    Driver { status: u32 },
    /// The fetch did not fit, and no retry is left.
    RetryLimitExceeded,
}

/// What the caller does next.
#[derive(Debug)]
pub enum Step {
    /// Call the driver with this buffer, and with its length as the count.
    Fetch { buffer: Vec<RawProcessEntry> },
    /// Start again with the count query.
    Retry,
    /// The enumeration is complete: these are the processes.
    Done(Vec<ProcessUsage>),
    /// The enumeration failed.
    Failed(EnumerationError),
}

/// A step, with sequences in place of vectors.
pub enum StepView {
    Fetch { buffer: Seq<RawProcessEntry> },
    Retry,
    Done(Seq<ProcessUsage>),
    Failed(EnumerationError),
}

impl View for Step {
    type V = StepView;

    open spec fn view(&self) -> StepView {
        match *self {
            Step::Fetch { buffer } => StepView::Fetch { buffer: buffer@ },
            Step::Retry => StepView::Retry,
            Step::Done(processes) => StepView::Done(processes@),
            Step::Failed(error) => StepView::Failed(error),
        }
    }
}

/// The number of processes that a reply to the count query reports, if it
/// reports one. A count query hands the driver no buffer, so the driver
/// answers "insufficient size" and leaves the true count in the count field
/// whenever there is a process at all; success means that there is none.
pub open spec fn reported_count(status: u32, count: u32) -> Option<u32> {
    match class_of(status) {
        StatusClass::InsufficientSize => Some(count),
        StatusClass::Success => Some(0u32),
        StatusClass::Failure => None,
    }
}

/// The length of the buffer that is fetched into after `count` processes
/// were reported: `count` and the headroom, as far as a `u32` can hold it.
pub open spec fn capacity_for(count: u32) -> u32 {
    if count <= u32::MAX - HEADROOM {
        (count + HEADROOM) as u32
    } else {
        u32::MAX
    }
}

/// The buffer that is fetched into after `count` processes were reported.
pub open spec fn fetch_buffer(count: u32) -> Seq<RawProcessEntry> {
    Seq::new(capacity_for(count) as nat, |i: int| zero_entry())
}

/// The step that follows a reply to the count query.
pub open spec fn count_step(status: u32, count: u32) -> StepView {
    match reported_count(status, count) {
        None => StepView::Failed(EnumerationError::Driver { status }),
        Some(reported) => if reported == 0 {
            StepView::Done(Seq::empty())
        } else {
            StepView::Fetch { buffer: fetch_buffer(reported) }
        },
    }
}

/// Whether a reply to a fetch says that the buffer was too small: by its
/// status, or by a count of entries that the buffer cannot have held.
pub open spec fn overran(status: u32, count: u32, capacity: nat) -> bool {
    ||| class_of(status) == StatusClass::InsufficientSize
    ||| class_of(status) == StatusClass::Success && count > capacity
}

/// The step that follows a reply to a fetch, after `retries` retries.
pub open spec fn fetch_step(
    retries: nat,
    status: u32,
    count: u32,
    buffer: Seq<RawProcessEntry>,
) -> StepView {
    if class_of(status) == StatusClass::Failure {
        StepView::Failed(EnumerationError::Driver { status })
    } else if overran(status, count, buffer.len()) {
        if retries < RETRY_LIMIT {
            StepView::Retry
        } else {
            StepView::Failed(EnumerationError::RetryLimitExceeded)
        }
    } else {
        StepView::Done(usages_of(buffer.subrange(0, count as int)))
    }
}

/// The number of retries after a step was taken.
pub open spec fn retries_after(retries: nat, step: StepView) -> nat {
    if step is Retry {
        retries + 1
    } else {
        retries
    }
}

/// Reads the reply to a count query: the number of processes that it
/// reports, or the failure that its status stands for. Success reports none;
/// "insufficient size" reports the count that the driver left.
pub fn count_from_reply(status: u32, count: u32) -> (reported: Result<u32, EnumerationError>)
    ensures
        reported == match reported_count(status, count) {
            Some(number) => Ok::<u32, EnumerationError>(number),
            None => Err::<u32, EnumerationError>(EnumerationError::Driver { status }),
        },
{
    match classify(status) {
        StatusClass::InsufficientSize => Ok(count),
        StatusClass::Success => Ok(0),
        StatusClass::Failure => Err(EnumerationError::Driver { status }),
    }
}

/// One enumeration of the processes on a device, from its first count query
/// to `Done` or `Failed`.
#[derive(Debug)]
pub struct Enumeration {
    retries: u32,
}

impl Enumeration {
    #[verifier::type_invariant]
    spec fn within_limit(self) -> bool {
        self.retries <= RETRY_LIMIT
    }

    /// The number of times that this enumeration has started again.
    pub closed spec fn retries(self) -> nat {
        self.retries as nat
    }

    /// An enumeration that has not asked anything yet. The caller starts with
    /// the count query.
    pub fn new() -> (enumeration: Enumeration)
        ensures
            enumeration.retries() == 0,
    {
        Enumeration { retries: 0 }
    }

    /// The number of times that this enumeration has started again, which
    /// never exceeds `RETRY_LIMIT`.
    pub fn retries_used(&self) -> (used: u32)
        ensures
            used == self.retries(),
            used <= RETRY_LIMIT,
    {
        proof {
            use_type_invariant(self);
        }
        self.retries
    }

    /// Takes the reply to the count query. Where the reply reports no
    /// process, the enumeration is done with an empty list and nothing is
    /// fetched. Where it reports some, the step is a fetch into a zeroed
    /// buffer with headroom. Any status but success and insufficient size
    /// fails the enumeration.
    pub fn on_count_reply(&self, status: u32, count: u32) -> (step: Step)
        ensures
            step@ == count_step(status, count),
            reported_count(status, count) == Some(0u32) ==> step@ == StepView::Done(Seq::empty()),
            !(step@ is Retry),
    {
        match count_from_reply(status, count) {
            Err(error) => Step::Failed(error),
            Ok(reported) => {
                if reported == 0 {
                    Step::Done(Vec::new())
                } else {
                    let capacity: u32 = if reported <= u32::MAX - HEADROOM {
                        reported + HEADROOM
                    } else {
                        u32::MAX
                    };
                    Step::Fetch { buffer: zeroed_buffer(capacity) }
                }
            },
        }
    }

    /// Takes the reply to a fetch: its status, the count that the driver
    /// left, and the buffer that it filled. On success the list is made of
    /// the first `count` entries of the buffer, and of nothing else. A reply
    /// that says the buffer was too small never yields a list: the step is a
    /// retry while one is left, and a failure after that. Any other status
    /// fails the enumeration.
    pub fn on_fetch_reply(&mut self, status: u32, count: u32, buffer: Vec<RawProcessEntry>) -> (step:
        Step)
        ensures
            step@ == fetch_step(old(self).retries(), status, count, buffer@),
            final(self).retries() == retries_after(old(self).retries(), step@),
            step@ matches StepView::Done(processes) ==> processes.len() == count && count
                <= buffer@.len(),
            overran(status, count, buffer@.len()) ==> !(step@ is Done),
            !(step@ is Fetch),
    {
        proof {
            use_type_invariant(&*self);
        }
        match classify(status) {
            StatusClass::Failure => Step::Failed(EnumerationError::Driver { status }),
            StatusClass::InsufficientSize => self.lose_race(),
            StatusClass::Success => {
                if count as usize <= buffer.len() {
                    Step::Done(convert_entries(buffer, count))
                } else {
                    self.lose_race()
                }
            },
        }
    }

    /// Counts one lost race, if another attempt is left.
    fn lose_race(&mut self) -> (step: Step)
        ensures
            old(self).retries() < RETRY_LIMIT ==> step@ == StepView::Retry && final(self).retries()
                == old(self).retries() + 1,
            old(self).retries() >= RETRY_LIMIT ==> step@ == StepView::Failed(
                EnumerationError::RetryLimitExceeded,
            ) && final(self).retries() == old(self).retries(),
    {
        if self.retries < RETRY_LIMIT {
            self.retries = self.retries + 1;
            Step::Retry
        } else {
            Step::Failed(EnumerationError::RetryLimitExceeded)
        }
    }
}

/// What the driver answers in one round of the protocol: to the count
/// query, and to the fetch that follows it if one does.
pub struct Round {
    pub count_status: u32,
    pub count: u32,
    pub fetch_status: u32,
    pub fetch_count: u32,
    /// The fetch buffer as the driver filled it.
    pub filled: Seq<RawProcessEntry>,
}

/// The step that ends a round: the step after the reply to the count query
/// where that is no fetch, else the step after the reply to the fetch.
pub open spec fn round_step(retries: nat, round: Round) -> StepView {
    if count_step(round.count_status, round.count) is Fetch {
        fetch_step(retries, round.fetch_status, round.fetch_count, round.filled)
    } else {
        count_step(round.count_status, round.count)
    }
}

/// Where an enumeration ends when the driver answers round after round as
/// `rounds` say: with the step of the first round that is no retry. `None`
/// where every round is answered with a retry.
pub open spec fn outcome(retries: nat, rounds: Seq<Round>) -> Option<StepView>
    decreases rounds.len(),
{
    if rounds.len() == 0 {
        None
    } else if round_step(retries, rounds[0]) is Retry {
        outcome(retries + 1, rounds.drop_first())
    } else {
        Some(round_step(retries, rounds[0]))
    }
}

/// Zero-count short-circuit. A round whose count query reports no process
/// is done with the empty list, and there is no fetch in it: whatever a
/// fetch would have answered plays no part.
pub proof fn lemma_zero_count_short_circuit(retries: nat, round: Round)
    requires
        reported_count(round.count_status, round.count) == Some(0u32),
    ensures
        !(count_step(round.count_status, round.count) is Fetch),
        round_step(retries, round) == StepView::Done(Seq::empty()),
{
}

/// Headroom tolerance. Let the count query of a round report `reported`
/// processes, and let the fetch into the buffer made for that count succeed
/// with no more entries than the headroom above what was reported. Then the
/// round is done, with exactly as many usage figures as the fetch counted:
/// those of the first entries of the buffer, in order. This holds whatever
/// the number of retries so far, and no retry is counted.
///
/// Where no process was reported nothing is fetched, so nothing can have
/// been counted either.
pub proof fn lemma_headroom_tolerance(retries: nat, round: Round, reported: u32)
    requires
        reported_count(round.count_status, round.count) == Some(reported),
        round.fetch_status == STATUS_SUCCESS,
        round.fetch_count <= reported + HEADROOM,
        reported == 0 ==> round.fetch_count == 0,
        reported > 0 ==> round.filled.len() == capacity_for(reported),
    ensures
        round_step(retries, round) == StepView::Done(
            usages_of(round.filled.subrange(0, round.fetch_count as int)),
        ),
        usages_of(round.filled.subrange(0, round.fetch_count as int)).len() == round.fetch_count,
        reported > 0 ==> count_step(round.count_status, round.count) == (StepView::Fetch {
            buffer: fetch_buffer(reported),
        }) && fetch_buffer(reported).len() == round.filled.len(),
        retries_after(retries, round_step(retries, round)) == retries,
{
    assert(usages_of(round.filled.subrange(0, 0)) =~= Seq::<ProcessUsage>::empty());
}

/// A lost race is retried, never passed off as a list. Let the count query
/// of a round report `reported` processes, at least one, and let the reply
/// to the fetch count more processes than the headroom covers, with either
/// status that carries a count. Then the round yields no list: it starts the
/// sequence again while a retry is left, and fails with
/// `RetryLimitExceeded` when none is.
pub proof fn lemma_overrun_is_retried(retries: nat, round: Round, reported: u32)
    requires
        reported_count(round.count_status, round.count) == Some(reported),
        reported > 0,
        round.fetch_count > reported + HEADROOM,
        class_of(round.fetch_status) != StatusClass::Failure,
        round.filled.len() == capacity_for(reported),
    ensures
        overran(round.fetch_status, round.fetch_count, round.filled.len()),
        !(round_step(retries, round) is Done),
        retries < RETRY_LIMIT ==> round_step(retries, round) == StepView::Retry,
        retries >= RETRY_LIMIT ==> round_step(retries, round) == StepView::Failed(
            EnumerationError::RetryLimitExceeded,
        ),
{
}

/// A fetch that is answered with the status "insufficient size" is a lost
/// race whatever its count and whatever the buffer.
pub proof fn lemma_insufficient_size_is_overrun(
    retries: nat,
    count: u32,
    filled: Seq<RawProcessEntry>,
)
    ensures
        overran(STATUS_INSUFFICIENT_SIZE, count, filled.len()),
        !(fetch_step(retries, STATUS_INSUFFICIENT_SIZE, count, filled) is Done),
        retries < RETRY_LIMIT ==> fetch_step(retries, STATUS_INSUFFICIENT_SIZE, count, filled)
            == StepView::Retry,
{
}

/// Retries are bounded. Whatever the driver answers, an enumeration that
/// has retried `retries` times ends within `RETRY_LIMIT - retries + 1`
/// rounds, and it ends done or failed: a fresh one asks for the count at
/// most `RETRY_LIMIT + 1` times.
pub proof fn lemma_enumeration_ends(retries: nat, rounds: Seq<Round>)
    requires
        retries <= RETRY_LIMIT,
        rounds.len() > RETRY_LIMIT - retries,
    ensures
        outcome(retries, rounds) matches Some(step) && (step is Done || step is Failed),
    decreases rounds.len(),
{
    if round_step(retries, rounds[0]) is Retry {
        lemma_enumeration_ends(retries + 1, rounds.drop_first());
    }
}

/// An enumeration ends with the first round that does not lose the race.
/// If the driver's answers make each of the first rounds a lost race, and
/// the round after them is answered otherwise, then the enumeration ends
/// with the step of that round, and the rounds after it play no part.
pub proof fn lemma_outcome_is_first_settled_round(retries: nat, rounds: Seq<Round>, lost: nat)
    requires
        lost < rounds.len(),
        forall|i: int| 0 <= i < lost ==> round_step(retries + i as nat, #[trigger] rounds[i]) is Retry,
        !(round_step(retries + lost, rounds[lost as int]) is Retry),
    ensures
        outcome(retries, rounds) == Some(round_step(retries + lost, rounds[lost as int])),
    decreases lost,
{
    if lost > 0 {
        let rest = rounds.drop_first();
        assert(round_step(retries + 0 as nat, rounds[0]) is Retry);
        assert forall|i: int| 0 <= i < lost - 1 implies round_step(
            retries + 1 + i as nat,
            #[trigger] rest[i],
        ) is Retry by {
            assert(rest[i] == rounds[i + 1]);
            assert(retries + 1 + i as nat == retries + (i + 1) as nat);
        }
        assert(rest[lost - 1] == rounds[lost as int]);
        lemma_outcome_is_first_settled_round(retries + 1, rest, (lost - 1) as nat);
    }
}

} // verus!
