//! The loop that takes a sample at every tick until it is cancelled.
//!
//! The loop is `Running`, then `Stopping`, then `Terminated`, and never goes
//! back. While it runs, each tick looks at the cancellation flag, takes one
//! sample, reports it and waits for the interval, in this order. A raised
//! flag or a failed sample stops the loop. A stopping loop says why it
//! stops; terminated, it releases the driver session, once, and leaves,
//! with exit code 0 after a cancellation and 1 after a failed sample.
//!
//! Reading the flag, sampling, printing, waiting and the release are the
//! caller's part. `MonitorLoop` names the action to perform, is told how it
//! went, and names the next one.

use crate::report::report_of;
use crate::report::TickReport;
use crate::sampler::MemorySnapshot;
use crate::sampler::SampleError;
use vstd::prelude::*;

verus! {

/// Where the loop stands.
#[derive(Clone, Copy, Debug, PartialEq, Eq, Structural)]
pub enum Phase {
    Running,
    Stopping,
    Terminated,
}

/// The step that the loop is at. The first four are the steps of a tick.
#[derive(Clone, Copy, Debug, PartialEq, Eq)]
pub enum Stage {
    /// At a tick boundary, about to look at the cancellation flag.
    CheckFlag,
    /// About to take the sample of this tick.
    Sample,
    /// About to hand the figures of this tick to the presentation.
    Report(TickReport),
    /// About to wait for the interval.
    Wait,
    /// Stopping: about to say why. `cause` is the sample failure that
    /// stopped the loop, or `None` where it was cancelled.
    Announce { cause: Option<SampleError> },
    /// Terminated, with the driver session still to release.
    Release { cause: Option<SampleError> },
    /// Terminated, with the release behind it: about to leave. `cause` is
    /// still the sample failure that stopped the loop, if one did.
    Exit { cause: Option<SampleError> },
}

/// What the caller does next.
#[derive(Clone, Copy, Debug, PartialEq, Eq)]
pub enum Action {
    /// Read the cancellation flag; answer with `Event::Flag`.
    CheckFlag,
    /// Take a sample; answer with `Event::Sampled`.
    Sample,
    /// Present these figures; answer with `Event::Reported`.
    Report(TickReport),
    /// Block for so many milliseconds; answer with `Event::Waited`.
    Wait { interval_ms: u32 },
    /// Confirm the cancellation, or name the failure; answer with
    /// `Event::Announced`.
    Announce { cause: Option<SampleError> },
    /// Release the driver session, as well as can be done; answer with
    /// `Event::Released`.
    ReleaseSession,
    /// Leave with this exit code: 0 after a cancellation, 1 after a failed
    /// sample.
    Exit { code: u8 },
}

/// What the caller reports back.
#[derive(Debug, PartialEq, Eq)]
pub enum Event {
    /// The cancellation flag was read.
    Flag { cancelled: bool },
    /// A sample was attempted.
    Sampled(Result<MemorySnapshot, SampleError>),
    /// The figures were presented.
    Reported,
    /// The interval has passed.
    Waited,
    /// The reason for stopping was announced.
    Announced,
    /// The release of the session was attempted.
    Released,
}

/// The loop of one monitoring run.
#[derive(Clone, Copy, Debug, PartialEq, Eq)]
pub struct MonitorLoop {
    pub stage: Stage,
    /// The process whose memory is reported.
    pub target_pid: u32,
    /// The milliseconds between two ticks.
    pub interval_ms: u32,
}

/// The exit code of a loop that was stopped by a failed sample, or, where
/// `cause` is `None`, by a cancellation.
pub open spec fn exit_code_of(cause: Option<SampleError>) -> u8 {
    if cause is None {
        0u8
    } else {
        1u8
    }
}

impl Stage {
    /// The phase that a stage belongs to.
    pub open spec fn phase(self) -> Phase {
        match self {
            Stage::CheckFlag | Stage::Sample | Stage::Report(_) | Stage::Wait => Phase::Running,
            Stage::Announce { .. } => Phase::Stopping,
            Stage::Release { .. } | Stage::Exit { .. } => Phase::Terminated,
        }
    }

    /// How far a stage is on the way from running to leaving.
    pub open spec fn progress(self) -> nat {
        match self {
            Stage::CheckFlag | Stage::Sample | Stage::Report(_) | Stage::Wait => 0,
            Stage::Announce { .. } => 1,
            Stage::Release { .. } => 2,
            Stage::Exit { .. } => 3,
        }
    }
}

impl MonitorLoop {
    /// The loop as it starts: at a tick boundary, running.
    pub open spec fn initial(target_pid: u32, interval_ms: u32) -> MonitorLoop {
        MonitorLoop { stage: Stage::CheckFlag, target_pid, interval_ms }
    }

    /// The action that the loop is waiting for.
    pub open spec fn action(self) -> Action {
        match self.stage {
            Stage::CheckFlag => Action::CheckFlag,
            Stage::Sample => Action::Sample,
            Stage::Report(report) => Action::Report(report),
            Stage::Wait => Action::Wait { interval_ms: self.interval_ms },
            Stage::Announce { cause } => Action::Announce { cause },
            Stage::Release { .. } => Action::ReleaseSession,
            Stage::Exit { cause } => Action::Exit { code: exit_code_of(cause) },
        }
    }

    /// The stage that follows an event. Each stage answers to the one event
    /// that reports on its own action; any other event leaves it where it
    /// is.
    pub open spec fn stage_after(self, event: Event) -> Stage {
        match (self.stage, event) {
            (Stage::CheckFlag, Event::Flag { cancelled }) => if cancelled {
                Stage::Announce { cause: None }
            } else {
                Stage::Sample
            },
            (Stage::Sample, Event::Sampled(Ok(snapshot))) => Stage::Report(
                report_of(snapshot, self.target_pid),
            ),
            (Stage::Sample, Event::Sampled(Err(error))) => Stage::Announce { cause: Some(error) },
            (Stage::Report(_), Event::Reported) => Stage::Wait,
            (Stage::Wait, Event::Waited) => Stage::CheckFlag,
            (Stage::Announce { cause }, Event::Announced) => Stage::Release { cause },
            (Stage::Release { cause }, Event::Released) => Stage::Exit { cause },
            (stage, _) => stage,
        }
    }

    /// The loop after an event.
    pub open spec fn after(self, event: Event) -> MonitorLoop {
        MonitorLoop {
            stage: self.stage_after(event),
            target_pid: self.target_pid,
            interval_ms: self.interval_ms,
        }
    }

    /// The loop after a run of events, taken in order.
    pub open spec fn after_all(self, events: Seq<Event>) -> MonitorLoop
        decreases events.len(),
    {
        if events.len() == 0 {
            self
        } else {
            self.after(events[0]).after_all(events.drop_first())
        }
    }

    /// How often a run of events releases the session: the number of
    /// `Released` events that reach the loop while it asks for the release.
    pub open spec fn releases(self, events: Seq<Event>) -> nat
        decreases events.len(),
    {
        if events.len() == 0 {
            0
        } else {
            let here: nat = if self.stage is Release && events[0] is Released {
                1
            } else {
                0
            };
            here + self.after(events[0]).releases(events.drop_first())
        }
    }

    /// How often a run of events takes a sample: the number of `Sampled`
    /// events that reach the loop while it asks for a sample.
    pub open spec fn samples(self, events: Seq<Event>) -> nat
        decreases events.len(),
    {
        if events.len() == 0 {
            0
        } else {
            let here: nat = if self.stage is Sample && events[0] is Sampled {
                1
            } else {
                0
            };
            here + self.after(events[0]).samples(events.drop_first())
        }
    }

    /// A loop that watches process `target_pid` every `interval_ms`
    /// milliseconds. It starts at a tick boundary: the first action is to
    /// read the flag.
    pub fn new(target_pid: u32, interval_ms: u32) -> (monitor: MonitorLoop)
        ensures
            monitor == MonitorLoop::initial(target_pid, interval_ms),
    {
        MonitorLoop { stage: Stage::CheckFlag, target_pid, interval_ms }
    }

    /// Where the loop stands.
    pub fn phase(&self) -> (phase: Phase)
        ensures
            phase == self.stage.phase(),
    {
        match self.stage {
            Stage::CheckFlag | Stage::Sample | Stage::Report(_) | Stage::Wait => Phase::Running,
            Stage::Announce { .. } => Phase::Stopping,
            Stage::Release { .. } | Stage::Exit { .. } => Phase::Terminated,
        }
    }

    /// The action that the loop is waiting for.
    pub fn next_action(&self) -> (action: Action)
        ensures
            action == self.action(),
    {
        match self.stage {
            Stage::CheckFlag => Action::CheckFlag,
            Stage::Sample => Action::Sample,
            Stage::Report(report) => Action::Report(report),
            Stage::Wait => Action::Wait { interval_ms: self.interval_ms },
            Stage::Announce { cause } => Action::Announce { cause },
            Stage::Release { .. } => Action::ReleaseSession,
            Stage::Exit { cause } => Action::Exit {
                code: if cause.is_none() {
                    0
                } else {
                    1
                },
            },
        }
    }

    /// Takes the report on the action that was asked for, moves on, and
    /// names the next action. An event that does not report on the action
    /// asked for changes nothing, and the same action is named again.
    pub fn advance(&mut self, event: Event) -> (action: Action)
        ensures
            *final(self) == old(self).after(event),
            action == final(self).action(),
    {
        let stage = match (self.stage, event) {
            (Stage::CheckFlag, Event::Flag { cancelled }) => if cancelled {
                Stage::Announce { cause: None }
            } else {
                Stage::Sample
            },
            (Stage::Sample, Event::Sampled(Ok(snapshot))) => Stage::Report(
                TickReport::new(&snapshot, self.target_pid),
            ),
            (Stage::Sample, Event::Sampled(Err(error))) => Stage::Announce { cause: Some(error) },
            (Stage::Report(_), Event::Reported) => Stage::Wait,
            (Stage::Wait, Event::Waited) => Stage::CheckFlag,
            (Stage::Announce { cause }, Event::Announced) => Stage::Release { cause },
            (Stage::Release { cause }, Event::Released) => Stage::Exit { cause },
            (stage, _) => stage,
        };
        self.stage = stage;
        self.next_action()
    }
}

/// The loop never goes back. No event lowers the progress of the loop, and
/// none skips a step on the way out: running leads to stopping, stopping to
/// the release, the release to leaving. What is watched, and how often,
/// never changes.
pub proof fn lemma_loop_moves_forward(monitor: MonitorLoop, event: Event)
    ensures
        monitor.stage.progress() <= monitor.after(event).stage.progress()
            <= monitor.stage.progress() + 1,
        monitor.after(event).target_pid == monitor.target_pid,
        monitor.after(event).interval_ms == monitor.interval_ms,
        monitor.stage is Exit ==> monitor.after(event) == monitor,
{
}

/// The order of a tick. From a tick boundary with the flag down, the loop
/// asks for a sample, then for the report of exactly that sample, then for
/// the wait, and is back at a tick boundary: the next sample does not begin
/// before the last one was reported.
pub proof fn lemma_tick_order(monitor: MonitorLoop, snapshot: MemorySnapshot)
    requires
        monitor.stage is CheckFlag,
    ensures
        monitor.after(Event::Flag { cancelled: false }).action() == Action::Sample,
        monitor.after(Event::Flag { cancelled: false }).after(
            Event::Sampled(Ok(snapshot)),
        ).action() == Action::Report(report_of(snapshot, monitor.target_pid)),
        monitor.after(Event::Flag { cancelled: false }).after(Event::Sampled(Ok(snapshot))).after(
            Event::Reported,
        ).action() == (Action::Wait { interval_ms: monitor.interval_ms }),
        monitor.after(Event::Flag { cancelled: false }).after(Event::Sampled(Ok(snapshot))).after(
            Event::Reported,
        ).after(Event::Waited) == monitor,
{
}

/// The flag is looked at only at a tick boundary: a loop that is anywhere
/// else is not changed by it, raised or not.
pub proof fn lemma_flag_counts_at_tick_boundary_only(monitor: MonitorLoop, cancelled: bool)
    requires
        !(monitor.stage is CheckFlag),
    ensures
        monitor.after(Event::Flag { cancelled }) == monitor,
{
}

/// Cooperative cancellation. A loop that waits for the interval while the
/// flag is raised finishes its wait, sees the flag at the tick boundary that
/// follows, and stops: it confirms the cancellation, releases the session
/// and leaves with exit code 0. Once it has seen the flag it never runs
/// again, whatever events follow: it takes no further sample, asks for no
/// further wait, and releases the session at most once.
pub proof fn lemma_cancellation_during_wait(monitor: MonitorLoop, following: Seq<Event>)
    requires
        monitor.stage is Wait,
    ensures
        monitor.after(Event::Waited).action() == Action::CheckFlag,
        monitor.after(Event::Waited).after(Event::Flag { cancelled: true }).action() == (
        Action::Announce { cause: None }),
        monitor.after(Event::Waited).after(Event::Flag { cancelled: true }).stage.phase()
            == Phase::Stopping,
        monitor.after(Event::Waited).after(Event::Flag { cancelled: true }).after(
            Event::Announced,
        ).action() == Action::ReleaseSession,
        monitor.after(Event::Waited).after(Event::Flag { cancelled: true }).after(
            Event::Announced,
        ).stage.phase() == Phase::Terminated,
        monitor.after(Event::Waited).after(Event::Flag { cancelled: true }).after(
            Event::Announced,
        ).after(Event::Released).action() == (Action::Exit { code: 0u8 }),
        monitor.after(Event::Waited).after(Event::Flag { cancelled: true }).samples(following)
            == 0,
        monitor.after(Event::Waited).after(Event::Flag { cancelled: true }).releases(following)
            <= 1,
        monitor.after(Event::Waited).after(Event::Flag { cancelled: true }).after_all(
            following,
        ).stage.phase() != Phase::Running,
{
    let stopping = monitor.after(Event::Waited).after(Event::Flag { cancelled: true });
    lemma_no_sample_after_stop(stopping, following);
    lemma_session_released_once(stopping, following);
}

/// Fail-fast. A failed sample stops a running loop at once: the loop names
/// the failure, releases the session and leaves with exit code 1. It takes
/// no further sample.
pub proof fn lemma_failed_sample_is_fatal(
    monitor: MonitorLoop,
    error: SampleError,
    following: Seq<Event>,
)
    requires
        monitor.stage is Sample,
    ensures
        monitor.after(Event::Sampled(Err(error))).action() == (Action::Announce {
            cause: Some(error),
        }),
        monitor.after(Event::Sampled(Err(error))).after(Event::Announced).action()
            == Action::ReleaseSession,
        monitor.after(Event::Sampled(Err(error))).after(Event::Announced).after(
            Event::Released,
        ).action() == (Action::Exit { code: 1u8 }),
        monitor.after(Event::Sampled(Err(error))).samples(following) == 0,
{
    lemma_no_sample_after_stop(monitor.after(Event::Sampled(Err(error))), following);
}

/// Progress over a run: a run of events never lowers the progress of the
/// loop.
pub proof fn lemma_run_moves_forward(monitor: MonitorLoop, events: Seq<Event>)
    ensures
        monitor.stage.progress() <= monitor.after_all(events).stage.progress(),
    decreases events.len(),
{
    if events.len() > 0 {
        lemma_loop_moves_forward(monitor, events[0]);
        lemma_run_moves_forward(monitor.after(events[0]), events.drop_first());
    }
}

/// The session is released exactly once. Whatever events reach a loop that
/// has not released the session yet, in whatever order and however many
/// ticks they make, the session is released at most once; and if the run
/// ends with the loop about to leave, it was released exactly once.
pub proof fn lemma_session_released_once(monitor: MonitorLoop, events: Seq<Event>)
    requires
        !(monitor.stage is Exit),
    ensures
        monitor.releases(events) <= 1,
        monitor.after_all(events).stage is Exit ==> monitor.releases(events) == 1,
        monitor.releases(events) == 1 ==> monitor.after_all(events).stage is Exit,
    decreases events.len(),
{
    if events.len() > 0 {
        let next = monitor.after(events[0]);
        let rest = events.drop_first();
        if next.stage is Exit {
            lemma_no_release_after_exit(next, rest);
        } else {
            lemma_session_released_once(next, rest);
        }
    }
}

/// A loop that is about to leave stays so, and releases nothing more.
pub proof fn lemma_no_release_after_exit(monitor: MonitorLoop, events: Seq<Event>)
    requires
        monitor.stage is Exit,
    ensures
        monitor.releases(events) == 0,
        monitor.samples(events) == 0,
        monitor.after_all(events) == monitor,
    decreases events.len(),
{
    if events.len() > 0 {
        lemma_no_release_after_exit(monitor.after(events[0]), events.drop_first());
    }
}

/// A loop that has stopped takes no sample, whatever events reach it.
pub proof fn lemma_no_sample_after_stop(monitor: MonitorLoop, events: Seq<Event>)
    requires
        monitor.stage.phase() != Phase::Running,
    ensures
        monitor.samples(events) == 0,
        monitor.after_all(events).stage.phase() != Phase::Running,
    decreases events.len(),
{
    if events.len() > 0 {
        lemma_loop_moves_forward(monitor, events[0]);
        lemma_no_sample_after_stop(monitor.after(events[0]), events.drop_first());
    }
}

} // verus!
