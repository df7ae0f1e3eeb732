use gpu_mem_monitor::enumeration::EnumerationError;
use gpu_mem_monitor::monitor::{Action, Event, MonitorLoop, Phase, Stage};
use gpu_mem_monitor::process::ProcessUsage;
use gpu_mem_monitor::report::TickReport;
use gpu_mem_monitor::resolver::ResolveError;
use gpu_mem_monitor::sampler::{MemorySnapshot, SampleError};

fn snapshot() -> MemorySnapshot {
    MemorySnapshot {
        total: 8_000_000_000,
        used: 1_000_000,
        free: 7_999_000_000,
        processes: vec![ProcessUsage { process_id: 1234, memory_used: Some(500_000) }],
    }
}

fn report(target_usage: Option<u64>) -> TickReport {
    TickReport { total: 8_000_000_000, used: 1_000_000, free: 7_999_000_000, target_usage }
}

/// Drives a loop as a program would: performs each action against a script
/// and hands back the event. The flag is raised once `ticks_before_cancel`
/// samples were taken; the sample with the number `failing_tick` fails.
struct Run {
    samples: u32,
    reports: Vec<TickReport>,
    waits: Vec<u32>,
    announced: Vec<Option<SampleError>>,
    releases: u32,
    exit: Option<u8>,
}

fn drive(monitor: &mut MonitorLoop, ticks_before_cancel: u32, failing_tick: Option<u32>) -> Run {
    let mut run =
        Run { samples: 0, reports: vec![], waits: vec![], announced: vec![], releases: 0, exit: None };
    let mut action = monitor.next_action();
    for _step in 0..1000 {
        let event = match action {
            Action::CheckFlag => Event::Flag { cancelled: run.samples >= ticks_before_cancel },
            Action::Sample => {
                run.samples += 1;
                if failing_tick == Some(run.samples) {
                    Event::Sampled(Err(SampleError::MemoryInfo { status: 15 }))
                } else {
                    Event::Sampled(Ok(snapshot()))
                }
            }
            Action::Report(report) => {
                run.reports.push(report);
                Event::Reported
            }
            Action::Wait { interval_ms } => {
                run.waits.push(interval_ms);
                Event::Waited
            }
            Action::Announce { cause } => {
                run.announced.push(cause);
                Event::Announced
            }
            Action::ReleaseSession => {
                run.releases += 1;
                Event::Released
            }
            Action::Exit { code } => {
                run.exit = Some(code);
                return run;
            }
        };
        action = monitor.advance(event);
    }
    run
}

#[test]
fn end_to_end_scenario() {
    let mut watching_listed = MonitorLoop::new(1234, 1000);
    assert_eq!(watching_listed.advance(Event::Flag { cancelled: false }), Action::Sample);
    let action = watching_listed.advance(Event::Sampled(Ok(snapshot())));
    assert_eq!(action, Action::Report(report(Some(500_000))));
    match action {
        Action::Report(report) => {
            assert_eq!(report.total, 8_000_000_000);
            assert_eq!(report.used, 1_000_000);
            assert_eq!(report.free, 7_999_000_000);
            assert_eq!(report.usage_figure(), 500000);
        }
        other => panic!("expected a report, got {:?}", other),
    }

    let mut watching_absent = MonitorLoop::new(9999, 1000);
    assert_eq!(watching_absent.advance(Event::Flag { cancelled: false }), Action::Sample);
    match watching_absent.advance(Event::Sampled(Ok(snapshot()))) {
        Action::Report(report) => assert_eq!(report.usage_figure(), -1),
        other => panic!("expected a report, got {:?}", other),
    }
}

#[test]
fn unattributable_usage_of_the_target_prints_minus_one() {
    let mut monitor = MonitorLoop::new(7, 250);
    let sample = MemorySnapshot {
        total: 10,
        used: 4,
        free: 6,
        processes: vec![ProcessUsage { process_id: 7, memory_used: None }],
    };
    monitor.advance(Event::Flag { cancelled: false });
    match monitor.advance(Event::Sampled(Ok(sample))) {
        Action::Report(report) => {
            assert_eq!(report, TickReport { total: 10, used: 4, free: 6, target_usage: None });
            assert_eq!(report.usage_figure(), -1);
        }
        other => panic!("expected a report, got {:?}", other),
    }
}

#[test]
fn new_loop_is_running_at_a_tick_boundary() {
    let monitor = MonitorLoop::new(1234, 1000);
    assert_eq!(
        monitor,
        MonitorLoop { stage: Stage::CheckFlag, target_pid: 1234, interval_ms: 1000 }
    );
    assert_eq!(monitor.phase(), Phase::Running);
    assert_eq!(monitor.next_action(), Action::CheckFlag);
}

#[test]
fn tick_is_flag_sample_report_wait() {
    let mut monitor = MonitorLoop::new(1234, 750);
    assert_eq!(monitor.next_action(), Action::CheckFlag);
    assert_eq!(monitor.advance(Event::Flag { cancelled: false }), Action::Sample);
    assert_eq!(
        monitor.advance(Event::Sampled(Ok(snapshot()))),
        Action::Report(report(Some(500_000)))
    );
    assert_eq!(monitor.advance(Event::Reported), Action::Wait { interval_ms: 750 });
    assert_eq!(monitor.advance(Event::Waited), Action::CheckFlag);
    assert_eq!(monitor, MonitorLoop::new(1234, 750));
    assert_eq!(monitor.phase(), Phase::Running);
}

#[test]
fn phases_follow_the_stages() {
    let at = |stage: Stage| MonitorLoop { stage, target_pid: 1, interval_ms: 1 }.phase();
    assert_eq!(at(Stage::CheckFlag), Phase::Running);
    assert_eq!(at(Stage::Sample), Phase::Running);
    assert_eq!(at(Stage::Report(report(None))), Phase::Running);
    assert_eq!(at(Stage::Wait), Phase::Running);
    assert_eq!(at(Stage::Announce { cause: None }), Phase::Stopping);
    assert_eq!(at(Stage::Release { cause: None }), Phase::Terminated);
    assert_eq!(at(Stage::Exit { cause: None }), Phase::Terminated);
}

#[test]
fn loop_runs_until_the_flag_is_raised() {
    let mut monitor = MonitorLoop::new(1234, 1000);
    let run = drive(&mut monitor, 3, None);
    assert_eq!(run.samples, 3);
    assert_eq!(run.reports, vec![report(Some(500_000)); 3]);
    assert_eq!(run.waits, vec![1000, 1000, 1000]);
    assert_eq!(run.announced, vec![None]);
    assert_eq!(run.releases, 1);
    assert_eq!(run.exit, Some(0));
    assert_eq!(monitor.stage, Stage::Exit { cause: None });
}

#[test]
fn flag_raised_before_the_first_tick_takes_no_sample() {
    let mut monitor = MonitorLoop::new(1234, 1000);
    let run = drive(&mut monitor, 0, None);
    assert_eq!(run.samples, 0);
    assert!(run.reports.is_empty());
    assert!(run.waits.is_empty());
    assert_eq!(run.releases, 1);
    assert_eq!(run.exit, Some(0));
}

#[test]
fn flag_raised_during_the_wait_stops_at_the_next_boundary() {
    let mut monitor = MonitorLoop { stage: Stage::Wait, target_pid: 1234, interval_ms: 1000 };
    assert_eq!(monitor.advance(Event::Flag { cancelled: true }), Action::Wait { interval_ms: 1000 });
    assert_eq!(monitor.phase(), Phase::Running);
    assert_eq!(monitor.advance(Event::Waited), Action::CheckFlag);
    assert_eq!(monitor.advance(Event::Flag { cancelled: true }), Action::Announce { cause: None });
    assert_eq!(monitor.phase(), Phase::Stopping);
    assert_eq!(monitor.advance(Event::Announced), Action::ReleaseSession);
    assert_eq!(monitor.phase(), Phase::Terminated);
    assert_eq!(monitor.advance(Event::Released), Action::Exit { code: 0 });
    assert_eq!(monitor.phase(), Phase::Terminated);
}

#[test]
fn flag_is_not_seen_while_a_sample_is_in_flight() {
    let mut monitor = MonitorLoop::new(1234, 1000);
    assert_eq!(monitor.advance(Event::Flag { cancelled: false }), Action::Sample);
    assert_eq!(monitor.advance(Event::Flag { cancelled: true }), Action::Sample);
    assert_eq!(
        monitor.advance(Event::Sampled(Ok(snapshot()))),
        Action::Report(report(Some(500_000)))
    );
    assert_eq!(monitor.advance(Event::Flag { cancelled: true }), Action::Report(report(Some(500_000))));
}

#[test]
fn failed_sample_stops_the_loop_with_a_failure() {
    let mut monitor = MonitorLoop::new(1234, 1000);
    let run = drive(&mut monitor, 10, Some(3));
    assert_eq!(run.samples, 3);
    assert_eq!(run.reports.len(), 2);
    assert_eq!(run.waits.len(), 2);
    assert_eq!(run.announced, vec![Some(SampleError::MemoryInfo { status: 15 })]);
    assert_eq!(run.releases, 1);
    assert_eq!(run.exit, Some(1));
    assert_eq!(
        monitor.stage,
        Stage::Exit { cause: Some(SampleError::MemoryInfo { status: 15 }) }
    );
}

#[test]
fn failure_of_the_first_sample_reports_nothing() {
    let mut monitor = MonitorLoop::new(1234, 1000);
    let run = drive(&mut monitor, 5, Some(1));
    assert_eq!(run.samples, 1);
    assert!(run.reports.is_empty());
    assert!(run.waits.is_empty());
    assert_eq!(run.releases, 1);
    assert_eq!(run.exit, Some(1));
}

#[test]
fn exit_code_is_zero_only_after_a_cancellation() {
    let leaving = |cause| MonitorLoop { stage: Stage::Exit { cause }, target_pid: 1, interval_ms: 1 };
    assert_eq!(leaving(None).next_action(), Action::Exit { code: 0 });
    for error in [
        SampleError::MemoryInfo { status: 999 },
        SampleError::EntryPoint(ResolveError::EntryPointNotFound),
        SampleError::Enumeration(EnumerationError::RetryLimitExceeded),
    ] {
        assert_eq!(leaving(Some(error)).next_action(), Action::Exit { code: 1 });
    }
}

#[test]
fn event_out_of_turn_changes_nothing() {
    let stages = [
        Stage::CheckFlag,
        Stage::Sample,
        Stage::Report(report(None)),
        Stage::Wait,
        Stage::Announce { cause: None },
        Stage::Release { cause: None },
        Stage::Exit { cause: None },
    ];
    let events = || {
        vec![
            Event::Flag { cancelled: true },
            Event::Sampled(Ok(snapshot())),
            Event::Reported,
            Event::Waited,
            Event::Announced,
            Event::Released,
        ]
    };
    for (place, stage) in stages.iter().enumerate() {
        for (turn, event) in events().into_iter().enumerate() {
            let own = place == turn;
            let mut monitor = MonitorLoop { stage: *stage, target_pid: 1234, interval_ms: 10 };
            let before = monitor;
            let action = monitor.advance(event);
            if own {
                assert_ne!(monitor.stage, before.stage);
            } else {
                assert_eq!(monitor, before);
                assert_eq!(action, before.next_action());
            }
        }
    }
}

#[test]
fn terminated_loop_ignores_every_event() {
    let mut monitor = MonitorLoop::new(1234, 1000);
    let run = drive(&mut monitor, 0, None);
    assert_eq!(run.exit, Some(0));
    let at_exit = monitor;
    for event in [
        Event::Flag { cancelled: false },
        Event::Flag { cancelled: true },
        Event::Sampled(Ok(snapshot())),
        Event::Sampled(Err(SampleError::MemoryInfo { status: 1 })),
        Event::Reported,
        Event::Waited,
        Event::Announced,
        Event::Released,
    ] {
        assert_eq!(monitor.advance(event), Action::Exit { code: 0 });
        assert_eq!(monitor, at_exit);
    }
}
