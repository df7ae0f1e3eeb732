use gpu_mem_monitor::enumeration::EnumerationError;
use gpu_mem_monitor::process::ProcessUsage;
use gpu_mem_monitor::report::{target_usage, TickReport};
use gpu_mem_monitor::resolver::ResolveError;
use gpu_mem_monitor::sampler::{MemorySnapshot, MemoryTotals, SampleError, Sampler};

#[test]
fn sample_is_totals_and_processes_together() {
    let sampler = Sampler::begin(Ok(MemoryTotals {
        total: 8_000_000_000,
        used: 1_000_000,
        free: 7_999_000_000,
    }))
    .expect("the totals were read");
    let sample =
        sampler.finish(Ok(vec![ProcessUsage { process_id: 1234, memory_used: Some(500_000) }]));
    assert_eq!(
        sample,
        Ok(MemorySnapshot {
            total: 8_000_000_000,
            used: 1_000_000,
            free: 7_999_000_000,
            processes: vec![ProcessUsage { process_id: 1234, memory_used: Some(500_000) }],
        })
    );
}

#[test]
fn refused_memory_query_ends_the_sample() {
    match Sampler::begin(Err(15)) {
        Err(error) => assert_eq!(error, SampleError::MemoryInfo { status: 15 }),
        Ok(_) => panic!("a refused query begins no sample"),
    }
}

#[test]
fn failed_enumeration_is_handed_on_unchanged() {
    let totals = MemoryTotals { total: 3, used: 1, free: 2 };
    for error in [
        SampleError::Enumeration(EnumerationError::Driver { status: 9 }),
        SampleError::Enumeration(EnumerationError::RetryLimitExceeded),
        SampleError::EntryPoint(ResolveError::EntryPointNotFound),
        SampleError::EntryPoint(ResolveError::DriverLibraryNotFound),
    ] {
        let sampler = Sampler::begin(Ok(totals)).expect("the totals were read");
        assert_eq!(sampler.finish(Err(error)), Err(error));
    }
}

#[test]
fn usage_of_a_listed_process_is_its_bytes() {
    let processes = vec![
        ProcessUsage { process_id: 1, memory_used: Some(10) },
        ProcessUsage { process_id: 2, memory_used: None },
        ProcessUsage { process_id: 3, memory_used: Some(0) },
        ProcessUsage { process_id: 1, memory_used: Some(99) },
    ];
    assert_eq!(target_usage(&processes, 1), Some(10));
    assert_eq!(target_usage(&processes, 2), None);
    assert_eq!(target_usage(&processes, 3), Some(0));
    assert_eq!(target_usage(&processes, 4), None);
    assert_eq!(target_usage(&vec![], 1), None);
}

#[test]
fn usage_figure_is_bytes_or_minus_one() {
    let mut report = TickReport { total: 0, used: 0, free: 0, target_usage: Some(500_000) };
    assert_eq!(report.usage_figure(), 500_000);
    report.target_usage = Some(0);
    assert_eq!(report.usage_figure(), 0);
    report.target_usage = Some(u64::MAX - 1);
    assert_eq!(report.usage_figure(), 18_446_744_073_709_551_614);
    report.target_usage = None;
    assert_eq!(report.usage_figure(), -1);
}

#[test]
fn report_carries_the_totals_and_the_target_usage() {
    let snapshot = MemorySnapshot {
        total: 100,
        used: 60,
        free: 40,
        processes: vec![
            ProcessUsage { process_id: 5, memory_used: Some(7) },
            ProcessUsage { process_id: 6, memory_used: None },
        ],
    };
    assert_eq!(
        TickReport::new(&snapshot, 5),
        TickReport { total: 100, used: 60, free: 40, target_usage: Some(7) }
    );
    assert_eq!(
        TickReport::new(&snapshot, 6),
        TickReport { total: 100, used: 60, free: 40, target_usage: None }
    );
    assert_eq!(
        TickReport::new(&snapshot, 8),
        TickReport { total: 100, used: 60, free: 40, target_usage: None }
    );
}
