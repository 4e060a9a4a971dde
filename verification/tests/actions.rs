use procmon::csvline::{header_line, sample_line};
use procmon::row::sample_fields;
use procmon::sampler::{
    elapsed_from_clock, error_message, next_action, Action, Metrics, MonitorError, Observation,
    ProcStatus, RunConfig,
};

fn metrics() -> Metrics {
    Metrics {
        cpu_centi_percent: 250,
        memory_bytes: 5 * 1048576,
        virtual_memory_bytes: 20 * 1048576,
        written_bytes: 1048576,
        read_bytes: 0,
        net_up_bytes: 2 * 1048576,
        net_down_bytes: 3 * 1048576,
    }
}

fn alive(status: ProcStatus) -> Observation {
    Observation::Alive { status, metrics: metrics() }
}

#[test]
fn missing_process_aborts_with_lookup_error() {
    // A numeric identifier that never resolved: the run aborts right after
    // its first lookup, before any sample row.
    let cfg = RunConfig { interval_s: Some(1), duration_s: None, network: false };
    let a = next_action(&cfg, 0, &Observation::Missing);
    assert_eq!(a, Action::Abort(MonitorError::Lookup));
}

#[test]
fn terminal_status_stops_without_a_row() {
    // A process that exits immediately after spawn: the first check already
    // sees a terminal state, so the file keeps header plus zero rows.
    let cfg = RunConfig { interval_s: Some(1), duration_s: None, network: false };
    assert_eq!(next_action(&cfg, 0, &alive(ProcStatus::Zombie)), Action::Stop);
    assert_eq!(next_action(&cfg, 0, &alive(ProcStatus::Dead)), Action::Stop);
}

#[test]
fn running_process_emits_converted_sample() {
    let cfg = RunConfig { interval_s: None, duration_s: None, network: true };
    match next_action(&cfg, 4, &alive(ProcStatus::Running)) {
        Action::Emit(s) => {
            assert_eq!(s.elapsed_s, 4);
            assert_eq!(s.cpu_centi_percent, 250);
            assert_eq!(s.mem_mb, 5);
            assert_eq!(s.virt_mb, 20);
            assert_eq!(s.written_mb, 1);
            assert_eq!(s.read_mb, 0);
            assert_eq!(s.net_up_mb, 2);
            assert_eq!(s.net_down_mb, 3);
        }
        other => panic!("expected a sample, got {:?}", other),
    }
}

#[test]
fn duration_boundary_is_strict() {
    // Elapsed time equal to the duration still emits; one second past it
    // stops with no row for that iteration.
    let cfg = RunConfig { interval_s: Some(1), duration_s: Some(5), network: false };
    assert!(matches!(next_action(&cfg, 5, &alive(ProcStatus::Running)), Action::Emit(_)));
    assert_eq!(next_action(&cfg, 6, &alive(ProcStatus::Running)), Action::Stop);
}

#[test]
fn duration_check_precedes_status_check() {
    // Past the duration the run stops even if the status is terminal, and
    // even if the lookup found the process.
    let cfg = RunConfig { interval_s: None, duration_s: Some(2), network: false };
    assert_eq!(next_action(&cfg, 3, &alive(ProcStatus::Zombie)), Action::Stop);
}

#[test]
fn network_run_with_interval_and_duration() {
    // Interval 2, duration 5: samples at elapsed 0, 2 and 4, each with
    // eight columns; the iteration at elapsed 6 stops the run.
    let cfg = RunConfig { interval_s: Some(2), duration_s: Some(5), network: true };
    let mut lines = vec![header_line(true)];
    let mut elapsed = 0;
    loop {
        match next_action(&cfg, elapsed, &alive(ProcStatus::Running)) {
            Action::Emit(s) => {
                assert_eq!(sample_fields(&s, true).len(), 8);
                lines.push(sample_line(&s, true));
                elapsed += 2;
            }
            Action::Stop => break,
            Action::Abort(e) => panic!("unexpected abort: {:?}", e),
        }
    }
    assert_eq!(elapsed, 6);
    assert_eq!(lines.len(), 4);
    assert_eq!(lines[1], "0,2.50,5,20,1,0,2,3\n");
    assert_eq!(lines[2], "2,2.50,5,20,1,0,2,3\n");
    assert_eq!(lines[3], "4,2.50,5,20,1,0,2,3\n");
    // Exactly one header line, and every row keeps the header's width.
    assert_eq!(lines.iter().filter(|l| **l == lines[0]).count(), 1);
    for l in &lines {
        assert_eq!(l.split(',').count(), 8);
    }
}

#[test]
fn elapsed_column_is_non_decreasing() {
    // Observation times as a jittery clock would give them: the emitted
    // rows carry them through in order.
    let cfg = RunConfig { interval_s: Some(1), duration_s: None, network: false };
    let ticks = [0u64, 1, 3, 3, 7];
    let mut last = 0u64;
    for t in ticks {
        match next_action(&cfg, t, &alive(ProcStatus::Running)) {
            Action::Emit(s) => {
                assert!(s.elapsed_s >= last);
                last = s.elapsed_s;
            }
            other => panic!("expected a sample, got {:?}", other),
        }
    }
}

#[test]
fn clock_going_backwards_is_fatal() {
    assert_eq!(elapsed_from_clock(10, 3), Ok(7));
    assert_eq!(elapsed_from_clock(3, 3), Ok(0));
    assert_eq!(elapsed_from_clock(2, 3), Err(MonitorError::Clock));
}

#[test]
fn each_fatal_condition_has_its_message() {
    assert_eq!(error_message(&MonitorError::Spawn), "failed to execute command");
    assert_eq!(error_message(&MonitorError::Sink), "Unable to write to csv file");
    assert_eq!(error_message(&MonitorError::Lookup), "Unable to find process with pid");
    assert_eq!(error_message(&MonitorError::Clock), "Time went backwards");
}
