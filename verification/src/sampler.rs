//! The sampling loop's decisions: what one iteration does, and what a whole
//! run therefore writes.
//!
//! One iteration looks the target up in the metrics snapshot, decides
//! whether to stop, and otherwise turns the reading into a sample row.  The
//! surrounding binary performs the lookup, the file writes, the sleep and
//! the refresh, and feeds each observation in as plain values; every
//! decision is made here.

use vstd::prelude::*;
use vstd::string::StringExecFns;
use crate::csvline::spec_csv_line;
use crate::numfmt::{is_digit_char, lemma_decimal_chars, mb_of_bytes, spec_decimal};
use crate::row::{Sample, spec_header_fields, spec_sample_fields};

verus! {

/// The lifecycle state of the target as the metrics snapshot reports it,
/// reduced to what the loop reads: whether the state is terminal.
#[derive(Clone, Copy, PartialEq, Eq, Structural, Debug)]
pub enum ProcStatus {
    /// Any state in which the process may still produce meaningful metrics.
    Running,
    /// The process has exited and only awaits reaping.
    Zombie,
    /// The process is gone for good.
    Dead,
}

/// Whether a lifecycle state is terminal: no further meaningful metrics
/// exist after it.
pub open spec fn is_terminal(st: ProcStatus) -> bool {
    st is Zombie || st is Dead
}

/// One reading of the target process, in the units the metrics snapshot
/// reports: cumulative byte counts, and the CPU load as a percentage held
/// in hundredths.
#[derive(Clone, Copy, PartialEq, Eq, Structural, Debug)]
pub struct Metrics {
    pub cpu_centi_percent: u64,
    pub memory_bytes: u64,
    pub virtual_memory_bytes: u64,
    pub written_bytes: u64,
    pub read_bytes: u64,
    pub net_up_bytes: u64,
    pub net_down_bytes: u64,
}

/// What one lookup of the target in the refreshed snapshot yielded.
#[derive(Clone, Copy, PartialEq, Eq, Structural, Debug)]
pub enum Observation {
    /// The identifier no longer resolves to a process.
    Missing,
    /// The process was found, with its state and its current reading.
    Alive { status: ProcStatus, metrics: Metrics },
}

/// The configuration of a run.  An absent interval means the loop iterates
/// without sleeping; an absent duration means it runs until the target
/// terminates.
#[derive(Clone, Copy, Debug)]
pub struct RunConfig {
    pub interval_s: Option<u32>,
    pub duration_s: Option<u32>,
    pub network: bool,
}

/// The unrecoverable conditions.  Each aborts the whole run the moment it
/// arises; none is retried.
#[derive(Clone, Copy, PartialEq, Eq, Structural, Debug)]
pub enum MonitorError {
    /// The requested command could not be launched.
    Spawn,
    /// The CSV file could not be created, written or flushed.
    Sink,
    /// The target no longer resolves in the metrics snapshot.
    Lookup,
    /// The clock reported a moment earlier than the recorded start.
    Clock,
}

/// What one iteration of the loop does.
#[derive(Clone, Copy, PartialEq, Eq, Structural, Debug)]
pub enum Action {
    /// Abort the run at once with the given fatal condition.
    Abort(MonitorError),
    /// Stop normally: the duration elapsed or the target terminated.
    Stop,
    /// Append this sample to the file, flush, sleep for the configured
    /// interval, refresh the snapshot, and go round again.
    Emit(Sample),
}

/// The sample computed from one reading: byte counts truncated to whole
/// mebibytes, the CPU load kept in hundredths of a percent.
pub open spec fn spec_sample_of(elapsed_s: u64, m: Metrics) -> Sample {
    Sample {
        elapsed_s,
        cpu_centi_percent: m.cpu_centi_percent,
        mem_mb: (m.memory_bytes / 1048576) as u64,
        virt_mb: (m.virtual_memory_bytes / 1048576) as u64,
        written_mb: (m.written_bytes / 1048576) as u64,
        read_mb: (m.read_bytes / 1048576) as u64,
        net_up_mb: (m.net_up_bytes / 1048576) as u64,
        net_down_mb: (m.net_down_bytes / 1048576) as u64,
    }
}

/// What one iteration does, in order: a target that no longer resolves is
/// fatal; then a configured duration strictly exceeded stops the run; then
/// a terminal lifecycle state stops it; otherwise the reading becomes a
/// sample.
pub open spec fn spec_next_action(cfg: RunConfig, elapsed_s: u64, obs: Observation) -> Action {
    match obs {
        Observation::Missing => Action::Abort(MonitorError::Lookup),
        Observation::Alive { status, metrics } => {
            if cfg.duration_s matches Some(d) && elapsed_s > d as u64 {
                Action::Stop
            } else if is_terminal(status) {
                Action::Stop
            } else {
                Action::Emit(spec_sample_of(elapsed_s, metrics))
            }
        },
    }
}

/// Decides one iteration of the sampling loop.
pub fn next_action(cfg: &RunConfig, elapsed_s: u64, obs: &Observation) -> (a: Action)
    ensures
        a == spec_next_action(*cfg, elapsed_s, *obs),
{
    match obs {
        Observation::Missing => Action::Abort(MonitorError::Lookup),
        Observation::Alive { status, metrics } => {
            let over_duration = match cfg.duration_s {
                Some(d) => elapsed_s > d as u64,
                None => false,
            };
            if over_duration {
                Action::Stop
            } else {
                match status {
                    ProcStatus::Zombie => Action::Stop,
                    ProcStatus::Dead => Action::Stop,
                    ProcStatus::Running => Action::Emit(
                        Sample {
                            elapsed_s,
                            cpu_centi_percent: metrics.cpu_centi_percent,
                            mem_mb: mb_of_bytes(metrics.memory_bytes),
                            virt_mb: mb_of_bytes(metrics.virtual_memory_bytes),
                            written_mb: mb_of_bytes(metrics.written_bytes),
                            read_mb: mb_of_bytes(metrics.read_bytes),
                            net_up_mb: mb_of_bytes(metrics.net_up_bytes),
                            net_down_mb: mb_of_bytes(metrics.net_down_bytes),
                        },
                    ),
                }
            }
        },
    }
}

/// The whole seconds elapsed between the recorded start of the run and a
/// later clock reading, both as seconds of the system clock.  A reading
/// earlier than the start is the fatal clock anomaly.
pub fn elapsed_from_clock(now_s: u64, start_s: u64) -> (r: Result<u64, MonitorError>)
    ensures
        r == (if now_s >= start_s {
            Result::<u64, MonitorError>::Ok((now_s - start_s) as u64)
        } else {
            Result::<u64, MonitorError>::Err(MonitorError::Clock)
        }),
{
    if now_s >= start_s {
        Ok(now_s - start_s)
    } else {
        Err(MonitorError::Clock)
    }
}

/// The diagnostic message of a fatal condition.
pub open spec fn spec_error_message(e: MonitorError) -> Seq<char> {
    match e {
        MonitorError::Spawn => "failed to execute command"@,
        MonitorError::Sink => "Unable to write to csv file"@,
        MonitorError::Lookup => "Unable to find process with pid"@,
        MonitorError::Clock => "Time went backwards"@,
    }
}

/// The diagnostic message that a fatal condition aborts the program with.
pub fn error_message(e: &MonitorError) -> (r: String)
    ensures
        r@ == spec_error_message(*e),
{
    match e {
        MonitorError::Spawn => String::from_str("failed to execute command"),
        MonitorError::Sink => String::from_str("Unable to write to csv file"),
        MonitorError::Lookup => String::from_str("Unable to find process with pid"),
        MonitorError::Clock => String::from_str("Time went backwards"),
    }
}

/// The samples a whole run emits, given the observation of each iteration
/// paired with its elapsed time: the loop emits a sample per iteration
/// until the first iteration that does not, and that iteration's action —
/// a normal stop or a fatal abort — ends the run.
pub open spec fn spec_run(cfg: RunConfig, ticks: Seq<(u64, Observation)>) -> Seq<Sample>
    decreases ticks.len(),
{
    if ticks.len() == 0 {
        Seq::empty()
    } else {
        match spec_next_action(cfg, ticks[0].0, ticks[0].1) {
            Action::Emit(s) => seq![s] + spec_run(cfg, ticks.drop_first()),
            _ => Seq::empty(),
        }
    }
}

/// Each sample of a run is exactly what its iteration emitted, and carries
/// that iteration's elapsed time.
pub proof fn lemma_run_rows(cfg: RunConfig, ticks: Seq<(u64, Observation)>)
    ensures
        spec_run(cfg, ticks).len() <= ticks.len(),
        forall|i: int|
            0 <= i < spec_run(cfg, ticks).len() ==> spec_next_action(
                cfg,
                ticks[i].0,
                ticks[i].1,
            ) == Action::Emit(#[trigger] spec_run(cfg, ticks)[i]) && spec_run(cfg, ticks)[i].elapsed_s
                == ticks[i].0,
    decreases ticks.len(),
{
    let rows = spec_run(cfg, ticks);
    if ticks.len() == 0 {
    } else {
        match spec_next_action(cfg, ticks[0].0, ticks[0].1) {
            Action::Emit(s) => {
                lemma_run_rows(cfg, ticks.drop_first());
                let rest = spec_run(cfg, ticks.drop_first());
                assert forall|i: int| 0 <= i < rows.len() implies spec_next_action(
                    cfg,
                    ticks[i].0,
                    ticks[i].1,
                ) == Action::Emit(#[trigger] rows[i]) && rows[i].elapsed_s == ticks[i].0 by {
                    if i > 0 {
                        assert(rows[i] == rest[i - 1]);
                        assert(ticks.drop_first()[i - 1] == ticks[i]);
                    }
                }
            },
            _ => {},
        }
    }
}

/// A run with a configured duration never emits a sample whose elapsed
/// time exceeds it: an elapsed time of exactly the duration may still be
/// written, one past it stops the run with no sample for that iteration.
pub proof fn lemma_duration_is_never_exceeded(
    cfg: RunConfig,
    ticks: Seq<(u64, Observation)>,
    d: u32,
)
    requires
        cfg.duration_s == Some(d),
    ensures
        forall|i: int|
            0 <= i < spec_run(cfg, ticks).len() ==> (#[trigger] spec_run(cfg, ticks)[i]).elapsed_s
                <= d as u64,
{
    lemma_run_rows(cfg, ticks);
}

/// The off-by-one boundary of the duration check: an iteration at elapsed
/// time past the duration stops at once, one at or before it with a live
/// target still emits its sample.
pub proof fn lemma_duration_boundary(
    cfg: RunConfig,
    d: u32,
    elapsed_s: u64,
    status: ProcStatus,
    metrics: Metrics,
)
    requires
        cfg.duration_s == Some(d),
    ensures
        elapsed_s > d as u64 ==> spec_next_action(
            cfg,
            elapsed_s,
            Observation::Alive { status, metrics },
        ) == Action::Stop,
        elapsed_s <= d as u64 && !is_terminal(status) ==> spec_next_action(
            cfg,
            elapsed_s,
            Observation::Alive { status, metrics },
        ) == Action::Emit(spec_sample_of(elapsed_s, metrics)),
{
}

/// When the observations of a run are made at non-decreasing elapsed
/// times, the elapsed-time column is non-decreasing across its rows.
pub proof fn lemma_rows_monotonic(cfg: RunConfig, ticks: Seq<(u64, Observation)>)
    requires
        forall|i: int, j: int|
            0 <= i <= j < ticks.len() ==> (#[trigger] ticks[i]).0 <= (#[trigger] ticks[j]).0,
    ensures
        forall|i: int, j: int|
            0 <= i <= j < spec_run(cfg, ticks).len() ==> (#[trigger] spec_run(cfg, ticks)[i]).elapsed_s
                <= (#[trigger] spec_run(cfg, ticks)[j]).elapsed_s,
{
    lemma_run_rows(cfg, ticks);
}

/// Under an ideal clock — the first observation at elapsed time zero, each
/// later one exactly the configured interval after the one before — the
/// first row starts at zero and consecutive rows differ by exactly the
/// interval.  Against the real clock the differences follow the observed
/// times the same way, jitter included.
pub proof fn lemma_row_spacing(cfg: RunConfig, ticks: Seq<(u64, Observation)>, interval_s: u64)
    requires
        ticks.len() > 0 ==> ticks[0].0 == 0,
        forall|i: int|
            0 <= i && i + 1 < ticks.len() ==> (#[trigger] ticks[i + 1]).0 == ticks[i].0
                + interval_s,
    ensures
        spec_run(cfg, ticks).len() > 0 ==> spec_run(cfg, ticks)[0].elapsed_s == 0,
        forall|i: int|
            1 <= i < spec_run(cfg, ticks).len() ==> (#[trigger] spec_run(cfg, ticks)[i]).elapsed_s
                == spec_run(cfg, ticks)[i - 1].elapsed_s + interval_s,
{
    lemma_run_rows(cfg, ticks);
    assert forall|i: int| 1 <= i < spec_run(cfg, ticks).len() implies (#[trigger] spec_run(
        cfg,
        ticks,
    )[i]).elapsed_s == spec_run(cfg, ticks)[i - 1].elapsed_s + interval_s by {
        assert(ticks[(i - 1) + 1].0 == ticks[i - 1].0 + interval_s);
    }
}

/// The termination policy: a run stops normally only when the configured
/// duration is strictly exceeded or the target is in a terminal lifecycle
/// state, and it aborts exactly when the target no longer resolves.
pub proof fn lemma_termination_policy(cfg: RunConfig, elapsed_s: u64, obs: Observation)
    ensures
        spec_next_action(cfg, elapsed_s, obs) == Action::Stop ==> (obs matches Observation::Alive {
            status,
            ..
        } && ((cfg.duration_s matches Some(d) && elapsed_s > d as u64) || is_terminal(status))),
        spec_next_action(cfg, elapsed_s, obs) is Abort <==> obs is Missing,
{
}

/// A run whose first observation already finds the target in a terminal
/// lifecycle state emits no sample at all.
pub proof fn lemma_terminal_at_first_check(cfg: RunConfig, ticks: Seq<(u64, Observation)>)
    requires
        ticks.len() > 0,
        ticks[0].1 matches Observation::Alive { status, .. } && is_terminal(status),
    ensures
        spec_run(cfg, ticks) == Seq::<Sample>::empty(),
{
}

/// The lines a whole run writes to the sink: the header determined by the
/// network flag, then the emitted samples in order, one CSV line each.
pub open spec fn spec_run_output(cfg: RunConfig, ticks: Seq<(u64, Observation)>) -> Seq<Seq<char>> {
    seq![spec_csv_line(spec_header_fields(cfg.network))] + spec_run(cfg, ticks).map_values(
        |s: Sample| spec_csv_line(spec_sample_fields(s, cfg.network)),
    )
}

/// A CSV line of a non-empty record starts with the first character of its
/// first field.
proof fn lemma_line_first_char(fields: Seq<Seq<char>>)
    requires
        fields.len() >= 1,
        fields[0].len() >= 1,
    ensures
        spec_csv_line(fields).len() >= 1,
        spec_csv_line(fields)[0] == fields[0][0],
{
}

/// Whatever a run observes, its output holds exactly one header line — the
/// first — and every other line differs from it: a sample line starts with
/// a digit of its elapsed time, the header with a letter.
pub proof fn lemma_exactly_one_header(cfg: RunConfig, ticks: Seq<(u64, Observation)>)
    ensures
        spec_run_output(cfg, ticks).len() == 1 + spec_run(cfg, ticks).len(),
        spec_run_output(cfg, ticks)[0] == spec_csv_line(spec_header_fields(cfg.network)),
        forall|i: int|
            1 <= i < spec_run_output(cfg, ticks).len() ==> #[trigger] spec_run_output(cfg, ticks)[i]
                != spec_run_output(cfg, ticks)[0],
{
    let out = spec_run_output(cfg, ticks);
    let rows = spec_run(cfg, ticks);
    reveal_strlit("Elapsed time");
    lemma_line_first_char(spec_header_fields(cfg.network));
    assert(out[0][0] == 'E');
    assert forall|i: int| 1 <= i < out.len() implies #[trigger] out[i] != out[0] by {
        let s = rows[i - 1];
        assert(out[i] == spec_csv_line(spec_sample_fields(s, cfg.network)));
        lemma_decimal_chars(s.elapsed_s as nat);
        lemma_line_first_char(spec_sample_fields(s, cfg.network));
        assert(out[i][0] == spec_decimal(s.elapsed_s as nat)[0]);
        assert(is_digit_char(out[i][0]));
        assert('E' as u32 == 69);
    }
}

} // verus!
