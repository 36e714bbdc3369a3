//! Process-level decisions: what a reader does after probing the lock,
//! what the loop does with a tick's failures, and the exit codes.

use vstd::prelude::*;

verus! {

/// What a reader does once it has probed the lock.
#[derive(Debug, Clone, Copy, PartialEq, Eq, Structural)]
pub enum ReaderPlan {
    /// No sampler runs: spawn one, wait about one period for first data,
    /// then claim the cache.
    SpawnThenFetch,
    /// A sampler already runs: claim the cache directly.
    FetchOnly,
}

/// The reader's decision: spawn exactly when the probe saw no sampler.
pub fn reader_plan(sampler_running: bool) -> (p: ReaderPlan)
    ensures
        p is SpawnThenFetch <==> !sampler_running,
{
    if sampler_running {
        ReaderPlan::FetchOnly
    } else {
        ReaderPlan::SpawnThenFetch
    }
}

/// What the sampling loop does after one tick.
#[derive(Debug, Clone, Copy, PartialEq, Eq, Structural)]
pub enum TickVerdict {
    /// Go on to the next tick; a failed counter read is retried then.
    KeepSampling,
    /// Exit the process with a non-zero status, releasing the lock, so a
    /// later reader can respawn a sampler.
    FatalExit,
}

/// Per-tick failure policy: a counter-read failure only skips the tick,
/// which is retried at the next deadline; a failed append of a tick that
/// was read is fatal to the loop.
pub fn tick_verdict(source_ok: bool, append_ok: bool) -> (v: TickVerdict)
    ensures
        v is FatalExit <==> (source_ok && !append_ok),
        v is KeepSampling <==> (!source_ok || append_ok),
{
    if source_ok && !append_ok {
        TickVerdict::FatalExit
    } else {
        TickVerdict::KeepSampling
    }
}

/// The ways an invocation can fail, each with its own exit code.
#[derive(Debug, Clone, Copy, PartialEq, Eq, Structural)]
pub enum FailureKind {
    /// The reader could not produce a report.
    ReportFailed,
    /// The sampling loop hit a fatal storage error.
    SamplerFatal,
    /// The invocation mode was not recognised.
    UnknownMode,
    /// The argument count was not recognised.
    BadArgCount,
}

/// The exit code of each failure, a compatibility surface: distinct and
/// non-zero for every kind.
pub open spec fn spec_exit_code(k: FailureKind) -> i32 {
    match k {
        FailureKind::ReportFailed => 1,
        FailureKind::SamplerFatal => 2,
        FailureKind::UnknownMode => 3,
        FailureKind::BadArgCount => 4,
    }
}

/// The process exit code for a failure.
pub fn exit_code(k: FailureKind) -> (c: i32)
    ensures
        c == spec_exit_code(k),
        c != 0,
{
    match k {
        FailureKind::ReportFailed => 1,
        FailureKind::SamplerFatal => 2,
        FailureKind::UnknownMode => 3,
        FailureKind::BadArgCount => 4,
    }
}

} // verus!
