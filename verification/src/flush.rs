//! Flushing: what has to be done, and what came of it.

use vstd::prelude::*;

use crate::protocol::TelemetryError;

verus! {

/// What a flush request asks of the caller.
#[derive(Clone, Copy, Debug, PartialEq, Eq, Structural)]
pub enum FlushPlan {
    /// There is no provider, so there is nothing to drain.
    Skip,
    /// Drain the batch queue, however long it takes.
    DrainFully,
    /// Drain the batch queue and wait for that many milliseconds at most.
    DrainWithin(u64),
}

/// What happened when a flush plan was carried out.
#[derive(Debug)]
pub enum FlushEvent {
    /// Nothing had to be drained.
    Skipped,
    /// The queue was drained, or the drain failed with the reason given.
    Drained(Result<(), String>),
    /// The time was up before the queue was drained.
    DeadlinePassed,
}

/// The events that carrying out a plan can lead to.
pub open spec fn can_follow(plan: FlushPlan, event: FlushEvent) -> bool {
    match plan {
        FlushPlan::Skip => event is Skipped,
        FlushPlan::DrainFully => event is Drained,
        FlushPlan::DrainWithin(_) => event is Drained || event is DeadlinePassed,
    }
}

/// The plan for a flush with the given timeout; a timeout of zero is no deadline.
pub open spec fn flush_plan(has_provider: bool, timeout_ms: u64) -> FlushPlan {
    if !has_provider {
        FlushPlan::Skip
    } else if timeout_ms == 0 {
        FlushPlan::DrainFully
    } else {
        FlushPlan::DrainWithin(timeout_ms)
    }
}

/// Plans a flush.
pub fn plan_flush(has_provider: bool, timeout_ms: u64) -> (plan: FlushPlan)
    ensures
        plan == flush_plan(has_provider, timeout_ms),
{
    if !has_provider {
        FlushPlan::Skip
    } else if timeout_ms == 0 {
        FlushPlan::DrainFully
    } else {
        FlushPlan::DrainWithin(timeout_ms)
    }
}

/// The outcomes under which flushes are counted.
#[derive(Clone, Copy, Debug, PartialEq, Eq, Structural)]
pub enum FlushOutcome {
    NoProvider,
    Success,
    Error,
    Timeout,
}

impl FlushOutcome {
    /// The `outcome` label of the flush counter.
    pub open spec fn spec_label(self) -> Seq<char> {
        match self {
            FlushOutcome::NoProvider => "no_provider"@,
            FlushOutcome::Success => "success"@,
            FlushOutcome::Error => "error"@,
            FlushOutcome::Timeout => "timeout"@,
        }
    }

    /// The `outcome` label of the flush counter.
    pub fn label(&self) -> (label: &'static str)
        ensures
            label@ == self.spec_label(),
    {
        match self {
            FlushOutcome::NoProvider => "no_provider",
            FlushOutcome::Success => "success",
            FlushOutcome::Error => "error",
            FlushOutcome::Timeout => "timeout",
        }
    }

    /// Whether a flush with this outcome is timed: all are that had something to drain.
    pub fn is_timed(&self) -> (timed: bool)
        ensures
            timed == (*self != FlushOutcome::NoProvider),
    {
        match self {
            FlushOutcome::NoProvider => false,
            _ => true,
        }
    }
}

/// What a failed drain is reported with, ahead of the SDK's own words.
pub const DRAIN_FAILURE_PREFIX: &'static str = "force_flush failed: ";

/// The outcome of a flush.
pub open spec fn flush_outcome(event: FlushEvent) -> FlushOutcome {
    match event {
        FlushEvent::Skipped => FlushOutcome::NoProvider,
        FlushEvent::Drained(Ok(_)) => FlushOutcome::Success,
        FlushEvent::Drained(Err(_)) => FlushOutcome::Error,
        FlushEvent::DeadlinePassed => FlushOutcome::Timeout,
    }
}

/// `reply` is what the caller of a flush is told.
pub open spec fn is_flush_reply(event: FlushEvent, reply: Result<(), TelemetryError>) -> bool {
    match event {
        FlushEvent::Skipped => reply is Ok,
        FlushEvent::Drained(Ok(_)) => reply is Ok,
        FlushEvent::Drained(Err(reason)) => {
            &&& reply matches Err(TelemetryError::Backend { reason: told })
            &&& told@ == DRAIN_FAILURE_PREFIX@ + reason@
        },
        FlushEvent::DeadlinePassed => reply matches Err(TelemetryError::Timeout),
    }
}

/// Settles a flush: the outcome to count it under, and what its caller is told.
pub fn settle_flush(event: FlushEvent) -> (settled: (FlushOutcome, Result<(), TelemetryError>))
    ensures
        settled.0 == flush_outcome(event),
        is_flush_reply(event, settled.1),
{
    match event {
        FlushEvent::Skipped => (FlushOutcome::NoProvider, Ok(())),
        FlushEvent::Drained(Ok(_)) => (FlushOutcome::Success, Ok(())),
        FlushEvent::Drained(Err(cause)) => {
            let mut reason: String = DRAIN_FAILURE_PREFIX.to_owned();
            reason.append(cause.as_str());
            (FlushOutcome::Error, Err(TelemetryError::Backend { reason }))
        },
        FlushEvent::DeadlinePassed => (FlushOutcome::Timeout, Err(TelemetryError::Timeout)),
    }
}

/// The flush timeout for a duration of that many nanoseconds: its whole milliseconds, or as
/// many as fit, but never zero for a duration that is not.
pub open spec fn timeout_of(nanos: nat) -> nat {
    let millis = nanos / 1_000_000;
    if nanos == 0 {
        0
    } else if millis == 0 {
        1
    } else if millis <= u64::MAX {
        millis
    } else {
        u64::MAX as nat
    }
}

/// The flush timeout in milliseconds for a duration in nanoseconds. A duration below a
/// millisecond is a deadline too, so it is rounded up.
pub fn timeout_from_nanos(nanos: u128) -> (timeout_ms: u64)
    ensures
        timeout_ms == timeout_of(nanos as nat),
{
    let millis: u128 = nanos / 1_000_000;
    if nanos == 0 {
        0
    } else if millis == 0 {
        1
    } else if millis > 0xffff_ffff_ffff_ffff {
        u64::MAX
    } else {
        millis as u64
    }
}

/// A flush drains exactly if there is a provider, and waits for as long as its caller said, or
/// without end exactly if its caller set no deadline.
pub proof fn plan_follows_the_caller(has_provider: bool, timeout_ms: u64)
    ensures
        flush_plan(has_provider, timeout_ms) is Skip <==> !has_provider,
        flush_plan(has_provider, timeout_ms) is DrainFully <==> has_provider && timeout_ms == 0,
        flush_plan(has_provider, timeout_ms) matches FlushPlan::DrainWithin(deadline) ==> deadline
            == timeout_ms,
        has_provider && timeout_ms > 0 ==> flush_plan(has_provider, timeout_ms) is DrainWithin,
{
}

/// Each thing that can happen to a flush is counted as its own, and told as what it was: a
/// failed drain with the reason, a passed deadline as a timeout.
pub proof fn flush_is_told_as_it_went(event: FlushEvent, reply: Result<(), TelemetryError>)
    requires
        is_flush_reply(event, reply),
    ensures
        flush_outcome(event) is NoProvider <==> event is Skipped,
        flush_outcome(event) is Success <==> event matches FlushEvent::Drained(Ok(_)),
        flush_outcome(event) is Error <==> event matches FlushEvent::Drained(Err(_)),
        flush_outcome(event) is Timeout <==> event is DeadlinePassed,
        reply is Ok <==> event is Skipped || event matches FlushEvent::Drained(Ok(_)),
        reply matches Err(TelemetryError::Timeout) <==> event is DeadlinePassed,
        event matches FlushEvent::Drained(Err(cause)) ==> reply matches Err(
            TelemetryError::Backend { reason },
        ) && reason@ == "force_flush failed: "@ + cause@,
{
}

/// The timeout of a duration is its number of whole milliseconds where that fits: it is not
/// longer than the duration and less than a millisecond shorter. A duration below a millisecond
/// has the shortest deadline there is, only no time at all has none, and one that is too long
/// has the longest.
pub proof fn timeout_is_the_duration(nanos: nat)
    ensures
        timeout_of(nanos) <= u64::MAX,
        timeout_of(nanos) == 0 <==> nanos == 0,
        0 < nanos < 1_000_000 ==> timeout_of(nanos) == 1,
        1_000_000 <= nanos ==> timeout_of(nanos) * 1_000_000 <= nanos,
        1_000_000 <= nanos && timeout_of(nanos) < u64::MAX ==> nanos < (timeout_of(nanos) + 1)
            * 1_000_000,
        nanos / 1_000_000 >= u64::MAX ==> timeout_of(nanos) == u64::MAX,
{
}

/// A longer duration never has the shorter timeout.
pub proof fn timeout_grows_with_the_duration(shorter: nat, longer: nat)
    requires
        shorter <= longer,
    ensures
        timeout_of(shorter) <= timeout_of(longer),
{
}

/// Every number of whole milliseconds that fits is its own timeout.
pub proof fn whole_milliseconds_stay_exact(millis: u64)
    ensures
        timeout_of(millis as nat * 1_000_000) == millis,
{
}

/// Each flush outcome is counted under its own name.
pub proof fn flush_labels_name_the_outcome(outcome: FlushOutcome)
    ensures
        outcome is NoProvider ==> outcome.spec_label() == "no_provider"@,
        outcome is Success ==> outcome.spec_label() == "success"@,
        outcome is Error ==> outcome.spec_label() == "error"@,
        outcome is Timeout ==> outcome.spec_label() == "timeout"@,
{
}

/// Only a flush without a provider is skipped, and only one with a deadline can run past it.
pub proof fn only_a_deadline_can_pass(has_provider: bool, timeout_ms: u64, event: FlushEvent)
    ensures
        event is Skipped ==> (can_follow(flush_plan(has_provider, timeout_ms), event)
            <==> !has_provider),
        event is Drained ==> (can_follow(flush_plan(has_provider, timeout_ms), event)
            <==> has_provider),
        event is DeadlinePassed ==> (can_follow(flush_plan(has_provider, timeout_ms), event)
            <==> has_provider && timeout_ms > 0),
{
}

} // verus!
