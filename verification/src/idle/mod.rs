//! Deciding how often to sample from how long the user has been idle.
use vstd::prelude::*;

pub mod macos;

verus! {

/// How often, in seconds, the idle time is checked.
pub const IDLE_CHECK_INTERVAL_SECS: u64 = 20;

/// The sampling interval, in milliseconds, while the user is active.
pub const ACTIVE_SAMPLE_RATE_MS: u64 = 5_000;

/// The sampling interval, in milliseconds, for an idle time of `idle_ns`
/// nanoseconds (an unknown idle time counts as none): the longer the user has
/// been away, the less often the system is sampled.
pub open spec fn sample_rate_spec(idle_ns: Option<u64>) -> u64 {
    let ns = match idle_ns {
        Some(n) => n,
        None => 0,
    };
    if ns > 900_000_000_000 {
        1_800_000
    } else if ns > 300_000_000_000 {
        60_000
    } else if ns > 60_000_000_000 {
        30_000
    } else if ns > 30_000_000_000 {
        15_000
    } else {
        ACTIVE_SAMPLE_RATE_MS
    }
}

/// The sampling interval, in milliseconds, for an idle time of `idle_ns`
/// nanoseconds: more than 15 minutes idle gives 30 minutes, more than 5
/// minutes one minute, more than one minute 30 seconds, more than 30 seconds
/// 15 seconds, and otherwise 5 seconds.
pub fn sample_rate_for_idle(idle_ns: Option<u64>) -> (r: u64)
    ensures
        r == sample_rate_spec(idle_ns),
{
    let ns = match idle_ns {
        Some(n) => n,
        None => 0,
    };
    if ns > 900_000_000_000 {
        30 * 60 * 1000
    } else if ns > 300_000_000_000 {
        60_000
    } else if ns > 60_000_000_000 {
        30_000
    } else if ns > 30_000_000_000 {
        15_000
    } else {
        ACTIVE_SAMPLE_RATE_MS
    }
}

/// A longer idle time never gives a shorter sampling interval; an unknown
/// idle time gives the same interval as no idle time; and every interval is
/// one of the five steps.
pub proof fn lemma_sample_rate_monotone(a: u64, b: u64)
    ensures
        a <= b ==> sample_rate_spec(Some(a)) <= sample_rate_spec(Some(b)),
        sample_rate_spec(None) == sample_rate_spec(Some(0)),
        sample_rate_spec(None) == ACTIVE_SAMPLE_RATE_MS,
        ({
            let r = sample_rate_spec(Some(a));
            r == 5_000 || r == 15_000 || r == 30_000 || r == 60_000 || r == 1_800_000
        }),
{
}

/// The interval for each range of idle time, in seconds: up to 30 s it is
/// 5 s; above 30 s up to one minute, 15 s; above one minute up to five
/// minutes, 30 s; above five minutes up to fifteen minutes, one minute; and
/// above fifteen minutes, 30 minutes.
pub proof fn lemma_sample_rate_tiers(ns: u64)
    ensures
        ns <= 30 * 1_000_000_000 ==> sample_rate_spec(Some(ns)) == 5 * 1000,
        30 * 1_000_000_000 < ns <= 60 * 1_000_000_000 ==> sample_rate_spec(Some(ns)) == 15 * 1000,
        60 * 1_000_000_000 < ns <= 300 * 1_000_000_000 ==> sample_rate_spec(Some(ns)) == 30 * 1000,
        300 * 1_000_000_000 < ns <= 900 * 1_000_000_000 ==> sample_rate_spec(Some(ns)) == 60 * 1000,
        900 * 1_000_000_000 < ns ==> sample_rate_spec(Some(ns)) == 30 * 60 * 1000,
{
}

/// What the idle-detection loop learns each time one of its waits ends.
pub enum IdleEvent {
    /// The shutdown flag changed (or its sender went away).
    ShutdownChanged,
    /// The check interval elapsed and the idle time was read: `idle_ns`
    /// nanoseconds, or unknown.
    Tick { idle_ns: Option<u64> },
    /// The new sampling interval could not be published: nobody listens.
    RateRejected,
}

/// What the idle-detection loop does next.
#[derive(PartialEq, Eq, Structural, Debug, Clone, Copy)]
pub enum IdleAction {
    /// Leave the loop.
    Exit,
    /// Publish this sampling interval, in milliseconds, and keep going.
    Publish { rate_ms: u64 },
}

/// The action that the idle-detection loop takes on `event`.
pub open spec fn idle_action_spec(event: IdleEvent) -> IdleAction {
    match event {
        IdleEvent::ShutdownChanged => IdleAction::Exit,
        IdleEvent::Tick { idle_ns } => IdleAction::Publish { rate_ms: sample_rate_spec(idle_ns) },
        IdleEvent::RateRejected => IdleAction::Exit,
    }
}

/// Decides what the idle-detection loop does on `event`.
pub fn idle_step(event: IdleEvent) -> (a: IdleAction)
    ensures
        a == idle_action_spec(event),
{
    match event {
        IdleEvent::ShutdownChanged => IdleAction::Exit,
        IdleEvent::Tick { idle_ns } => IdleAction::Publish { rate_ms: sample_rate_for_idle(idle_ns) },
        IdleEvent::RateRejected => IdleAction::Exit,
    }
}

} // verus!
