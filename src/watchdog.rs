use vstd::prelude::*;

verus! {

/// Staleness threshold: the longest gap between heartbeats, in milliseconds.
pub const HEARTBEAT_THRESHOLD_MS: u64 = 20000;

/// Pause between terminating and relaunching the target, in milliseconds.
pub const RELAUNCH_DELAY_MS: u64 = 5000;

/// Where the watchdog stands in its cycle.
#[derive(Clone, Copy, Debug, PartialEq, Eq, Structural)]
pub enum Stage {
    /// Racing the staleness timer against incoming heartbeats.
    Racing,
    /// A stall was detected; waiting for the target to be terminated.
    Terminating,
    /// Waiting out the fixed delay after termination.
    Pausing,
    /// Waiting for the relaunch attempt to finish.
    Launching,
}

/// What happened since the last step. Timestamps are readings of a
/// monotonic clock, in milliseconds.
#[derive(Clone, Copy, Debug, PartialEq, Eq, Structural)]
pub enum Event {
    /// The staleness timer fired at time `now`.
    Tick { now: u64 },
    /// A heartbeat recorded at time `at` was received.
    Heartbeat { at: u64 },
    /// The termination attempt finished, successfully or not.
    Terminated { ok: bool },
    /// The post-termination delay has elapsed.
    Paused,
    /// The relaunch attempt finished, successfully or not.
    Launched { ok: bool },
}

/// What the driver of the watchdog must do next.
#[derive(Clone, Copy, Debug, PartialEq, Eq, Structural)]
pub enum Action {
    /// Wait for whichever comes first: a timer of `timeout_ms`, or a heartbeat.
    Race { timeout_ms: u64 },
    /// Terminate the target process.
    Terminate,
    /// Sleep for `ms` milliseconds, processing no heartbeats.
    Pause { ms: u64 },
    /// Launch a fresh target process.
    Launch,
}

/// The watchdog's state: the last heartbeat seen, the stage of its cycle,
/// and its two fixed durations.
#[derive(Clone, Copy, Debug, PartialEq, Eq, Structural)]
pub struct Watchdog {
    pub last_heartbeat: Option<u64>,
    pub stage: Stage,
    pub threshold_ms: u64,
    pub delay_ms: u64,
}

/// Age of a heartbeat taken at `last`, seen at `now`; a clock reading
/// earlier than `last` counts as no time at all.
pub open spec fn elapsed(last: u64, now: u64) -> int {
    if now >= last {
        now - last
    } else {
        0
    }
}

/// A heartbeat taken at `last` is stale at `now`.
pub open spec fn stale(last: u64, now: u64, threshold: u64) -> bool {
    elapsed(last, now) >= threshold
}

/// A tick at `now` starts a recovery episode from state `s`.
pub open spec fn triggers(s: Watchdog, now: u64) -> bool {
    s.stage == Stage::Racing && match s.last_heartbeat {
        Some(last) => stale(last, now, s.threshold_ms),
        None => false,
    }
}

/// The action that a stage waits on.
pub open spec fn stage_action(s: Watchdog) -> Action {
    match s.stage {
        Stage::Racing => Action::Race { timeout_ms: s.threshold_ms },
        Stage::Terminating => Action::Terminate,
        Stage::Pausing => Action::Pause { ms: s.delay_ms },
        Stage::Launching => Action::Launch,
    }
}

/// The state after event `e`. An event that the current stage does not
/// wait for leaves the state as it is.
pub open spec fn next_state(s: Watchdog, e: Event) -> Watchdog {
    match (s.stage, e) {
        (Stage::Racing, Event::Heartbeat { at }) => Watchdog { last_heartbeat: Some(at), ..s },
        (Stage::Racing, Event::Tick { now }) => if triggers(s, now) {
            Watchdog { stage: Stage::Terminating, ..s }
        } else {
            s
        },
        (Stage::Terminating, Event::Terminated { ok: _ }) => Watchdog { stage: Stage::Pausing, ..s },
        (Stage::Pausing, Event::Paused) => Watchdog { stage: Stage::Launching, ..s },
        (Stage::Launching, Event::Launched { ok: _ }) => Watchdog {
            last_heartbeat: None,
            stage: Stage::Racing,
            ..s
        },
        _ => s,
    }
}

/// The action after event `e`: the one that the new state waits on.
pub open spec fn next_action(s: Watchdog, e: Event) -> Action {
    stage_action(next_state(s, e))
}

impl Watchdog {
    /// A recovery episode is under way exactly when a heartbeat is on record.
    pub open spec fn wf(&self) -> bool {
        self.stage != Stage::Racing ==> self.last_heartbeat is Some
    }

    /// A watchdog that has seen no heartbeat yet.
    pub fn new(threshold_ms: u64, delay_ms: u64) -> (r: Watchdog)
        ensures
            r.last_heartbeat is None,
            r.stage == Stage::Racing,
            r.threshold_ms == threshold_ms,
            r.delay_ms == delay_ms,
            r.wf(),
    {
        Watchdog { last_heartbeat: None, stage: Stage::Racing, threshold_ms, delay_ms }
    }

    /// The action that the current stage waits on; the first one to perform.
    pub fn action(&self) -> (r: Action)
        ensures
            r == stage_action(*self),
    {
        match self.stage {
            Stage::Racing => Action::Race { timeout_ms: self.threshold_ms },
            Stage::Terminating => Action::Terminate,
            Stage::Pausing => Action::Pause { ms: self.delay_ms },
            Stage::Launching => Action::Launch,
        }
    }

    /// Whether a tick at `now` finds the last heartbeat stale.
    pub fn is_stale_at(&self, now: u64) -> (r: bool)
        ensures
            r == triggers(*self, now),
    {
        match (self.stage, self.last_heartbeat) {
            (Stage::Racing, Some(last)) => {
                let age: u64 = if now >= last {
                    now - last
                } else {
                    0
                };
                age >= self.threshold_ms
            },
            _ => false,
        }
    }

    /// Applies one event and returns the next action to perform.
    pub fn step(&mut self, e: Event) -> (r: Action)
        ensures
            *final(self) == next_state(*old(self), e),
            r == next_action(*old(self), e),
            old(self).wf() ==> final(self).wf(),
    {
        match (self.stage, e) {
            (Stage::Racing, Event::Heartbeat { at }) => {
                self.last_heartbeat = Some(at);
            },
            (Stage::Racing, Event::Tick { now }) => {
                if self.is_stale_at(now) {
                    self.stage = Stage::Terminating;
                }
            },
            (Stage::Terminating, Event::Terminated { ok: _ }) => {
                self.stage = Stage::Pausing;
            },
            (Stage::Pausing, Event::Paused) => {
                self.stage = Stage::Launching;
            },
            (Stage::Launching, Event::Launched { ok: _ }) => {
                self.last_heartbeat = None;
                self.stage = Stage::Racing;
            },
            _ => {},
        }
        self.action()
    }
}

} // verus!
