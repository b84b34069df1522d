use vstd::prelude::*;
use crate::watchdog::{elapsed, next_action, next_state, stale, triggers, Action, Event, Stage, Watchdog};

verus! {

/// The state after a whole sequence of events, applied in order.
pub open spec fn run(s: Watchdog, evs: Seq<Event>) -> Watchdog
    decreases evs.len(),
{
    if evs.len() == 0 {
        s
    } else {
        next_state(run(s, evs.drop_last()), evs.last())
    }
}

/// Event `e` starts a recovery episode from state `s`.
pub open spec fn starts_recovery(s: Watchdog, e: Event) -> bool {
    s.stage == Stage::Racing && next_state(s, e).stage == Stage::Terminating
}

/// The number of recovery episodes started while applying `evs` to `s`.
pub open spec fn recoveries(s: Watchdog, evs: Seq<Event>) -> nat
    decreases evs.len(),
{
    if evs.len() == 0 {
        0
    } else {
        recoveries(s, evs.drop_last()) + if starts_recovery(run(s, evs.drop_last()), evs.last()) {
            1nat
        } else {
            0nat
        }
    }
}

/// The timestamp of the latest heartbeat in `evs`, or `start` if it holds none.
pub open spec fn latest_beat(start: Option<u64>, evs: Seq<Event>) -> Option<u64>
    decreases evs.len(),
{
    if evs.len() == 0 {
        start
    } else {
        match evs.last() {
            Event::Heartbeat { at } => Some(at),
            _ => latest_beat(start, evs.drop_last()),
        }
    }
}

/// A tick at index `i` of `evs` comes while the latest heartbeat before it is
/// still fresh (or while no heartbeat is on record at all).
pub open spec fn fresh_tick(start: Option<u64>, evs: Seq<Event>, i: int, threshold: u64) -> bool {
    match evs[i] {
        Event::Tick { now } => match latest_beat(start, evs.take(i)) {
            Some(last) => !stale(last, now, threshold),
            None => true,
        },
        _ => true,
    }
}

/// A tick at index `i` of `evs` finds the heartbeat taken at `last` stale.
pub open spec fn stale_tick(evs: Seq<Event>, i: int, last: u64, threshold: u64) -> bool {
    match evs[i] {
        Event::Tick { now } => stale(last, now, threshold),
        _ => false,
    }
}

/// Heartbeats that keep coming before the threshold elapses keep the target
/// alive: while every tick finds the latest heartbeat fresh, no recovery
/// episode starts, and the watchdog keeps racing with that heartbeat on
/// record.
pub proof fn lemma_fresh_heartbeats_never_recover(s: Watchdog, evs: Seq<Event>)
    requires
        s.stage == Stage::Racing,
        forall|i: int| 0 <= i < evs.len() ==> (evs[i] is Tick || evs[i] is Heartbeat),
        forall|i: int| 0 <= i < evs.len() ==> fresh_tick(s.last_heartbeat, evs, i, s.threshold_ms),
    ensures
        recoveries(s, evs) == 0,
        run(s, evs).stage == Stage::Racing,
        run(s, evs).last_heartbeat == latest_beat(s.last_heartbeat, evs),
        run(s, evs).threshold_ms == s.threshold_ms,
    decreases evs.len(),
{
    if evs.len() > 0 {
        let pre = evs.drop_last();
        let n = evs.len() - 1;
        assert forall|i: int| 0 <= i < pre.len() implies (pre[i] is Tick || pre[i] is Heartbeat)
            && fresh_tick(s.last_heartbeat, pre, i, s.threshold_ms) by {
            assert(pre[i] == evs[i]);
            assert(pre.take(i) =~= evs.take(i));
            assert(fresh_tick(s.last_heartbeat, evs, i, s.threshold_ms));
        }
        lemma_fresh_heartbeats_never_recover(s, pre);
        assert(evs.take(n) =~= pre);
        assert(fresh_tick(s.last_heartbeat, evs, n, s.threshold_ms));
        assert(evs[n] is Tick || evs[n] is Heartbeat);
    }
}

/// The clock reading that a tick or a heartbeat carries.
pub open spec fn time_of(e: Event) -> u64 {
    match e {
        Event::Tick { now } => now,
        Event::Heartbeat { at } => at,
        _ => 0,
    }
}

/// The events of `evs` carry non-decreasing clock readings.
pub open spec fn time_ordered(evs: Seq<Event>) -> bool {
    forall|i: int, j: int| 0 <= i <= j < evs.len() ==> time_of(evs[i]) <= time_of(evs[j])
}

/// The heartbeat at index `i` of `evs`, if it is one, comes less than the
/// threshold after the heartbeat before it (the one on record, `start`, for
/// the first).
pub open spec fn spaced_beat(start: Option<u64>, evs: Seq<Event>, i: int, threshold: u64) -> bool {
    match evs[i] {
        Event::Heartbeat { at } => match latest_beat(start, evs.take(i)) {
            Some(prev) => elapsed(prev, at) < threshold,
            None => true,
        },
        _ => true,
    }
}

/// For all heartbeats spaced strictly less than the threshold apart, with
/// ticks coming in between, no recovery episode starts: liveness is kept
/// however long the heartbeats go on.
pub proof fn lemma_spaced_heartbeats_never_recover(s: Watchdog, evs: Seq<Event>)
    requires
        s.stage == Stage::Racing,
        forall|i: int| 0 <= i < evs.len() ==> (evs[i] is Tick || evs[i] is Heartbeat),
        time_ordered(evs),
        evs.len() > 0,
        evs.last() is Heartbeat,
        forall|i: int| 0 <= i < evs.len() ==> spaced_beat(s.last_heartbeat, evs, i, s.threshold_ms),
    ensures
        recoveries(s, evs) == 0,
        run(s, evs).stage == Stage::Racing,
        run(s, evs).last_heartbeat == Some(time_of(evs.last())),
{
    assert forall|i: int| 0 <= i < evs.len() implies fresh_tick(
        s.last_heartbeat,
        evs,
        i,
        s.threshold_ms,
    ) by {
        if evs[i] is Tick {
            let j = lemma_next_beat(s.last_heartbeat, evs, i);
            assert(spaced_beat(s.last_heartbeat, evs, j, s.threshold_ms));
            assert(time_of(evs[i]) <= time_of(evs[j]));
        }
    }
    lemma_fresh_heartbeats_never_recover(s, evs);
}

/// The first heartbeat at or after index `i`, in a sequence that ends with
/// one; no heartbeat lies between, so the latest one before it is unchanged.
proof fn lemma_next_beat(start: Option<u64>, evs: Seq<Event>, i: int) -> (j: int)
    requires
        0 <= i < evs.len(),
        evs.last() is Heartbeat,
    ensures
        i <= j < evs.len(),
        evs[j] is Heartbeat,
        latest_beat(start, evs.take(j)) == latest_beat(start, evs.take(i)),
    decreases evs.len() - i,
{
    if evs[i] is Heartbeat {
        i
    } else {
        assert(evs.take(i + 1).drop_last() =~= evs.take(i));
        assert(evs.take(i + 1).last() == evs[i]);
        lemma_next_beat(start, evs, i + 1)
    }
}

/// Once no heartbeat arrives after the one on record, at most one recovery
/// episode starts, and one starts exactly when some tick finds that heartbeat
/// stale; after the episode's launch the watchdog is idle.
pub proof fn lemma_stall_recovers_once(s: Watchdog, evs: Seq<Event>)
    requires
        s.stage == Stage::Racing,
        s.last_heartbeat is Some,
        forall|i: int| 0 <= i < evs.len() ==> !(evs[i] is Heartbeat),
    ensures
        recoveries(s, evs) <= 1,
        recoveries(s, evs) == 1 <==> exists|i: int|
            0 <= i < evs.len() && stale_tick(evs, i, s.last_heartbeat.unwrap(), s.threshold_ms),
{
    lemma_stall_phases(s, evs);
}

proof fn lemma_stall_phases(s: Watchdog, evs: Seq<Event>)
    requires
        s.stage == Stage::Racing,
        s.last_heartbeat is Some,
        forall|i: int| 0 <= i < evs.len() ==> !(evs[i] is Heartbeat),
    ensures
        ({
            let t = s.last_heartbeat.unwrap();
            let r = run(s, evs);
            let fired = exists|i: int| 0 <= i < evs.len() && stale_tick(evs, i, t, s.threshold_ms);
            &&& r.threshold_ms == s.threshold_ms
            &&& fired ==> recoveries(s, evs) == 1 && (r.stage == Stage::Racing ==> r.last_heartbeat
                is None) && (r.stage != Stage::Racing ==> r.last_heartbeat == Some(t))
            &&& !fired ==> recoveries(s, evs) == 0 && r == s
        }),
    decreases evs.len(),
{
    if evs.len() > 0 {
        let t = s.last_heartbeat.unwrap();
        let pre = evs.drop_last();
        let n = evs.len() - 1;
        assert forall|i: int| 0 <= i < pre.len() implies !(pre[i] is Heartbeat) by {
            assert(pre[i] == evs[i]);
        }
        lemma_stall_phases(s, pre);
        let fired_pre = exists|i: int| 0 <= i < pre.len() && stale_tick(pre, i, t, s.threshold_ms);
        if fired_pre {
            let i = choose|i: int| 0 <= i < pre.len() && stale_tick(pre, i, t, s.threshold_ms);
            assert(pre[i] == evs[i]);
            assert(0 <= i < evs.len() && stale_tick(evs, i, t, s.threshold_ms));
        } else {
            if stale_tick(evs, n, t, s.threshold_ms) {
                assert(0 <= n < evs.len() && stale_tick(evs, n, t, s.threshold_ms));
            } else {
                assert forall|i: int| 0 <= i < evs.len() implies !stale_tick(evs, i, t, s.threshold_ms) by {
                    if i < n {
                        assert(pre[i] == evs[i]);
                        assert(!stale_tick(pre, i, t, s.threshold_ms));
                    }
                }
            }
        }
    }
}

/// An idle watchdog stays idle: with no heartbeat on record and none
/// arriving, ticks start no recovery episode.
pub proof fn lemma_idle_never_recovers(s: Watchdog, evs: Seq<Event>)
    requires
        s.stage == Stage::Racing,
        s.last_heartbeat is None,
        forall|i: int| 0 <= i < evs.len() ==> !(evs[i] is Heartbeat),
    ensures
        recoveries(s, evs) == 0,
        run(s, evs) == s,
    decreases evs.len(),
{
    if evs.len() > 0 {
        let pre = evs.drop_last();
        assert forall|i: int| 0 <= i < pre.len() implies !(pre[i] is Heartbeat) by {
            assert(pre[i] == evs[i]);
        }
        lemma_idle_never_recovers(s, pre);
    }
}

/// A completed recovery episode clears the heartbeat on record, and a
/// heartbeat right after it re-arms the threshold from that heartbeat: a later
/// tick starts a new episode exactly when that heartbeat is stale.
pub proof fn lemma_recovery_resets(s: Watchdog, ok: bool, at: u64, now: u64)
    requires
        s.stage == Stage::Launching,
    ensures
        ({
            let done = next_state(s, Event::Launched { ok });
            let armed = next_state(done, Event::Heartbeat { at });
            &&& done.last_heartbeat is None
            &&& done.stage == Stage::Racing
            &&& next_action(s, Event::Launched { ok }) == (Action::Race { timeout_ms: s.threshold_ms })
            &&& armed.last_heartbeat == Some(at)
            &&& (starts_recovery(armed, Event::Tick { now }) <==> elapsed(at, now) >= s.threshold_ms)
        }),
{
}

/// Every recovery episode is well formed, whether termination and launch
/// succeed or fail: a stale tick asks for termination, then the fixed pause,
/// then the launch, and the watchdog then races again with nothing on record.
pub proof fn lemma_episode_shape(s: Watchdog, now: u64, terminated: bool, launched: bool)
    requires
        triggers(s, now),
    ensures
        ({
            let s1 = next_state(s, Event::Tick { now });
            let s2 = next_state(s1, Event::Terminated { ok: terminated });
            let s3 = next_state(s2, Event::Paused);
            let s4 = next_state(s3, Event::Launched { ok: launched });
            &&& starts_recovery(s, Event::Tick { now })
            &&& next_action(s, Event::Tick { now }) == Action::Terminate
            &&& next_action(s1, Event::Terminated { ok: terminated }) == (Action::Pause {
                ms: s.delay_ms,
            })
            &&& next_action(s2, Event::Paused) == Action::Launch
            &&& next_action(s3, Event::Launched { ok: launched }) == (Action::Race {
                timeout_ms: s.threshold_ms,
            })
            &&& s4 == (Watchdog { last_heartbeat: None, ..s })
        }),
{
}

/// A heartbeat received before the tick that races it suppresses that tick's
/// recovery whenever it is younger than the threshold: the elapsed time since
/// the heartbeat decides, not the firing of the timer.
pub proof fn lemma_heartbeat_suppresses_tick(s: Watchdog, at: u64, now: u64)
    requires
        s.stage == Stage::Racing,
        !stale(at, now, s.threshold_ms),
    ensures
        ({
            let armed = next_state(s, Event::Heartbeat { at });
            &&& !triggers(armed, now)
            &&& next_state(armed, Event::Tick { now }) == armed
            &&& next_action(armed, Event::Tick { now }) == (Action::Race { timeout_ms: s.threshold_ms })
        }),
{
}

} // verus!
