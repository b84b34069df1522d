use hrome_hold::heartbeat::{ping_reply, Delivery, CHANNEL_CAPACITY};
use hrome_hold::launch::launch_report;
use hrome_hold::watchdog::{
    Action, Event, Stage, Watchdog, HEARTBEAT_THRESHOLD_MS, RELAUNCH_DELAY_MS,
};

const S: u64 = 1000;

fn fresh() -> Watchdog {
    Watchdog::new(20 * S, 5 * S)
}

fn race() -> Action {
    Action::Race { timeout_ms: 20 * S }
}

#[test]
fn default_durations() {
    assert_eq!(HEARTBEAT_THRESHOLD_MS, 20 * S);
    assert_eq!(RELAUNCH_DELAY_MS, 5 * S);
    assert_eq!(CHANNEL_CAPACITY, 32);
}

#[test]
fn new_watchdog_is_idle_and_races() {
    let w = fresh();
    assert_eq!(w.last_heartbeat, None);
    assert_eq!(w.stage, Stage::Racing);
    assert_eq!(w.action(), race());
}

#[test]
fn heartbeats_under_threshold_never_recover() {
    let mut w = fresh();
    for t in [0, 5, 10, 15, 19] {
        assert_eq!(w.step(Event::Heartbeat { at: t * S }), race());
        assert_eq!(w.step(Event::Tick { now: t * S + 999 }), race());
    }
    assert_eq!(w.step(Event::Tick { now: 19 * S }), race());
    assert_eq!(w.last_heartbeat, Some(19 * S));
    assert_eq!(w.stage, Stage::Racing);
}

#[test]
fn stall_runs_one_full_episode() {
    let mut w = fresh();
    assert_eq!(w.step(Event::Heartbeat { at: 0 }), race());
    assert_eq!(w.step(Event::Tick { now: 20 * S }), Action::Terminate);
    assert_eq!(w.step(Event::Terminated { ok: true }), Action::Pause { ms: 5 * S });
    assert_eq!(w.step(Event::Paused), Action::Launch);
    assert_eq!(w.step(Event::Launched { ok: true }), race());
    assert_eq!(w.last_heartbeat, None);
    assert_eq!(w.stage, Stage::Racing);
}

#[test]
fn late_heartbeat_suppresses_tick() {
    let mut w = fresh();
    w.step(Event::Heartbeat { at: 0 });
    w.step(Event::Heartbeat { at: 19 * S });
    assert_eq!(w.step(Event::Tick { now: 20 * S }), race());
    assert_eq!(w.step(Event::Tick { now: 38 * S }), race());
    assert_eq!(w.step(Event::Tick { now: 38 * S + 999 }), race());
    assert_eq!(w.step(Event::Tick { now: 39 * S }), Action::Terminate);
}

#[test]
fn repeated_failure_runs_well_formed_episodes() {
    let mut w = fresh();
    w.step(Event::Heartbeat { at: 0 });
    assert_eq!(w.step(Event::Tick { now: 20 * S }), Action::Terminate);
    assert_eq!(w.step(Event::Terminated { ok: false }), Action::Pause { ms: 5 * S });
    assert_eq!(w.step(Event::Paused), Action::Launch);
    assert_eq!(w.step(Event::Launched { ok: false }), race());
    assert_eq!(w.last_heartbeat, None);
    // With the state cleared, ticks have nothing to compare against.
    assert_eq!(w.step(Event::Tick { now: 45 * S }), race());
    assert_eq!(w.step(Event::Tick { now: 70 * S }), race());
    assert_eq!(w.stage, Stage::Racing);
    // A heartbeat re-arms the watchdog, and the next stall runs a new episode.
    w.step(Event::Heartbeat { at: 71 * S });
    assert_eq!(w.step(Event::Tick { now: 91 * S }), Action::Terminate);
    assert_eq!(w.step(Event::Terminated { ok: false }), Action::Pause { ms: 5 * S });
    assert_eq!(w.step(Event::Paused), Action::Launch);
    assert_eq!(w.step(Event::Launched { ok: false }), race());
}

#[test]
fn idle_tick_is_no_op() {
    let mut w = fresh();
    assert_eq!(w.step(Event::Tick { now: 20 * S }), race());
    assert_eq!(w.step(Event::Tick { now: 1000 * S }), race());
    assert_eq!(w, fresh());
}

#[test]
fn heartbeat_after_recovery_rearms_from_zero() {
    let mut w = fresh();
    w.step(Event::Heartbeat { at: 0 });
    w.step(Event::Tick { now: 20 * S });
    w.step(Event::Terminated { ok: true });
    w.step(Event::Paused);
    w.step(Event::Launched { ok: true });
    assert_eq!(w.step(Event::Heartbeat { at: 26 * S }), race());
    assert_eq!(w.last_heartbeat, Some(26 * S));
    assert_eq!(w.step(Event::Tick { now: 45 * S }), race());
    assert_eq!(w.step(Event::Tick { now: 46 * S }), Action::Terminate);
}

#[test]
fn events_outside_their_stage_are_ignored() {
    let mut w = fresh();
    w.step(Event::Heartbeat { at: 0 });
    assert_eq!(w.step(Event::Paused), race());
    assert_eq!(w.step(Event::Launched { ok: true }), race());
    assert_eq!(w.last_heartbeat, Some(0));
    assert_eq!(w.step(Event::Tick { now: 20 * S }), Action::Terminate);
    let before = w;
    assert_eq!(w.step(Event::Heartbeat { at: 21 * S }), Action::Terminate);
    assert_eq!(w.step(Event::Tick { now: 40 * S }), Action::Terminate);
    assert_eq!(w, before);
}

#[test]
fn clock_going_backwards_counts_as_fresh() {
    let mut w = fresh();
    w.step(Event::Heartbeat { at: 50 * S });
    assert_eq!(w.step(Event::Tick { now: 10 * S }), race());
    assert!(!w.is_stale_at(0));
    assert!(w.is_stale_at(70 * S));
}

#[test]
fn ping_always_answers_pong() {
    for d in [Delivery::Queued, Delivery::Dropped, Delivery::Closed] {
        let r = ping_reply(d);
        assert_eq!(r.status, 200);
        assert_eq!(r.body, "pong");
    }
}

#[test]
fn launch_report_decodes_gbk_output() {
    let out = vec![0xC4, 0xE3, 0xBA, 0xC3];
    let err = b"exit".to_vec();
    let r = launch_report(false, Some(1), &out, &err);
    assert!(!r.launched);
    assert_eq!(r.exit_code, Some(1));
    assert_eq!(r.stdout, "\u{4F60}\u{597D}");
    assert_eq!(r.stderr, "exit");
}

#[test]
fn launch_report_of_silent_launcher() {
    let r = launch_report(true, None, &Vec::new(), &Vec::new());
    assert!(r.launched);
    assert_eq!(r.exit_code, None);
    assert_eq!(r.stdout, "");
    assert_eq!(r.stderr, "");
}
