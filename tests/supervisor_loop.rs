use sunshine_watchdog::supervisor::BACKOFF_SECS;
use sunshine_watchdog::{Action, Event, FailureKind, Phase, Supervisor};

#[test]
fn nvfbc_failure_restarts_after_backoff() {
    let mut s = Supervisor::new();
    let acts = s.replay(&vec![
        Event::Tick { canceled: false },
        Event::Spawned { ok: true },
        Event::Failure(FailureKind::NvFBC),
        Event::Failure(FailureKind::Eof),
        Event::Killed,
        Event::Waited { ok: true },
        Event::Joined { canceled: false },
        Event::Tick { canceled: false },
    ]);
    assert_eq!(
        acts,
        vec![
            Action::Spawn,
            Action::StartProbes,
            Action::Kill,
            Action::Ignore,
            Action::Wait,
            Action::Join,
            Action::Sleep { secs: 5 },
            Action::Spawn
        ]
    );
    assert_eq!(s.phase(), Phase::Spawning);
    assert_eq!(BACKOFF_SECS, 5);
}

#[test]
fn web_portal_failure_restarts() {
    let mut s = Supervisor::new();
    let acts = s.replay(&vec![
        Event::Tick { canceled: false },
        Event::Spawned { ok: true },
        Event::Failure(FailureKind::WebPortal),
        Event::Killed,
        Event::Waited { ok: false },
        Event::Joined { canceled: false },
    ]);
    assert_eq!(
        acts,
        vec![Action::Spawn, Action::StartProbes, Action::Kill, Action::Wait, Action::Join, Action::Sleep { secs: 5 }]
    );
    assert_eq!(s.phase(), Phase::Backoff);
}

#[test]
fn cancel_during_probing_exits_cleanly() {
    let mut s = Supervisor::new();
    let acts = s.replay(&vec![
        Event::Tick { canceled: false },
        Event::Spawned { ok: true },
        Event::Canceled,
        Event::Killed,
        Event::Waited { ok: true },
        Event::Joined { canceled: true },
        Event::Tick { canceled: false },
    ]);
    assert_eq!(
        acts,
        vec![
            Action::Spawn,
            Action::StartProbes,
            Action::Kill,
            Action::Wait,
            Action::Join,
            Action::Exit { code: 0 },
            Action::Ignore
        ]
    );
    assert_eq!(s.phase(), Phase::Exited(0));
}

#[test]
fn spawn_failure_exits_nonzero() {
    let mut s = Supervisor::new();
    assert_eq!(s.step(Event::Tick { canceled: false }), Action::Spawn);
    assert_eq!(s.step(Event::Spawned { ok: false }), Action::Exit { code: 1 });
    assert_eq!(s.phase(), Phase::Exited(1));
    assert_eq!(s.step(Event::Tick { canceled: false }), Action::Ignore);
}

#[test]
fn canceled_before_start_spawns_nothing() {
    let mut s = Supervisor::new();
    assert_eq!(s.step(Event::Tick { canceled: true }), Action::Exit { code: 0 });
}

#[test]
fn canceled_during_backoff_skips_next_attempt() {
    let mut s = Supervisor::new();
    s.replay(&vec![
        Event::Tick { canceled: false },
        Event::Spawned { ok: true },
        Event::Failure(FailureKind::Eof),
        Event::Killed,
        Event::Waited { ok: true },
        Event::Joined { canceled: false },
    ]);
    assert_eq!(s.step(Event::Tick { canceled: true }), Action::Exit { code: 0 });
}

#[test]
fn out_of_phase_events_are_ignored() {
    let mut s = Supervisor::new();
    assert_eq!(s.step(Event::Killed), Action::Ignore);
    assert_eq!(s.step(Event::Failure(FailureKind::NvFBC)), Action::Ignore);
    assert_eq!(s.phase(), Phase::Idle);
}
