use logomenu::lock::{
    lock_sessions, LockError, LockRun, LockStep, Opening, Phase, SessionClass, SessionEvent,
    SessionReport, SessionType,
};

fn session(class: SessionClass, kind: SessionType, lock_ok: bool) -> SessionReport {
    SessionReport { opening: Opening::Opened, class: Some(class), kind: Ok(kind), lock_ok }
}

#[test]
fn two_locks_succeed_and_one_fails_gives_success() {
    let reports = vec![
        session(SessionClass::User, SessionType::Wayland, true),
        session(SessionClass::User, SessionType::X11, false),
        session(SessionClass::User, SessionType::Wayland, true),
    ];
    assert_eq!(lock_sessions(&reports), Ok(()));
}

#[test]
fn one_lock_among_failures_is_enough_wherever_it_stands() {
    for good in 0..3 {
        let reports: Vec<SessionReport> = (0..3)
            .map(|i| session(SessionClass::User, SessionType::Wayland, i == good))
            .collect();
        assert_eq!(lock_sessions(&reports), Ok(()));
    }
}

#[test]
fn all_locks_fail_gives_a_descriptive_error() {
    let reports = vec![
        session(SessionClass::User, SessionType::Wayland, false),
        session(SessionClass::User, SessionType::X11, false),
    ];
    let result = lock_sessions(&reports);
    assert_eq!(result, Err(LockError::NoSessionLocked));
    assert_eq!(result.unwrap_err().message(), "locking session failed");
}

#[test]
fn no_eligible_session_gives_a_descriptive_error() {
    let reports = vec![
        session(SessionClass::User, SessionType::TTY, true),
        session(SessionClass::Greeter, SessionType::Wayland, true),
        session(SessionClass::LockScreen, SessionType::X11, true),
        session(SessionClass::Manager, SessionType::Unspecified, true),
        SessionReport {
            opening: Opening::Unreachable,
            class: Some(SessionClass::User),
            kind: Ok(SessionType::Wayland),
            lock_ok: true,
        },
        SessionReport {
            opening: Opening::Opened,
            class: None,
            kind: Ok(SessionType::Wayland),
            lock_ok: true,
        },
    ];
    let result = lock_sessions(&reports);
    assert_eq!(result, Err(LockError::NoSessionLocked));
    assert_eq!(result.unwrap_err().message(), "locking session failed");
}

#[test]
fn no_session_at_all_gives_the_same_error() {
    assert_eq!(lock_sessions(&Vec::new()), Err(LockError::NoSessionLocked));
}

#[test]
fn sessions_of_other_types_than_the_console_are_locked() {
    for kind in [SessionType::X11, SessionType::Wayland, SessionType::MIR, SessionType::Unspecified]
    {
        assert_eq!(lock_sessions(&vec![session(SessionClass::User, kind, true)]), Ok(()));
    }
}

#[test]
fn an_unreadable_type_after_a_lock_leaves_the_success() {
    let reports = vec![
        session(SessionClass::User, SessionType::Wayland, true),
        SessionReport {
            opening: Opening::Opened,
            class: Some(SessionClass::User),
            kind: Err("no reply".to_string()),
            lock_ok: true,
        },
    ];
    assert_eq!(lock_sessions(&reports), Ok(()));
}

#[test]
fn an_unreadable_type_does_not_keep_later_sessions_from_being_locked() {
    let reports = vec![
        SessionReport {
            opening: Opening::Opened,
            class: Some(SessionClass::User),
            kind: Err("no reply".to_string()),
            lock_ok: true,
        },
        session(SessionClass::User, SessionType::Wayland, true),
    ];
    assert_eq!(lock_sessions(&reports), Ok(()));
}

#[test]
fn a_session_of_unknown_type_is_not_locked() {
    let reports = vec![SessionReport {
        opening: Opening::Opened,
        class: Some(SessionClass::User),
        kind: Err("no reply".to_string()),
        lock_ok: true,
    }];
    assert_eq!(lock_sessions(&reports), Err(LockError::NoSessionLocked));
}

#[test]
fn an_unreadable_type_of_another_session_is_never_asked_for() {
    let reports = vec![
        SessionReport {
            opening: Opening::Opened,
            class: Some(SessionClass::Greeter),
            kind: Err("no reply".to_string()),
            lock_ok: true,
        },
        session(SessionClass::User, SessionType::Wayland, true),
    ];
    assert_eq!(lock_sessions(&reports), Ok(()));
}

#[test]
fn a_rejected_path_passes_the_session_over() {
    let rejected = || SessionReport {
        opening: Opening::PathRejected("bad path".to_string()),
        class: Some(SessionClass::User),
        kind: Ok(SessionType::Wayland),
        lock_ok: true,
    };
    assert_eq!(
        lock_sessions(&vec![session(SessionClass::User, SessionType::Wayland, true), rejected()]),
        Ok(())
    );
    assert_eq!(
        lock_sessions(&vec![rejected(), session(SessionClass::User, SessionType::X11, true)]),
        Ok(())
    );
    assert_eq!(lock_sessions(&vec![rejected()]), Err(LockError::NoSessionLocked));
}

#[test]
fn the_run_goes_on_after_what_fails_on_a_session() {
    let (mut run, _) = LockRun::start(3);
    assert_eq!(
        run.step(SessionEvent::Open(Opening::PathRejected("bad path".to_string()))),
        LockStep::Open(1)
    );
    run.step(SessionEvent::Open(Opening::Opened));
    run.step(SessionEvent::Class(Some(SessionClass::User)));
    assert_eq!(run.step(SessionEvent::Type(Err("no reply".to_string()))), LockStep::Open(2));
    run.step(SessionEvent::Open(Opening::Opened));
    run.step(SessionEvent::Class(Some(SessionClass::User)));
    assert_eq!(run.step(SessionEvent::Type(Ok(SessionType::X11))), LockStep::Lock(2));
    assert_eq!(run.step(SessionEvent::Locked(true)), LockStep::Done(Ok(())));
}

#[test]
fn an_error_before_the_sessions_are_known_has_the_bus_s_text() {
    assert_eq!(LockError::Bus("no system bus".to_string()).message(), "no system bus");
    assert_eq!(LockError::NoSessionLocked.message(), "locking session failed");
}

#[test]
fn the_run_asks_step_by_step() {
    let (mut run, step) = LockRun::start(2);
    assert_eq!(step, LockStep::Open(0));
    assert_eq!(run, LockRun { total: 2, index: 0, locked: false, phase: Phase::Opening });
    assert_eq!(run.step(SessionEvent::Open(Opening::Opened)), LockStep::ReadClass(0));
    assert_eq!(run.step(SessionEvent::Class(Some(SessionClass::User))), LockStep::ReadType(0));
    assert_eq!(run.step(SessionEvent::Type(Ok(SessionType::Wayland))), LockStep::Lock(0));
    assert_eq!(run.step(SessionEvent::Locked(true)), LockStep::Open(1));
    assert_eq!(run, LockRun { total: 2, index: 1, locked: true, phase: Phase::Opening });
    assert_eq!(run.step(SessionEvent::Open(Opening::Unreachable)), LockStep::Done(Ok(())));
    assert_eq!(run.phase, Phase::Finished);
}

#[test]
fn the_run_skips_what_it_does_not_lock() {
    let (mut run, _) = LockRun::start(3);
    run.step(SessionEvent::Open(Opening::Opened));
    assert_eq!(run.step(SessionEvent::Class(Some(SessionClass::Greeter))), LockStep::Open(1));
    run.step(SessionEvent::Open(Opening::Opened));
    assert_eq!(run.step(SessionEvent::Class(None)), LockStep::Open(2));
    run.step(SessionEvent::Open(Opening::Opened));
    run.step(SessionEvent::Class(Some(SessionClass::User)));
    assert_eq!(
        run.step(SessionEvent::Type(Ok(SessionType::TTY))),
        LockStep::Done(Err(LockError::NoSessionLocked))
    );
}

#[test]
fn the_run_without_sessions_is_over_at_once() {
    let (run, step) = LockRun::start(0);
    assert_eq!(step, LockStep::Done(Err(LockError::NoSessionLocked)));
    assert_eq!(run.phase, Phase::Finished);
}

#[test]
fn an_answer_out_of_turn_moves_nothing() {
    let (mut run, _) = LockRun::start(1);
    let before = run;
    assert_eq!(run.step(SessionEvent::Locked(true)), LockStep::Unexpected);
    assert_eq!(run.step(SessionEvent::Class(Some(SessionClass::User))), LockStep::Unexpected);
    assert_eq!(run, before);
    run.step(SessionEvent::Open(Opening::Unreachable));
    assert_eq!(run.step(SessionEvent::Open(Opening::Opened)), LockStep::Unexpected);
}
