use pty_sessions::{
    plan_session, settle, terminal_create, terminal_kill, terminal_resize, terminal_write,
    CreateFailure, IoStep, Platform, Pump, ReadOutcome, TerminalError, TerminalEvent,
    TerminalState,
};

/// A session that records what was written to it, in place of a pseudo-terminal.
#[derive(Debug, PartialEq)]
struct Recorded {
    written: Vec<u8>,
    size: (u16, u16),
}

#[test]
fn echo_session_from_create_to_exit() {
    let mut state: TerminalState<Recorded> = TerminalState::new();

    let plan = plan_session(Platform::Posix, None, 80, 24, None);
    assert_eq!((plan.size.cols, plan.size.rows), (80, 24));
    let opened: Result<Recorded, CreateFailure> =
        Ok(Recorded { written: vec![], size: (plan.size.cols, plan.size.rows) });
    let s1 = terminal_create(&mut state, plan, opened).unwrap();
    let mut pump = Pump::new(s1.clone());

    match terminal_write(&mut state, s1.clone(), "echo hi\n") {
        Ok((session, bytes)) => {
            session.written.extend_from_slice(bytes);
            assert_eq!(settle(IoStep::Write, Ok(())), Ok(()));
            assert_eq!(settle(IoStep::Flush, Ok(())), Ok(()));
        }
        Err(error) => panic!("{}", error.message()),
    }
    assert_eq!(state.get(&s1).unwrap().written, b"echo hi\n");

    let mut events: Vec<TerminalEvent> = Vec::new();
    for read in [&b"echo hi\r\n"[..], &b"hi\r\n"[..]] {
        events.extend(pump.on_read(ReadOutcome::Bytes(read)));
    }
    assert!(events.iter().any(|event| match event {
        TerminalEvent::Data { id, data } => *id == s1 && data.contains("hi"),
        TerminalEvent::Exit { .. } => false,
    }));

    let removed = terminal_kill(&mut state, s1.clone()).unwrap();
    assert_eq!(removed, Some(Recorded { written: b"echo hi\n".to_vec(), size: (80, 24) }));
    assert_eq!(settle(IoStep::Kill, Ok(())), Ok(()));

    events.clear();
    for read in [ReadOutcome::Bytes(&[]), ReadOutcome::Failed, ReadOutcome::Bytes(b"late")] {
        events.extend(pump.on_read(read));
    }
    assert_eq!(events, vec![TerminalEvent::Exit { id: s1.clone() }]);
    assert!(pump.is_finished());
    assert_eq!(
        terminal_write(&mut state, s1, "x").err(),
        Some(TerminalError::UnknownSession)
    );
}

#[test]
fn resize_of_an_unknown_session_publishes_nothing() {
    let state: TerminalState<Recorded> = TerminalState::new();
    let refused = terminal_resize(&state, "unknown".to_string(), 80, 24);
    assert_eq!(refused.err(), Some(TerminalError::UnknownSession));
    assert_eq!(state.len(), 0);
}

#[test]
fn resize_reaches_only_the_session_asked_for() {
    let mut state: TerminalState<Recorded> = TerminalState::new();
    let a = terminal_create(
        &mut state,
        plan_session(Platform::Posix, None, 80, 24, None),
        Ok(Recorded { written: vec![], size: (80, 24) }),
    )
    .unwrap();
    let b = terminal_create(
        &mut state,
        plan_session(Platform::Posix, None, 80, 24, None),
        Ok(Recorded { written: vec![], size: (80, 24) }),
    )
    .unwrap();
    let (session, size) = terminal_resize(&state, a.clone(), 100, 40).unwrap();
    assert_eq!(session.size, (80, 24));
    assert_eq!((size.cols, size.rows, size.pixel_width, size.pixel_height), (100, 40, 0, 0));
    match terminal_write(&mut state, b.clone(), "to b") {
        Ok((session, bytes)) => session.written.extend_from_slice(bytes),
        Err(error) => panic!("{}", error.message()),
    }
    assert!(state.get(&a).unwrap().written.is_empty());
    assert_eq!(state.get(&b).unwrap().written, b"to b");
}

#[test]
fn failed_write_stops_before_the_flush() {
    let mut state: TerminalState<Recorded> = TerminalState::new();
    let id = terminal_create(
        &mut state,
        plan_session(Platform::Posix, None, 80, 24, None),
        Ok(Recorded { written: vec![], size: (80, 24) }),
    )
    .unwrap();
    let mut flushed = false;
    let result = match terminal_write(&mut state, id, "x") {
        Ok((_, _)) => match settle(IoStep::Write, Err("input/output error".to_string())) {
            Ok(()) => {
                flushed = true;
                settle(IoStep::Flush, Ok(()))
            }
            Err(error) => Err(error),
        },
        Err(error) => Err(error),
    };
    assert_eq!(result, Err(TerminalError::Io("input/output error".to_string())));
    assert!(!flushed);
}
