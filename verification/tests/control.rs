use pty_sessions::{
    plan_session, plan_session_as, pty_size, settle, terminal_create, terminal_kill,
    terminal_resize, terminal_write, CreateFailure, CreateStep, IoStep, Platform, PtySize,
    SessionPlan, ShellCommand, TerminalError, TerminalState,
};

fn plan(id: &str) -> SessionPlan {
    plan_session_as(id.to_string(), Platform::Posix, None, 80, 24, None)
}

fn failure(step: CreateStep, message: &str) -> CreateFailure {
    CreateFailure { step, message: message.to_string() }
}

fn is_lower_hex(c: char) -> bool {
    c.is_ascii_digit() || ('a'..='f').contains(&c)
}

#[test]
fn pty_size_zeroes_the_pixels() {
    assert_eq!(pty_size(80, 24), PtySize { rows: 24, cols: 80, pixel_width: 0, pixel_height: 0 });
    assert_eq!(pty_size(0, 0), PtySize { rows: 0, cols: 0, pixel_width: 0, pixel_height: 0 });
    assert_eq!(
        pty_size(65535, 1),
        PtySize { rows: 1, cols: 65535, pixel_width: 0, pixel_height: 0 }
    );
}

#[test]
fn plan_holds_identifier_size_and_command() {
    let plan = plan_session_as(
        "s1".to_string(),
        Platform::Posix,
        Some("/bin/zsh".to_string()),
        120,
        40,
        Some("/tmp".to_string()),
    );
    assert_eq!(
        plan,
        SessionPlan {
            id: "s1".to_string(),
            size: PtySize { rows: 40, cols: 120, pixel_width: 0, pixel_height: 0 },
            command: ShellCommand {
                program: "/bin/zsh".to_string(),
                args: vec![],
                cwd: Some("/tmp".to_string()),
            },
        }
    );
}

#[test]
fn plan_without_cwd_leaves_the_directory_open() {
    let plan = plan_session_as("s1".to_string(), Platform::Windows, None, 80, 24, None);
    assert_eq!(plan.command.program, "powershell.exe");
    assert_eq!(plan.command.args, vec!["-NoLogo".to_string()]);
    assert_eq!(plan.command.cwd, None);
}

#[test]
fn drawn_identifier_is_a_hyphenated_random_uuid() {
    let plan = plan_session(Platform::Posix, None, 80, 24, None);
    let id: Vec<char> = plan.id.chars().collect();
    assert_eq!(id.len(), 36);
    for (i, c) in id.iter().enumerate() {
        if i == 8 || i == 13 || i == 18 || i == 23 {
            assert_eq!(*c, '-');
        } else {
            assert!(is_lower_hex(*c));
        }
    }
    assert_eq!(id[14], '4');
    assert!(matches!(id[19], '8' | '9' | 'a' | 'b'));
    assert_eq!(plan.size, PtySize { rows: 24, cols: 80, pixel_width: 0, pixel_height: 0 });
    assert_eq!(plan.command.program, "/bin/bash");
}

#[test]
fn drawn_identifiers_differ() {
    let first = plan_session(Platform::Posix, None, 80, 24, None);
    let second = plan_session(Platform::Posix, None, 80, 24, None);
    assert_ne!(first.id, second.id);
}

#[test]
fn create_registers_the_session_and_returns_its_identifier() {
    let mut state: TerminalState<u32> = TerminalState::new();
    assert_eq!(terminal_create(&mut state, plan("s1"), Ok(7)), Ok("s1".to_string()));
    assert_eq!(state.len(), 1);
    assert_eq!(state.get(&"s1".to_string()), Some(&7));
}

#[test]
fn create_reports_a_failed_allocation() {
    let mut state: TerminalState<u32> = TerminalState::new();
    let created = terminal_create(&mut state, plan("s1"), Err(failure(CreateStep::OpenPty, "no pty")));
    assert_eq!(created, Err(TerminalError::Allocation("no pty".to_string())));
    assert!(state.is_empty());
}

#[test]
fn create_reports_a_failed_spawn() {
    let mut state: TerminalState<u32> = TerminalState::new();
    let created = terminal_create(&mut state, plan("s1"), Err(failure(CreateStep::Spawn, "no shell")));
    assert_eq!(created, Err(TerminalError::Spawn("no shell".to_string())));
    assert!(state.is_empty());
}

#[test]
fn create_reports_a_failed_handle() {
    let mut state: TerminalState<u32> = TerminalState::new();
    state.insert("s0".to_string(), 1);
    let created =
        terminal_create(&mut state, plan("s1"), Err(failure(CreateStep::CloneReader, "no reader")));
    assert_eq!(created, Err(TerminalError::Handle("no reader".to_string())));
    let created =
        terminal_create(&mut state, plan("s1"), Err(failure(CreateStep::TakeWriter, "no writer")));
    assert_eq!(created, Err(TerminalError::Handle("no writer".to_string())));
    assert_eq!(state.len(), 1);
    assert_eq!(state.get(&"s0".to_string()), Some(&1));
    assert_eq!(state.get(&"s1".to_string()), None);
}

#[test]
fn write_gives_the_session_and_the_payload_bytes() {
    let mut state: TerminalState<Vec<u8>> = TerminalState::new();
    terminal_create(&mut state, plan("s1"), Ok(vec![])).unwrap();
    match terminal_write(&mut state, "s1".to_string(), "echo hi\n") {
        Ok((session, bytes)) => {
            assert_eq!(bytes, b"echo hi\n");
            session.extend_from_slice(bytes);
        }
        Err(error) => panic!("{}", error.message()),
    }
    assert_eq!(state.get(&"s1".to_string()), Some(&b"echo hi\n".to_vec()));
}

#[test]
fn write_encodes_the_payload_as_utf8() {
    let mut state: TerminalState<u32> = TerminalState::new();
    terminal_create(&mut state, plan("s1"), Ok(0)).unwrap();
    match terminal_write(&mut state, "s1".to_string(), "é€") {
        Ok((_, bytes)) => assert_eq!(bytes, [0xc3, 0xa9, 0xe2, 0x82, 0xac]),
        Err(error) => panic!("{}", error.message()),
    }
    match terminal_write(&mut state, "s1".to_string(), "") {
        Ok((_, bytes)) => assert!(bytes.is_empty()),
        Err(error) => panic!("{}", error.message()),
    }
}

#[test]
fn write_to_an_unknown_identifier_fails() {
    let mut state: TerminalState<u32> = TerminalState::new();
    terminal_create(&mut state, plan("s1"), Ok(0)).unwrap();
    let begun = terminal_write(&mut state, "s2".to_string(), "x");
    assert_eq!(begun.err(), Some(TerminalError::UnknownSession));
    assert_eq!(state.len(), 1);
    assert_eq!(state.get(&"s1".to_string()), Some(&0));
}

#[test]
fn resize_gives_the_session_and_the_size() {
    let mut state: TerminalState<u32> = TerminalState::new();
    terminal_create(&mut state, plan("s1"), Ok(3)).unwrap();
    let begun = terminal_resize(&state, "s1".to_string(), 132, 50);
    assert_eq!(
        begun,
        Ok((&3, PtySize { rows: 50, cols: 132, pixel_width: 0, pixel_height: 0 }))
    );
}

#[test]
fn resize_unknown_fails_with_unknown_session() {
    let state: TerminalState<u32> = TerminalState::new();
    let begun = terminal_resize(&state, "unknown".to_string(), 80, 24);
    assert_eq!(begun, Err(TerminalError::UnknownSession));
    assert_eq!(TerminalError::UnknownSession.message(), "unknown terminal id");
    assert!(state.is_empty());
}

#[test]
fn kill_removes_the_session_and_hands_it_back() {
    let mut state: TerminalState<u32> = TerminalState::new();
    terminal_create(&mut state, plan("s1"), Ok(3)).unwrap();
    terminal_create(&mut state, plan("s2"), Ok(4)).unwrap();
    assert_eq!(terminal_kill(&mut state, "s1".to_string()), Ok(Some(3)));
    assert_eq!(state.len(), 1);
    assert_eq!(state.get(&"s2".to_string()), Some(&4));
}

#[test]
fn kill_twice_succeeds_both_times() {
    let mut state: TerminalState<u32> = TerminalState::new();
    terminal_create(&mut state, plan("s1"), Ok(3)).unwrap();
    assert_eq!(terminal_kill(&mut state, "s1".to_string()), Ok(Some(3)));
    assert_eq!(terminal_kill(&mut state, "s1".to_string()), Ok(None));
    assert!(state.is_empty());
}

#[test]
fn kill_of_an_unknown_identifier_is_a_silent_success() {
    let mut state: TerminalState<u32> = TerminalState::new();
    terminal_create(&mut state, plan("s1"), Ok(3)).unwrap();
    assert_eq!(terminal_kill(&mut state, "nobody".to_string()), Ok(None));
    assert_eq!(state.len(), 1);
}

#[test]
fn write_and_resize_after_kill_fail_with_unknown_session() {
    let mut state: TerminalState<u32> = TerminalState::new();
    terminal_create(&mut state, plan("s1"), Ok(3)).unwrap();
    terminal_kill(&mut state, "s1".to_string()).unwrap();
    assert_eq!(
        terminal_write(&mut state, "s1".to_string(), "x").err(),
        Some(TerminalError::UnknownSession)
    );
    assert_eq!(
        terminal_resize(&state, "s1".to_string(), 80, 24).err(),
        Some(TerminalError::UnknownSession)
    );
}

#[test]
fn created_session_is_found_by_every_operation() {
    let mut state: TerminalState<u32> = TerminalState::new();
    let plan = plan_session(Platform::Posix, None, 80, 24, None);
    let id = terminal_create(&mut state, plan, Ok(11)).unwrap();
    assert!(terminal_write(&mut state, id.clone(), "ls\n").is_ok());
    assert!(terminal_resize(&state, id.clone(), 100, 30).is_ok());
    assert_eq!(terminal_kill(&mut state, id), Ok(Some(11)));
}

#[test]
fn sessions_created_side_by_side_are_all_live() {
    let mut state: TerminalState<usize> = TerminalState::new();
    let mut ids: Vec<String> = Vec::new();
    for n in 0..16 {
        let plan = plan_session(Platform::Posix, None, 80, 24, None);
        ids.push(terminal_create(&mut state, plan, Ok(n)).unwrap());
    }
    assert_eq!(state.len(), 16);
    for (n, id) in ids.iter().enumerate() {
        assert_eq!(state.get(id), Some(&n));
        for other in ids.iter().skip(n + 1) {
            assert_ne!(id, other);
        }
    }
    assert_eq!(terminal_kill(&mut state, ids[5].clone()), Ok(Some(5)));
    assert_eq!(state.len(), 15);
    assert_eq!(state.get(&ids[4]), Some(&4));
    assert_eq!(state.get(&ids[6]), Some(&6));
}

#[test]
fn create_under_a_live_identifier_replaces_the_session() {
    let mut state: TerminalState<u32> = TerminalState::new();
    terminal_create(&mut state, plan("s1"), Ok(1)).unwrap();
    assert_eq!(terminal_create(&mut state, plan("s1"), Ok(2)), Ok("s1".to_string()));
    assert_eq!(state.len(), 1);
    assert_eq!(state.get(&"s1".to_string()), Some(&2));
}

#[test]
fn failed_write_is_reported_with_the_system_message() {
    let result = settle(IoStep::Write, Err("broken pipe".to_string()));
    assert_eq!(result, Err(TerminalError::Io("broken pipe".to_string())));
    assert_eq!(result.unwrap_err().message(), "broken pipe");
}

#[test]
fn failed_resize_is_reported_with_the_system_message() {
    let result = settle(IoStep::Resize, Err("bad descriptor".to_string()));
    assert_eq!(result, Err(TerminalError::Io("bad descriptor".to_string())));
}

#[test]
fn failed_flush_and_kill_are_passed_over() {
    assert_eq!(settle(IoStep::Flush, Err("broken pipe".to_string())), Ok(()));
    assert_eq!(settle(IoStep::Kill, Err("no such process".to_string())), Ok(()));
}

#[test]
fn success_settles_as_success() {
    assert_eq!(settle(IoStep::Write, Ok(())), Ok(()));
    assert_eq!(settle(IoStep::Flush, Ok(())), Ok(()));
    assert_eq!(settle(IoStep::Resize, Ok(())), Ok(()));
    assert_eq!(settle(IoStep::Kill, Ok(())), Ok(()));
}

#[test]
fn message_is_the_system_description() {
    assert_eq!(TerminalError::Allocation("a".to_string()).message(), "a");
    assert_eq!(TerminalError::Spawn("b".to_string()).message(), "b");
    assert_eq!(TerminalError::Handle("c".to_string()).message(), "c");
    assert_eq!(TerminalError::Io("d".to_string()).message(), "d");
    assert_eq!(TerminalError::UnknownSession.message(), "unknown terminal id");
}
