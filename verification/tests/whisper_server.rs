use v_voice::whisper_server::{
    ensure_whisper_server, stop_whisper_server, stop_whisper_server_locked, Action, ChildStatus,
    Event, StartError, Startup, Step, WhisperServerState, STARTUP_CHECKS,
    WHISPER_SERVER_RETRY_DELAY,
};

type State = WhisperServerState<u32>;

fn running(model: &str, child: u32, port: u16) -> State {
    WhisperServerState {
        model_id: Some(model.to_string()),
        child: Some(child),
        port: Some(port),
        retry_after: None,
        generation: 3,
    }
}

fn go(start: &mut Startup, state: &mut State, now: u128, event: Event<u32>) -> Step<u32> {
    assert!(start.awaits(&event));
    start.step(state, now, event)
}

fn failed(step: &Step<u32>) -> String {
    match &step.action {
        Action::Done(Err(error)) => error.message(),
        _ => panic!("the start went on"),
    }
}

/// A start of the model "tiny" on an empty state, up to where its process 7 is spawned on port 9.
fn spawned(state: &mut State) -> Startup {
    let mut start = ensure_whisper_server("tiny");
    go(&mut start, state, 0, Event::Begin);
    go(&mut start, state, 0, Event::Files(true));
    go(&mut start, state, 0, Event::PortReserved(9));
    let step = go(&mut start, state, 0, Event::Spawned(7));
    assert!(matches!(step.action, Action::CheckHealth(9)));
    start
}

#[test]
fn the_retry_delay_is_a_minute() {
    assert_eq!(WHISPER_SERVER_RETRY_DELAY, 60_000_000_000);
    assert_eq!(STARTUP_CHECKS, 300);
}

#[test]
fn letting_go_hands_the_process_out() {
    let mut state = running("tiny", 7, 9);
    state.retry_after = Some(5);
    assert_eq!(stop_whisper_server_locked(&mut state), Some(7));
    assert!(state.model_id.is_none() && state.child.is_none() && state.port.is_none());
    assert_eq!(state.retry_after, Some(5));
    assert_eq!(state.generation, 3);
    assert_eq!(stop_whisper_server_locked(&mut state), None);
}

#[test]
fn stopping_overtakes_starts_and_lifts_the_delay() {
    let mut state = running("tiny", 7, 9);
    state.retry_after = Some(5);
    assert_eq!(stop_whisper_server(&mut state), Some(7));
    assert_eq!(state.retry_after, None);
    assert_eq!(state.generation, 4);
    state.generation = u64::MAX;
    assert_eq!(stop_whisper_server(&mut state), None);
    assert_eq!(state.generation, 0);
}

#[test]
fn a_new_server_is_brought_up() {
    let mut state: State = WhisperServerState::new();
    let mut start = ensure_whisper_server("tiny");
    let step = go(&mut start, &mut state, 0, Event::Begin);
    assert!(step.kill.is_none() && matches!(step.action, Action::FindFiles));
    let step = go(&mut start, &mut state, 0, Event::Files(true));
    assert!(matches!(step.action, Action::ReservePort));
    let step = go(&mut start, &mut state, 0, Event::PortReserved(9));
    assert!(matches!(step.action, Action::Spawn(9)));
    let step = go(&mut start, &mut state, 0, Event::Spawned(7));
    assert!(matches!(step.action, Action::CheckHealth(9)));
    assert_eq!(state.model_id.as_deref(), Some("tiny"));
    assert_eq!(state.child, Some(7));
    assert_eq!(state.port, Some(9));
    let step = go(&mut start, &mut state, 0, Event::Health(false));
    assert!(matches!(step.action, Action::InspectChild));
    let step = go(&mut start, &mut state, 0, Event::ChildInspected(ChildStatus::Running));
    assert!(matches!(step.action, Action::Rest));
    let step = go(&mut start, &mut state, 0, Event::Rested);
    assert!(matches!(step.action, Action::CheckHealth(9)));
    let step = go(&mut start, &mut state, 0, Event::Health(true));
    assert!(step.kill.is_none() && matches!(step.action, Action::Done(Ok(9))));
    assert_eq!(state.child, Some(7));
    assert!(!start.awaits(&Event::<u32>::Health(true)));
}

#[test]
fn a_running_server_is_used_again() {
    let mut state = running("tiny", 7, 9);
    let mut start = ensure_whisper_server("tiny");
    let step = go(&mut start, &mut state, 0, Event::Begin);
    assert!(matches!(step.action, Action::PollChild));
    let step = go(&mut start, &mut state, 0, Event::ChildPolled(true));
    assert!(step.kill.is_none() && matches!(step.action, Action::CheckHealth(9)));
    let step = go(&mut start, &mut state, 0, Event::Health(true));
    assert!(step.kill.is_none() && matches!(step.action, Action::Done(Ok(9))));
    assert_eq!(state.child, Some(7));
}

#[test]
fn a_server_that_does_not_serve_is_killed() {
    // It serves another model.
    let mut state = running("base", 7, 9);
    let mut start = ensure_whisper_server("tiny");
    go(&mut start, &mut state, 0, Event::Begin);
    let step = go(&mut start, &mut state, 0, Event::ChildPolled(true));
    assert_eq!(step.kill, Some(7));
    assert!(matches!(step.action, Action::FindFiles));
    assert!(state.child.is_none() && state.port.is_none() && state.model_id.is_none());
    // It has exited.
    let mut state = running("tiny", 7, 9);
    let mut start = ensure_whisper_server("tiny");
    go(&mut start, &mut state, 0, Event::Begin);
    let step = go(&mut start, &mut state, 0, Event::ChildPolled(false));
    assert_eq!(step.kill, Some(7));
    // It does not answer.
    let mut state = running("tiny", 7, 9);
    let mut start = ensure_whisper_server("tiny");
    go(&mut start, &mut state, 0, Event::Begin);
    go(&mut start, &mut state, 0, Event::ChildPolled(true));
    let step = go(&mut start, &mut state, 0, Event::Health(false));
    assert_eq!(step.kill, Some(7));
    assert!(matches!(step.action, Action::FindFiles));
    assert!(state.child.is_none());
}

#[test]
fn a_start_needs_files_and_a_port() {
    let mut state: State = WhisperServerState::new();
    let mut start = ensure_whisper_server("tiny");
    go(&mut start, &mut state, 0, Event::Begin);
    let step = go(&mut start, &mut state, 0, Event::Files(false));
    assert_eq!(failed(&step), "Whisper server or model is not ready");
    let cases: Vec<(Event<u32>, &str)> = vec![
        (Event::PortNotReserved("x".to_string()), "Failed to reserve Whisper server port: x"),
        (Event::PortNotRead("y".to_string()), "Failed to read Whisper server port: y"),
    ];
    for (event, text) in cases {
        let mut start = ensure_whisper_server("tiny");
        go(&mut start, &mut state, 0, Event::Begin);
        go(&mut start, &mut state, 0, Event::Files(true));
        let step = go(&mut start, &mut state, 0, event);
        assert_eq!(failed(&step), text);
        assert_eq!(state.retry_after, None);
    }
}

#[test]
fn a_failed_spawn_holds_back_the_next_start() {
    let mut state: State = WhisperServerState::new();
    let mut start = ensure_whisper_server("tiny");
    go(&mut start, &mut state, 10, Event::Begin);
    go(&mut start, &mut state, 10, Event::Files(true));
    go(&mut start, &mut state, 10, Event::PortReserved(9));
    let step = go(&mut start, &mut state, 10, Event::NotSpawned("denied".to_string()));
    assert_eq!(failed(&step), "Failed to start whisper-server: denied");
    let until = 10 + WHISPER_SERVER_RETRY_DELAY;
    assert_eq!(state.retry_after, Some(until));
    let mut early = ensure_whisper_server("tiny");
    let step = go(&mut early, &mut state, until - 1, Event::Begin);
    assert_eq!(failed(&step), "Whisper server is temporarily unavailable");
    assert_eq!(state.retry_after, Some(until));
    let mut late = ensure_whisper_server("tiny");
    let step = go(&mut late, &mut state, until, Event::Begin);
    assert!(matches!(step.action, Action::FindFiles));
    assert_eq!(state.retry_after, None);
}

#[test]
fn a_process_that_fails_is_let_go() {
    let cases = vec![
        (
            ChildStatus::Exited("exit code: 1".to_string()),
            "Whisper server exited during startup: exit code: 1",
        ),
        (ChildStatus::Unknown("gone".to_string()), "Failed to inspect whisper-server: gone"),
    ];
    for (status, text) in cases {
        let mut state: State = WhisperServerState::new();
        let mut start = spawned(&mut state);
        go(&mut start, &mut state, 1, Event::Health(false));
        let step = go(&mut start, &mut state, 2, Event::ChildInspected(status));
        assert_eq!(step.kill, Some(7));
        assert_eq!(failed(&step), text);
        assert!(state.child.is_none());
        assert_eq!(state.retry_after, Some(2 + WHISPER_SERVER_RETRY_DELAY));
    }
}

#[test]
fn a_stop_overtakes_a_start() {
    // Before the process comes.
    let mut state: State = WhisperServerState::new();
    let mut start = ensure_whisper_server("tiny");
    go(&mut start, &mut state, 0, Event::Begin);
    go(&mut start, &mut state, 0, Event::Files(true));
    go(&mut start, &mut state, 0, Event::PortReserved(9));
    stop_whisper_server(&mut state);
    let step = go(&mut start, &mut state, 0, Event::Spawned(7));
    assert_eq!(step.kill, Some(7));
    assert_eq!(failed(&step), "Whisper server startup was cancelled");
    assert!(state.child.is_none());
    // While it is waited for.
    let mut state: State = WhisperServerState::new();
    let mut start = spawned(&mut state);
    assert_eq!(stop_whisper_server(&mut state), Some(7));
    let step = go(&mut start, &mut state, 0, Event::Health(false));
    assert!(step.kill.is_none());
    assert_eq!(failed(&step), "Whisper server startup was cancelled");
    assert_eq!(state.retry_after, None);
}

#[test]
fn a_stop_during_a_pause_is_seen_at_the_next_check() {
    let mut state: State = WhisperServerState::new();
    let mut start = spawned(&mut state);
    go(&mut start, &mut state, 0, Event::Health(false));
    go(&mut start, &mut state, 0, Event::ChildInspected(ChildStatus::Running));
    assert_eq!(stop_whisper_server(&mut state), Some(7));
    let step = go(&mut start, &mut state, 0, Event::Rested);
    assert!(step.kill.is_none() && matches!(step.action, Action::CheckHealth(9)));
    assert_eq!(state.retry_after, None);
    let step = go(&mut start, &mut state, 0, Event::Health(false));
    assert_eq!(failed(&step), "Whisper server startup was cancelled");
    assert_eq!(state.retry_after, None);
}

#[test]
fn a_process_that_vanished_ends_the_start() {
    let mut state: State = WhisperServerState::new();
    let mut start = spawned(&mut state);
    stop_whisper_server_locked(&mut state);
    let step = go(&mut start, &mut state, 0, Event::Health(false));
    assert_eq!(failed(&step), "Whisper server stopped during startup");
}

#[test]
fn a_server_that_never_answers_is_given_up() {
    let mut state: State = WhisperServerState::new();
    let mut start = spawned(&mut state);
    for check in 1..=STARTUP_CHECKS {
        go(&mut start, &mut state, 5, Event::Health(false));
        go(&mut start, &mut state, 5, Event::ChildInspected(ChildStatus::Running));
        let step = go(&mut start, &mut state, 5, Event::Rested);
        if check < STARTUP_CHECKS {
            assert!(matches!(step.action, Action::CheckHealth(9)));
        } else {
            assert_eq!(step.kill, Some(7));
            assert!(matches!(&step.action, Action::Done(Err(StartError::NeverReady))));
            assert_eq!(failed(&step), "Whisper server failed to become ready");
        }
    }
    assert!(state.child.is_none());
    assert_eq!(state.retry_after, Some(5 + WHISPER_SERVER_RETRY_DELAY));
}

#[test]
fn a_start_awaits_what_it_asked_for_alone() {
    let start = ensure_whisper_server("tiny");
    assert!(start.awaits(&Event::<u32>::Begin));
    assert!(!start.awaits(&Event::<u32>::Health(true)));
    assert!(!start.awaits(&Event::<u32>::Rested));
}
