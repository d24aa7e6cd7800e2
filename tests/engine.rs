use intiface_engine::engine::{maybe_crash_main_thread, maybe_crash_task_thread};
use intiface_engine::{
    EngineAction, EngineEvent, EngineMessage, EngineOptionsBuilder, EnginePhase, IntifaceEngine,
    IntifaceMessage, ServerEvent, SessionOutcome,
};

fn sent(actions: &[EngineAction]) -> Vec<EngineMessage> {
    actions
        .iter()
        .filter_map(|a| match a {
            EngineAction::Send(m) => Some(m.clone()),
            _ => None,
        })
        .collect()
}

fn is_serve(a: &EngineAction) -> bool {
    matches!(a, EngineAction::Serve)
}

fn connect(name: &str) -> EngineEvent {
    EngineEvent::Server(ServerEvent::ClientConnected { client_name: name.to_string() })
}

fn disconnect() -> EngineEvent {
    EngineEvent::Server(ServerEvent::ClientDisconnected)
}

fn device(index: u32) -> EngineEvent {
    EngineEvent::Server(ServerEvent::DeviceAdded {
        index,
        name: "Toy".to_string(),
        identifier: "id".to_string(),
        display_name: "My toy".to_string(),
    })
}

fn run(engine: &mut IntifaceEngine, events: Vec<EngineEvent>) -> Vec<EngineAction> {
    let mut all = Vec::new();
    for e in events {
        all.extend(engine.handle(e));
    }
    all
}

#[test]
fn one_session_then_shutdown() {
    let mut engine = IntifaceEngine::new("1.0.0", false);
    let actions = run(
        &mut engine,
        vec![
            EngineEvent::Start,
            connect("X"),
            disconnect(),
            EngineEvent::SessionEnded(SessionOutcome::Dropped),
        ],
    );
    assert_eq!(engine.phase(), EnginePhase::Serving);
    assert!(is_serve(actions.last().unwrap()));
    engine.stop();
    let end = engine.handle(EngineEvent::SessionEnded(SessionOutcome::Cancelled));
    let mut messages = sent(&actions);
    messages.extend(sent(&end));
    assert_eq!(
        messages,
        vec![
            EngineMessage::EngineStarted,
            EngineMessage::ClientConnected { client_name: "X".to_string() },
            EngineMessage::ClientDisconnected,
            EngineMessage::EngineStopped,
        ]
    );
    assert_eq!(engine.phase(), EnginePhase::Stopped);
    assert!(matches!(end.last(), Some(EngineAction::DisconnectFrontend)));
}

#[test]
fn second_client_is_rejected() {
    let mut engine = IntifaceEngine::new("1.0.0", false);
    run(&mut engine, vec![EngineEvent::Start, connect("X")]);
    let actions = engine.handle(EngineEvent::GuardRejected);
    assert_eq!(
        sent(&actions),
        vec![EngineMessage::ClientRejected { reason: "Unknown".to_string() }]
    );
    assert!(engine.is_occupied());
    assert_eq!(engine.phase(), EnginePhase::Serving);
    let actions = engine.handle(connect("Y"));
    assert!(actions.is_empty());
    let actions = engine.handle(disconnect());
    assert_eq!(sent(&actions), vec![EngineMessage::ClientDisconnected]);
}

#[test]
fn serve_error_ends_the_run() {
    let mut engine = IntifaceEngine::new("1.0.0", false);
    run(&mut engine, vec![EngineEvent::Start, connect("X")]);
    let actions = engine.handle(EngineEvent::SessionEnded(SessionOutcome::Failed {
        message: "Process Error: broken pipe".to_string(),
    }));
    assert_eq!(
        sent(&actions),
        vec![
            EngineMessage::EngineError { message: "Process Error: broken pipe".to_string() },
            EngineMessage::ClientDisconnected,
            EngineMessage::EngineStopped,
        ]
    );
    assert!(!actions.iter().any(is_serve));
    assert_eq!(engine.phase(), EnginePhase::Stopped);
    assert!(engine.handle(EngineEvent::SessionEnded(SessionOutcome::Dropped)).is_empty());
}

#[test]
fn frontend_stop_cancels_root_and_ends_the_run() {
    let mut engine = IntifaceEngine::new("1.0.0", false);
    run(&mut engine, vec![EngineEvent::Start]);
    let actions = engine.handle(EngineEvent::Frontend(IntifaceMessage::Stop));
    assert!(matches!(actions.as_slice(), [EngineAction::CancelRoot]));
    assert!(engine.stop_requested());
    let actions = engine.handle(EngineEvent::SessionEnded(SessionOutcome::Dropped));
    assert!(!actions.iter().any(is_serve));
    assert_eq!(sent(&actions), vec![EngineMessage::EngineStopped]);
    assert_eq!(engine.phase(), EnginePhase::Stopped);
}

#[test]
fn stop_twice_sends_one_engine_stopped() {
    let mut engine = IntifaceEngine::new("1.0.0", false);
    let mut all = run(&mut engine, vec![EngineEvent::Start, connect("X")]);
    engine.stop();
    engine.stop();
    all.extend(engine.handle(EngineEvent::SessionEnded(SessionOutcome::Cancelled)));
    all.extend(engine.handle(EngineEvent::Frontend(IntifaceMessage::Stop)));
    all.extend(engine.handle(EngineEvent::SessionEnded(SessionOutcome::Cancelled)));
    let stopped = sent(&all).into_iter().filter(|m| *m == EngineMessage::EngineStopped).count();
    assert_eq!(stopped, 1);
}

#[test]
fn sessions_repeat_with_one_disconnect_each() {
    let mut engine = IntifaceEngine::new("1.0.0", false);
    let mut events = vec![EngineEvent::Start];
    for i in 0..3u32 {
        events.push(connect("X"));
        events.push(device(i));
        events.push(EngineEvent::Server(ServerEvent::DeviceRemoved { index: i }));
        if i == 1 {
            events.push(disconnect());
        }
        events.push(EngineEvent::SessionEnded(SessionOutcome::Dropped));
    }
    let messages = sent(&run(&mut engine, events));
    let disconnects =
        messages.iter().filter(|m| **m == EngineMessage::ClientDisconnected).count();
    assert_eq!(disconnects, 3);
    let mut open = false;
    for m in &messages {
        match m {
            EngineMessage::ClientConnected { .. } => {
                assert!(!open);
                open = true;
            }
            EngineMessage::ClientDisconnected => {
                assert!(open);
                open = false;
            }
            EngineMessage::DeviceConnected { .. } => assert!(open),
            _ => {}
        }
    }
    assert!(!open);
    assert_eq!(engine.phase(), EnginePhase::Serving);
}

#[test]
fn version_request_is_answered() {
    let mut engine = IntifaceEngine::new("2.5.1", false);
    let actions = engine.handle(EngineEvent::Frontend(IntifaceMessage::RequestEngineVersion {
        expected_version: 3,
    }));
    assert_eq!(sent(&actions), vec![EngineMessage::EngineVersion { version: "2.5.1".to_string() }]);
}

#[test]
fn advertising_stops_on_connect_and_restarts_per_session() {
    let mut engine = IntifaceEngine::new("1.0.0", true);
    let start = engine.handle(EngineEvent::Start);
    assert!(matches!(
        start.as_slice(),
        [EngineAction::Send(EngineMessage::EngineStarted), EngineAction::StartAdvertising, EngineAction::Serve]
    ));
    let on_connect = engine.handle(connect("X"));
    assert!(matches!(
        on_connect.as_slice(),
        [EngineAction::Send(_), EngineAction::StopAdvertising, EngineAction::StartGuard]
    ));
    let end = engine.handle(EngineEvent::SessionEnded(SessionOutcome::Dropped));
    assert!(matches!(
        end.as_slice(),
        [
            EngineAction::Send(EngineMessage::ClientDisconnected),
            EngineAction::StopGuard,
            EngineAction::CancelSession,
            EngineAction::StartAdvertising,
            EngineAction::Serve
        ]
    ));
    let end = engine.handle(EngineEvent::SessionEnded(SessionOutcome::Cancelled));
    assert!(matches!(
        end.as_slice(),
        [
            EngineAction::StopAdvertising,
            EngineAction::CancelSession,
            EngineAction::ShutdownServer,
            EngineAction::Send(EngineMessage::EngineStopped),
            EngineAction::Pause,
            EngineAction::DisconnectFrontend
        ]
    ));
}

#[test]
fn lost_frontend_ends_the_run_after_the_session() {
    let mut engine = IntifaceEngine::new("1.0.0", false);
    run(&mut engine, vec![EngineEvent::Start, EngineEvent::FrontendLost]);
    let actions = engine.handle(EngineEvent::SessionEnded(SessionOutcome::Dropped));
    assert!(!actions.iter().any(is_serve));
    assert_eq!(engine.phase(), EnginePhase::Stopped);
}

#[test]
fn events_before_start_are_ignored() {
    let mut engine = IntifaceEngine::new("1.0.0", false);
    assert!(engine.handle(connect("X")).is_empty());
    assert!(engine.handle(EngineEvent::GuardRejected).is_empty());
    assert!(engine.handle(EngineEvent::SessionEnded(SessionOutcome::Dropped)).is_empty());
    assert_eq!(engine.phase(), EnginePhase::Created);
    assert!(!engine.is_occupied());
}

#[test]
fn crash_hooks_follow_options() {
    let mut b = EngineOptionsBuilder::default();
    assert!(!maybe_crash_main_thread(&b.finish()));
    b.crash_main_thread(true);
    assert!(maybe_crash_main_thread(&b.finish()));
    assert!(!maybe_crash_task_thread(&b.finish()));
    b.crash_task_thread(true);
    assert!(maybe_crash_task_thread(&b.finish()));
}

#[test]
fn closed_server_stream_disconnects_once() {
    let mut engine = IntifaceEngine::new("1.0.0", false);
    run(&mut engine, vec![EngineEvent::Start, connect("X")]);
    let actions = engine.handle(EngineEvent::ServerEventsEnded);
    assert_eq!(sent(&actions), vec![EngineMessage::ClientDisconnected]);
    assert!(matches!(actions.last(), Some(EngineAction::StopGuard)));
    assert!(!engine.is_occupied());
    let actions = engine.handle(EngineEvent::SessionEnded(SessionOutcome::Dropped));
    assert!(sent(&actions).is_empty());
    assert!(engine.handle(EngineEvent::ServerEventsEnded).is_empty());
}
