use intiface_engine::{
    EngineMessage, FrontendLink, InboundFrame, IntifaceMessage, LinkAction, LinkEvent,
};

fn is_ping(a: &LinkAction) -> bool {
    matches!(a, LinkAction::SendPing)
}

fn is_end(a: &LinkAction) -> bool {
    matches!(a, LinkAction::End { cancel: true, .. })
}

#[test]
fn one_missed_pong_ends_the_link() {
    let mut link = FrontendLink::new(1);
    assert!(is_ping(&link.handle(LinkEvent::Tick)));
    assert!(is_end(&link.handle(LinkEvent::Tick)));
}

#[test]
fn pong_before_the_deadline_keeps_the_link() {
    let mut link = FrontendLink::new(1);
    for _ in 0..5 {
        assert!(is_ping(&link.handle(LinkEvent::Tick)));
        assert!(matches!(link.handle(LinkEvent::Frame(InboundFrame::Pong)), LinkAction::Continue));
    }
    assert!(is_ping(&link.handle(LinkEvent::Tick)));
    assert!(is_end(&link.handle(LinkEvent::Tick)));
}

#[test]
fn a_higher_threshold_tolerates_misses() {
    let mut link = FrontendLink::new(3);
    assert!(is_ping(&link.handle(LinkEvent::Tick)));
    assert!(is_ping(&link.handle(LinkEvent::Tick)));
    assert!(is_ping(&link.handle(LinkEvent::Tick)));
    link.handle(LinkEvent::Frame(InboundFrame::Pong));
    assert!(is_ping(&link.handle(LinkEvent::Tick)));
    assert!(is_ping(&link.handle(LinkEvent::Tick)));
    assert!(is_ping(&link.handle(LinkEvent::Tick)));
    assert!(is_end(&link.handle(LinkEvent::Tick)));
}

#[test]
fn close_frame_ends_like_a_liveness_failure() {
    let mut link = FrontendLink::new(1);
    assert!(matches!(
        link.handle(LinkEvent::Frame(InboundFrame::Close)),
        LinkAction::End { cancel: true, close: true }
    ));
    assert!(matches!(
        link.handle(LinkEvent::Frame(InboundFrame::Error)),
        LinkAction::End { cancel: true, close: false }
    ));
    assert!(matches!(
        link.handle(LinkEvent::Frame(InboundFrame::Ended)),
        LinkAction::End { cancel: true, close: false }
    ));
    assert!(matches!(
        link.handle(LinkEvent::OutgoingClosed),
        LinkAction::End { cancel: true, close: true }
    ));
}

#[test]
fn text_frames_are_decoded_or_dropped() {
    let mut link = FrontendLink::new(1);
    match link.handle(LinkEvent::Frame(InboundFrame::Text(r#"{"Stop":{}}"#.to_string()))) {
        LinkAction::Deliver(m) => assert_eq!(m, IntifaceMessage::Stop),
        _ => panic!("expected a delivery"),
    }
    assert!(matches!(
        link.handle(LinkEvent::Frame(InboundFrame::Text("not json".to_string()))),
        LinkAction::Continue
    ));
    assert!(matches!(link.handle(LinkEvent::Frame(InboundFrame::Binary)), LinkAction::Continue));
    assert!(matches!(link.handle(LinkEvent::Frame(InboundFrame::Ping)), LinkAction::Continue));
}

#[test]
fn outgoing_messages_become_text() {
    let mut link = FrontendLink::new(1);
    match link.handle(LinkEvent::Outgoing(EngineMessage::EngineStopped)) {
        LinkAction::SendText(t) => assert_eq!(t, r#"{"EngineStopped":{}}"#),
        _ => panic!("expected text"),
    }
    assert!(matches!(link.handle(LinkEvent::DisconnectRequested), LinkAction::Close));
}

#[test]
fn a_zero_threshold_ends_at_the_first_tick() {
    let mut link = FrontendLink::new(0);
    assert!(is_end(&link.handle(LinkEvent::Tick)));
}
