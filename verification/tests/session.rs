use crane_game::markup::{
    hide_notification, ping_span, ping_span_ack, prize_notification, resume_game_notification, show_notification,
    text_notification,
};
use crane_game::messages::{ClientInput, GameInput, GameMessage};
use crane_game::session::{
    latency_estimate, Flow, InterfaceEvent, NetworkEvent, Session, SessionAction, SessionEvent, SocketEvent,
};

fn sent(action: &SessionAction) -> &str {
    match action {
        SessionAction::Send(markup) => markup,
        _ => panic!("not a send"),
    }
}

#[test]
fn a_second_phone_is_refused() {
    assert!(Session::open(true, 0).is_none());
    let (session, actions) = Session::open(false, 25).unwrap();
    assert_eq!(session.latency, 25);
    assert_eq!(actions.len(), 1);
    assert_eq!(sent(&actions[0]), resume_game_notification());
}

#[test]
fn display_text_shows_and_rearms_the_timer() {
    let mut session = Session { latency: 0 };
    let step = session.step(SessionEvent::Game(GameMessage::DisplayText { text: "Hi <you>".to_string() }));
    assert!(step.flow == Flow::Continue);
    assert_eq!(step.actions.len(), 4);
    assert!(matches!(step.actions[0], SessionAction::CancelTimer));
    assert_eq!(sent(&step.actions[1]), text_notification("Hi <you>"));
    assert_eq!(sent(&step.actions[2]), show_notification());
    assert!(matches!(step.actions[3], SessionAction::ArmTimer));
    let expired = session.step(SessionEvent::NotificationExpired);
    assert_eq!(expired.actions.len(), 1);
    assert_eq!(sent(&expired.actions[0]), hide_notification());
}

#[test]
fn collect_prize_shows_the_prize() {
    let mut session = Session { latency: 0 };
    let step = session.step(SessionEvent::Game(GameMessage::CollectPrize { prize: "snowman".to_string() }));
    assert_eq!(step.actions.len(), 4);
    assert_eq!(sent(&step.actions[1]), prize_notification("snowman"));
}

#[test]
fn commands_are_forwarded() {
    let mut session = Session { latency: 0 };
    let step = session.step(SessionEvent::Received {
        event: SocketEvent::Command(GameInput::ButtonPress { action: "move_up".to_string() }),
        now_ms: 5,
    });
    assert_eq!(step.actions.len(), 1);
    match &step.actions[0] {
        SessionAction::Forward(ClientInput::Command(GameInput::ButtonPress { action })) => assert_eq!(action, "move_up"),
        _ => panic!("expected a forwarded press"),
    }
}

#[test]
fn resume_game_connects_and_hides() {
    let mut session = Session { latency: 0 };
    let step = session.step(SessionEvent::Received { event: SocketEvent::Interface(InterfaceEvent::ResumeGame), now_ms: 0 });
    assert_eq!(step.actions.len(), 2);
    assert!(matches!(step.actions[0], SessionAction::Forward(ClientInput::Connected)));
    assert_eq!(sent(&step.actions[1]), hide_notification());
}

#[test]
fn ping_is_answered_with_the_pong_time() {
    let mut session = Session { latency: 30 };
    let step = session.step(SessionEvent::Received {
        event: SocketEvent::Network(NetworkEvent::Ping { ping: 1000 }),
        now_ms: 2000,
    });
    assert_eq!(step.actions.len(), 1);
    assert_eq!(sent(&step.actions[0]), ping_span_ack(30, 1000, 2000));
    assert_eq!(session.latency, 30);
}

#[test]
fn ping_ack_measures_the_latency() {
    assert_eq!(latency_estimate(1000, 2000, 1300, 2100), 250);
    let mut session = Session { latency: 0 };
    let step = session.step(SessionEvent::Received {
        event: SocketEvent::Network(NetworkEvent::PingAck { ping: 1000, pong: 2000, ping_ack: 1300 }),
        now_ms: 2100,
    });
    assert_eq!(session.latency, 250);
    assert_eq!(sent(&step.actions[0]), ping_span(250));
    let next = session.step(SessionEvent::Received {
        event: SocketEvent::Network(NetworkEvent::Ping { ping: 9 }),
        now_ms: 10,
    });
    assert_eq!(sent(&next.actions[0]), ping_span_ack(250, 9, 10));
}

#[test]
fn unknown_text_is_reported() {
    let mut session = Session { latency: 0 };
    let step = session.step(SessionEvent::Unrecognized { text: "{\"x\":1}".to_string() });
    match &step.actions[0] {
        SessionAction::Report(line) => assert_eq!(line, "unknown {\"x\":1}"),
        _ => panic!("expected a report"),
    }
    let other = session.step(SessionEvent::OtherFrame);
    assert!(other.actions.is_empty() && other.flow == Flow::Continue);
}

#[test]
fn the_session_ends_when_a_side_closes() {
    let mut session = Session { latency: 3 };
    assert!(session.step(SessionEvent::SocketClosed).flow == Flow::Close);
    assert!(session.step(SessionEvent::GameFeedClosed).flow == Flow::Close);
    assert!(matches!(session.close(), ClientInput::Disconnected));
}
