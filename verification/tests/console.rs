use crane_game::console::{Console, ConsoleEffect, ConsoleSignal};
use crane_game::messages::{ClientInput, GameInput, GameMessage};
use crane_game::session::{Session, SessionAction, SessionEvent, SocketEvent};

fn press(action: &str) -> ClientInput {
    ClientInput::Command(GameInput::ButtonPress { action: action.to_string() })
}

#[test]
fn start_and_stop_are_refused_twice() {
    let mut console = Console::new();
    assert!(!console.is_running());
    assert_eq!(console.stop().unwrap_err(), "Cannot stop server: Already stopped");
    assert!(console.start().is_ok());
    assert!(console.is_running());
    assert_eq!(console.start().unwrap_err(), "Cannot start server: Already started");
    assert!(console.stop().is_ok());
    assert!(!console.is_running());
}

#[test]
fn send_data_needs_a_message_and_a_running_server() {
    let mut console = Console::new();
    let message = || Some(GameMessage::DisplayText { text: "hi".to_string() });
    assert_eq!(
        console.send_data("{}", message()).unwrap_err(),
        "Attempted to send unknown data: {}"
    );
    console.start().unwrap();
    assert!(matches!(console.send_data("{}", message()), Ok(GameMessage::DisplayText { .. })));
    assert_eq!(console.send_data("junk", None).unwrap_err(), "Attempted to send unknown data: junk");
}

#[test]
fn first_connection_and_last_disconnection_are_signalled() {
    let mut console = Console::new();
    let first = console.process(ClientInput::Connected);
    assert!(matches!(first.as_slice(), [ConsoleEffect::Emit(ConsoleSignal::ClientConnected)]));
    assert!(console.process(ClientInput::Connected).is_empty());
    assert!(console.process(ClientInput::Disconnected).is_empty());
    let last = console.process(ClientInput::Disconnected);
    assert!(matches!(last.as_slice(), [ConsoleEffect::Emit(ConsoleSignal::ClientDisconnected)]));
}

#[test]
fn disconnection_releases_held_actions() {
    let mut console = Console::new();
    console.process(ClientInput::Connected);
    let pressed = console.process(press("move_up"));
    assert!(matches!(pressed.as_slice(), [ConsoleEffect::Press(a)] if a == "move_up"));
    console.process(press("move_left"));
    console.process(press("move_up"));
    let released = console.process(ClientInput::Command(GameInput::ButtonRelease { action: "move_left".to_string() }));
    assert!(matches!(released.as_slice(), [ConsoleEffect::Release(a)] if a == "move_left"));
    let left = console.process(ClientInput::Disconnected);
    assert_eq!(left.len(), 3);
    assert!(matches!(&left[0], ConsoleEffect::Emit(ConsoleSignal::ClientDisconnected)));
    assert!(matches!(&left[1], ConsoleEffect::Release(a) if a == "move_up"));
    assert!(matches!(&left[2], ConsoleEffect::Release(a) if a == "move_left"));
    console.process(ClientInput::Connected);
    let again = console.process(ClientInput::Disconnected);
    assert_eq!(again.len(), 1);
}

#[test]
fn other_inputs_pass_through() {
    let mut console = Console::new();
    let url = console.process(ClientInput::ConnectionUrl { url: "https://x.example".to_string() });
    assert!(matches!(url.as_slice(), [ConsoleEffect::Emit(ConsoleSignal::ConnectionUrl(u))] if u == "https://x.example"));
    let strength = console.process(ClientInput::Command(GameInput::ButtonStrength {
        action: "move_right".to_string(),
        strength_bits: 0.5f32.to_bits(),
    }));
    assert!(matches!(strength.as_slice(),
        [ConsoleEffect::Strength { action, strength_bits }] if action == "move_right" && f32::from_bits(*strength_bits) == 0.5));
    let text = console.process(ClientInput::Command(GameInput::SubmitText { text: "gg".to_string() }));
    assert!(matches!(text.as_slice(), [ConsoleEffect::Emit(ConsoleSignal::Text(t))] if t == "gg"));
}

#[test]
fn a_press_on_the_phone_reaches_the_engine() {
    let mut session = Session { latency: 0 };
    let step = session.step(SessionEvent::Received {
        event: SocketEvent::Command(GameInput::ButtonPress { action: "deploy_claw".to_string() }),
        now_ms: 1,
    });
    let mut console = Console::new();
    for action in step.actions {
        match action {
            SessionAction::Forward(input) => {
                let effects = console.process(input);
                assert!(matches!(effects.as_slice(), [ConsoleEffect::Press(a)] if a == "deploy_claw"));
            },
            _ => panic!("expected a forward"),
        }
    }
}

#[test]
fn a_batch_of_inputs_counts_connections() {
    let mut console = Console::new();
    let batch = vec![
        ClientInput::Connected,
        press("move_up"),
        ClientInput::Connected,
        ClientInput::Disconnected,
        ClientInput::Disconnected,
        ClientInput::Connected,
    ];
    let mut effects = Vec::new();
    for input in batch {
        effects.extend(console.process(input));
    }
    assert_eq!(console.connections(), 0 + 3 - 2);
    let connected = effects.iter().filter(|e| matches!(e, ConsoleEffect::Emit(ConsoleSignal::ClientConnected))).count();
    let disconnected = effects.iter().filter(|e| matches!(e, ConsoleEffect::Emit(ConsoleSignal::ClientDisconnected))).count();
    assert_eq!((connected, disconnected), (2, 1));
}
