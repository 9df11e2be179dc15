use oxitty::error::OxittyError;
use oxitty::event::{
    recv_result, send_result, event_from_input, CloneableAny, CustomEvent, Event, EventHandler, KeyCode,
    KeyEvent, KeyEventKind, KeyModifiers, MouseButton, MouseEvent, MouseEventKind, RecvOutcome,
    SendOutcome, TerminalInput, MAX_EVENTS,
};

#[test]
fn test_event_handler_lifecycle() {
    let handler = EventHandler::new();
    assert!(handler.is_running());

    handler.stop();
    assert!(!handler.is_running());
}

#[test]
fn test_event_sending() {
    let handler = EventHandler::new();

    // Test key event
    let key_event = Event::Key(KeyEvent::new(KeyCode::Char('a'), KeyModifiers::empty()));
    assert!(handler.try_send(key_event).is_ok());

    // Test receiving the sent event
    let received = smol::block_on(async { handler.try_recv() }).unwrap();

    assert!(matches!(received, Some(Event::Key(_))));
}

#[test]
fn test_channel_capacity() {
    let handler = EventHandler::new();

    // Fill the channel to capacity
    for _ in 0..MAX_EVENTS {
        let event = Event::Key(KeyEvent::new(KeyCode::Char('a'), KeyModifiers::empty()));
        assert!(handler.try_send(event).is_ok());
    }

    // Next send should fail
    let event = Event::Key(KeyEvent::new(KeyCode::Char('a'), KeyModifiers::empty()));
    assert!(handler.try_send(event).is_err());
}

#[test]
fn key_event_round_trip_is_exact_and_single() {
    let handler = EventHandler::new();
    let key = KeyEvent {
        code: KeyCode::F(7),
        modifiers: KeyModifiers::from_bits(KeyModifiers::SHIFT | KeyModifiers::ALT),
        kind: KeyEventKind::Repeat,
        state: oxitty::event::KeyEventState { bits: 2 },
    };
    handler.try_send(Event::Key(key)).unwrap();
    assert_eq!(handler.try_recv().unwrap(), Some(Event::Key(key)));
    assert_eq!(handler.try_recv().unwrap(), None);
}

#[test]
fn events_keep_their_order() {
    let handler = EventHandler::new();
    handler.try_send(Event::Resize(80, 24)).unwrap();
    handler.try_send(Event::Quit).unwrap();
    assert_eq!(handler.try_recv().unwrap(), Some(Event::Resize(80, 24)));
    assert_eq!(handler.try_recv().unwrap(), Some(Event::Quit));
}

#[test]
fn full_channel_accepts_again_after_a_receive() {
    let handler = EventHandler::new();
    for i in 0..MAX_EVENTS {
        handler.try_send(Event::Resize(i as u16, 0)).unwrap();
    }
    let err = handler.try_send(Event::Quit).unwrap_err();
    assert!(matches!(err, OxittyError::ChannelFull { .. }));
    assert_eq!(handler.try_recv().unwrap(), Some(Event::Resize(0, 0)));
    assert!(handler.try_send(Event::Quit).is_ok());
}

#[test]
fn send_and_receive_outcomes_map_to_results() {
    assert!(send_result(SendOutcome::Sent).is_ok());
    match send_result(SendOutcome::Full(Event::Quit)) {
        Err(OxittyError::ChannelFull { src, err_span }) => {
            assert_eq!(src, "event channel");
            assert_eq!(err_span, (0, 0).into());
        }
        other => panic!("unexpected {:?}", other),
    }
    assert!(matches!(
        send_result(SendOutcome::Closed(Event::Quit)),
        Err(OxittyError::ChannelClosed { .. })
    ));
    assert_eq!(recv_result(RecvOutcome::Received(Event::Quit)).unwrap(), Some(Event::Quit));
    assert_eq!(recv_result(RecvOutcome::Empty).unwrap(), None);
    assert!(matches!(recv_result(RecvOutcome::Closed), Err(OxittyError::ChannelClosed { .. })));
}

#[test]
fn only_key_mouse_and_resize_inputs_become_events() {
    let key = KeyEvent::new(KeyCode::Enter, KeyModifiers::empty());
    let mouse = MouseEvent {
        kind: MouseEventKind::Down(MouseButton::Left),
        column: 3,
        row: 4,
        modifiers: KeyModifiers::empty(),
    };
    assert_eq!(event_from_input(TerminalInput::Key(key)), Some(Event::Key(key)));
    assert_eq!(event_from_input(TerminalInput::Mouse(mouse)), Some(Event::Mouse(mouse)));
    assert_eq!(event_from_input(TerminalInput::Resize(100, 30)), Some(Event::Resize(100, 30)));
    assert_eq!(event_from_input(TerminalInput::FocusGained), None);
    assert_eq!(event_from_input(TerminalInput::FocusLost), None);
    assert_eq!(event_from_input(TerminalInput::Paste(String::from("hi"))), None);
}

#[test]
fn custom_events_clone_with_their_data() {
    let e = Event::Custom(CustomEvent { kind: String::from("tick"), data: String::from("42") });
    let c = e.clone_box();
    assert_eq!(c, e);
    match c {
        Event::Custom(c) => assert_eq!(c.data, "42"),
        _ => panic!("wrong variant"),
    }
}

#[test]
fn default_handler_is_a_fresh_running_channel() {
    let handler = EventHandler::default();
    assert!(handler.is_running());
    assert_eq!(handler.try_recv().unwrap(), None);
    for _ in 0..MAX_EVENTS {
        handler.try_send(Event::Quit).unwrap();
    }
    assert!(handler.try_send(Event::Quit).is_err());
}
