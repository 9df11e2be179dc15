use oxitty::error::OxittyError;
use oxitty::event::{Event, KeyCode, KeyEvent, KeyModifiers, TerminalInput};
use oxitty::runloop::{
    input_action, is_quit_event, is_usable_terminal, next_action, InputAction, InputStep, LoopAction,
    Shutdown, TaskOutcome,
};

#[test]
fn quit_event_and_quit_key_stop_the_loop() {
    assert!(is_quit_event(&Event::Quit));
    assert!(is_quit_event(&Event::Key(KeyEvent::new(KeyCode::Char('q'), KeyModifiers::empty()))));
    assert!(is_quit_event(&Event::Key(KeyEvent::new(
        KeyCode::Char('q'),
        KeyModifiers::from_bits(KeyModifiers::CONTROL)
    ))));
    assert!(!is_quit_event(&Event::Key(KeyEvent::new(KeyCode::Char('Q'), KeyModifiers::empty()))));
    assert!(!is_quit_event(&Event::Key(KeyEvent::new(KeyCode::Esc, KeyModifiers::empty()))));
    assert!(!is_quit_event(&Event::Resize(1, 1)));
}

#[test]
fn loop_renders_unless_asked_to_quit() {
    assert_eq!(next_action(&None), LoopAction::Render);
    assert_eq!(next_action(&Some(Event::Resize(10, 10))), LoopAction::Render);
    assert_eq!(next_action(&Some(Event::Quit)), LoopAction::Quit);
}

#[test]
fn terminal_usability() {
    assert!(is_usable_terminal(true, Some("xterm-256color")));
    assert!(!is_usable_terminal(true, Some("dumb")));
    assert!(!is_usable_terminal(true, None));
    assert!(!is_usable_terminal(false, Some("xterm")));
    assert!(is_usable_terminal(true, Some("dumber")));
}

#[test]
fn shutdown_awaits_each_task_once_within_its_limit() {
    let mut s = Shutdown::new(3, 1000);
    let outcomes = [TaskOutcome::Completed, TaskOutcome::TimedOut, TaskOutcome::Failed];
    let mut waits = Vec::new();
    while let Some((index, limit)) = s.next_wait() {
        waits.push((index, limit));
        s.record(outcomes[index]);
    }
    assert!(s.is_done());
    assert_eq!(waits, vec![(0, 1000), (1, 1000), (2, 1000)]);
    assert_eq!((s.completed, s.failed, s.abandoned), (1, 1, 1));
    assert_eq!(waits.iter().map(|w| w.1).sum::<u64>(), 3 * 1000);
}

#[test]
fn shutdown_with_no_tasks_is_done_at_once() {
    let s = Shutdown::new(0, 1000);
    assert!(s.is_done());
    assert_eq!(s.next_wait(), None);
}

fn err(msg: &str) -> OxittyError {
    OxittyError::terminal("t".to_string(), (0, 0), msg.to_string())
}

#[test]
fn input_loop_decisions() {
    assert!(matches!(input_action(InputStep::Checked(true)), InputAction::Poll));
    assert!(matches!(input_action(InputStep::Checked(false)), InputAction::Stop));
    assert!(matches!(input_action(InputStep::Polled(Ok(true))), InputAction::Read));
    assert!(matches!(input_action(InputStep::Polled(Ok(false))), InputAction::Yield));
    assert!(matches!(input_action(InputStep::Polled(Err(err("p")))), InputAction::Fail(_)));
    assert!(matches!(input_action(InputStep::Read(Err(err("r")))), InputAction::Fail(_)));
    match input_action(InputStep::Read(Ok(TerminalInput::Resize(80, 24)))) {
        InputAction::Send(e) => assert_eq!(e, Event::Resize(80, 24)),
        other => panic!("unexpected {:?}", other),
    }
    assert!(matches!(input_action(InputStep::Read(Ok(TerminalInput::FocusLost))), InputAction::Yield));
    assert!(matches!(input_action(InputStep::Sent(Ok(()))), InputAction::Yield));
}

#[test]
fn full_channel_drops_but_closed_channel_fails() {
    let full = OxittyError::channel_full("event channel".to_string(), (0, 0));
    let closed = OxittyError::channel_closed("event channel".to_string(), (0, 0));
    assert!(matches!(
        input_action(InputStep::Sent(Err(full))),
        InputAction::Dropped(OxittyError::ChannelFull { .. })
    ));
    assert!(matches!(
        input_action(InputStep::Sent(Err(closed))),
        InputAction::Fail(OxittyError::ChannelClosed { .. })
    ));
}
