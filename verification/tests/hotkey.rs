use audio2text::hotkey::{HotkeyAction, HotkeyCommand, HotkeyHandler, HotkeyPoll, POLL_INTERVAL_MS};

#[test]
fn handler_that_is_not_running_stops_the_loop() {
    let handler = HotkeyHandler::new(42);
    assert_eq!(handler.on_poll(HotkeyPoll::Pressed { id: 42 }), HotkeyAction::Stop);
    assert_eq!(handler.on_poll(HotkeyPoll::Empty), HotkeyAction::Stop);
}

#[test]
fn registered_hotkey_toggles_recording() {
    let mut handler = HotkeyHandler::new(42);
    handler.run();
    assert_eq!(
        handler.on_poll(HotkeyPoll::Pressed { id: 42 }),
        HotkeyAction::Send(HotkeyCommand::ToggleRecording)
    );
    assert_eq!(handler.on_poll(HotkeyPoll::Pressed { id: 43 }), HotkeyAction::Ignore);
    assert_eq!(handler.on_poll(HotkeyPoll::Empty), HotkeyAction::Sleep);
    assert_eq!(handler.on_poll(HotkeyPoll::Disconnected), HotkeyAction::Stop);
    assert_eq!(POLL_INTERVAL_MS, 50);
}

#[test]
fn stopped_handler_ends_the_loop_at_the_next_poll() {
    let mut handler = HotkeyHandler::new(42);
    handler.run();
    handler.stop();
    assert_eq!(handler.on_poll(HotkeyPoll::Pressed { id: 42 }), HotkeyAction::Stop);
    handler.stop();
    assert_eq!(handler.on_poll(HotkeyPoll::Empty), HotkeyAction::Stop);
}
