use audio2text::control::{
    check_silence, found_input_tool, react, Reaction, SilenceAction, MAX_SILENCE_SECONDS,
};
use audio2text::websocket::AsrEvent;

#[test]
fn final_results_are_typed() {
    assert_eq!(
        react(AsrEvent::ResultGenerated { text: "Hello.".to_string(), is_final: true }),
        Reaction { speech: true, text: Some("Hello.".to_string()), done: false }
    );
}

#[test]
fn partial_results_only_count_as_speech() {
    assert_eq!(
        react(AsrEvent::ResultGenerated { text: "Hel".to_string(), is_final: false }),
        Reaction { speech: true, text: None, done: false }
    );
}

#[test]
fn end_of_the_task_ends_the_consumer() {
    assert_eq!(react(AsrEvent::TaskStarted), Reaction { speech: false, text: None, done: false });
    assert_eq!(react(AsrEvent::TaskFinished), Reaction { speech: false, text: None, done: true });
    assert_eq!(
        react(AsrEvent::TaskFailed { error: "boom".to_string() }),
        Reaction { speech: false, text: None, done: true }
    );
}

#[test]
fn silence_stops_recording_after_a_minute() {
    assert_eq!(MAX_SILENCE_SECONDS, 60);
    assert_eq!(check_silence(0), SilenceAction::Continue);
    assert_eq!(check_silence(9), SilenceAction::Continue);
    assert_eq!(check_silence(10), SilenceAction::Report);
    assert_eq!(check_silence(11), SilenceAction::Continue);
    assert_eq!(check_silence(50), SilenceAction::Report);
    assert_eq!(check_silence(59), SilenceAction::Continue);
    assert_eq!(check_silence(60), SilenceAction::Stop);
    assert_eq!(check_silence(u64::MAX), SilenceAction::Stop);
}

#[test]
fn clipboard_is_no_input_tool() {
    assert!(found_input_tool(true, false));
    assert!(found_input_tool(false, true));
    assert!(!found_input_tool(false, false));
}
