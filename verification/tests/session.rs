use audio2text::websocket::protocol::{finish_task_cmd, run_task_cmd};
use audio2text::websocket::{
    AsrClient, AsrEvent, Event, FailureKind, Header, Notice, Outgoing, Output, Payload,
    SessionError, SessionInput, SessionOutput, SessionState, Transcription,
};

const TASK: &str = "0f8fad5b-d9cb-469f-a165-70867728950e";

fn header(task_id: &str, event: Option<&str>, error_message: Option<&str>) -> Header {
    Header {
        action: None,
        task_id: task_id.to_string(),
        streaming: None,
        event: event.map(|e| e.to_string()),
        error_code: error_message.map(|_| "InvalidParameter".to_string()),
        error_message: error_message.map(|m| m.to_string()),
        attributes: None,
    }
}

fn payload(output: Option<Output>) -> Payload {
    Payload {
        task_group: None,
        task: None,
        function: None,
        model: None,
        parameters: None,
        input: None,
        output,
    }
}

fn named(task_id: &str, event: &str) -> SessionInput {
    SessionInput::Message(Event { header: header(task_id, Some(event), None), payload: payload(None) })
}

fn failure(task_id: &str, message: Option<&str>) -> SessionInput {
    SessionInput::Message(Event {
        header: header(task_id, Some("task-failed"), message),
        payload: payload(None),
    })
}

fn result(task_id: &str, sentence_id: i32, text: &str, sentence_end: bool) -> SessionInput {
    let transcription = Transcription {
        sentence_id,
        begin_time: 0,
        end_time: 100,
        text: text.to_string(),
        words: Vec::new(),
        sentence_end,
    };
    SessionInput::Message(Event {
        header: header(task_id, Some("result-generated"), None),
        payload: payload(Some(Output { translations: Vec::new(), transcription: Some(transcription) })),
    })
}

fn partial(text: &str) -> AsrEvent {
    AsrEvent::ResultGenerated { text: text.to_string(), is_final: false }
}

fn committed(text: &str) -> AsrEvent {
    AsrEvent::ResultGenerated { text: text.to_string(), is_final: true }
}

fn awaiting() -> AsrClient {
    let mut client = AsrClient::new("key".to_string());
    assert!(client.on_connected_with(TASK.to_string()).is_some());
    client
}

fn streaming() -> AsrClient {
    let mut client = awaiting();
    let out = client.step(named(TASK, "task-started"));
    assert_eq!(out.emit, Some(AsrEvent::TaskStarted));
    client
}

fn is_silent(out: &SessionOutput) -> bool {
    out.send.is_none() && out.emit.is_none() && out.notice.is_none()
}

fn notes(out: &SessionOutput, notice: Notice) -> bool {
    out.send.is_none() && out.emit.is_none() && out.notice == Some(notice)
}

fn error(kind: FailureKind, message: &str) -> Option<SessionError> {
    Some(SessionError { kind, message: message.to_string() })
}

#[test]
fn new_client_is_connecting_without_a_task() {
    let client = AsrClient::new("secret".to_string());
    assert_eq!(client.state(), SessionState::Connecting);
    assert_eq!(client.api_key(), "secret");
    assert!(client.task_id().is_none());
    assert!(client.failure().is_none());
    assert_eq!(client.partial_text(), "");
    assert!(!client.is_terminal());
    assert!(client.generate_finish_task_cmd().is_none());
}

#[test]
fn run_task_command_asks_for_duplex_pcm_recognition() {
    let cmd = run_task_cmd(TASK.to_string());
    assert_eq!(cmd.header.action.as_deref(), Some("run-task"));
    assert_eq!(cmd.header.task_id, TASK);
    assert_eq!(cmd.header.streaming.as_deref(), Some("duplex"));
    assert!(cmd.header.event.is_none());
    assert!(cmd.header.error_code.is_none());
    assert!(cmd.header.error_message.is_none());
    assert!(cmd.header.attributes.is_none());
    assert_eq!(cmd.payload.task_group.as_deref(), Some("audio"));
    assert_eq!(cmd.payload.task.as_deref(), Some("asr"));
    assert_eq!(cmd.payload.function.as_deref(), Some("recognition"));
    assert_eq!(cmd.payload.model.as_deref(), Some("gummy-realtime-v1"));
    let parameters = cmd.payload.parameters.unwrap();
    assert_eq!(parameters.format.as_deref(), Some("pcm"));
    assert_eq!(parameters.sample_rate, Some(16000));
    assert!(parameters.vocabulary_id.is_none());
    assert_eq!(parameters.language.as_deref(), Some("en"));
    assert!(parameters.translation_target_languages.is_none());
    assert_eq!(parameters.transcription_enabled, Some(true));
    assert_eq!(parameters.translation_enabled, Some(false));
    assert!(cmd.payload.input.is_some());
    assert!(cmd.payload.output.is_none());
}

#[test]
fn finish_task_command_bears_only_the_task() {
    let cmd = finish_task_cmd(TASK.to_string());
    assert_eq!(cmd.header.action.as_deref(), Some("finish-task"));
    assert_eq!(cmd.header.task_id, TASK);
    assert_eq!(cmd.header.streaming.as_deref(), Some("duplex"));
    assert!(cmd.header.event.is_none());
    assert!(cmd.payload.task_group.is_none());
    assert!(cmd.payload.task.is_none());
    assert!(cmd.payload.function.is_none());
    assert!(cmd.payload.model.is_none());
    assert!(cmd.payload.parameters.is_none());
    assert!(cmd.payload.input.is_some());
    assert!(cmd.payload.output.is_none());
}

#[test]
fn generated_task_identifiers_are_fresh_and_36_characters_long() {
    let mut first = AsrClient::new("key".to_string());
    let mut second = AsrClient::new("key".to_string());
    let a = first.generate_run_task_cmd();
    let b = second.generate_run_task_cmd();
    assert_eq!(a.header.task_id.chars().count(), 36);
    assert_eq!(b.header.task_id.chars().count(), 36);
    assert_ne!(a.header.task_id, b.header.task_id);
    assert_eq!(first.task_id().as_deref(), Some(a.header.task_id.as_str()));
    assert_eq!(a.header.action.as_deref(), Some("run-task"));
    assert_eq!(first.state(), SessionState::Connecting);
    let finish = first.generate_finish_task_cmd().unwrap();
    assert_eq!(finish.header.task_id, a.header.task_id);
    assert_eq!(finish.header.action.as_deref(), Some("finish-task"));
}

#[test]
fn connecting_sends_the_handshake_and_awaits_the_start() {
    let mut client = AsrClient::new("key".to_string());
    let cmd = client.on_connected().unwrap();
    assert_eq!(client.state(), SessionState::AwaitingStart);
    assert_eq!(cmd.header.action.as_deref(), Some("run-task"));
    assert_eq!(client.task_id().as_deref(), Some(cmd.header.task_id.as_str()));
    assert_eq!(cmd.header.task_id.chars().count(), 36);
    // A second report of the connection means nothing.
    assert!(client.on_connected().is_none());
    assert!(client.on_connected_with("other".to_string()).is_none());
    assert_eq!(client.task_id().as_deref(), Some(cmd.header.task_id.as_str()));
    assert_eq!(client.state(), SessionState::AwaitingStart);
}

#[test]
fn connect_failure_fails_the_session() {
    let mut client = AsrClient::new("key".to_string());
    let out = client.step(SessionInput::ConnectFailed { error: "refused".to_string() });
    assert!(is_silent(&out));
    assert_eq!(client.state(), SessionState::Failed);
    assert_eq!(*client.failure(), error(FailureKind::TransportConnect, "refused"));
    assert!(client.task_id().is_none());
    assert!(client.is_terminal());
    // No task was ever established: the end of the audio sends no teardown.
    assert!(is_silent(&client.step(SessionInput::AudioClosed)));
}

#[test]
fn handshake_response_for_another_task_is_ignored() {
    let mut client = awaiting();
    assert!(is_silent(&client.step(named("another-task", "task-started"))));
    assert_eq!(client.state(), SessionState::AwaitingStart);
    assert!(is_silent(&client.step(failure("another-task", Some("boom")))));
    assert_eq!(client.state(), SessionState::AwaitingStart);
    assert!(client.failure().is_none());
    // A start confirmation without an identifier is nobody's.
    assert!(is_silent(&client.step(named("", "task-started"))));
    assert_eq!(client.state(), SessionState::AwaitingStart);
}

#[test]
fn task_failed_while_awaiting_start_fails_with_the_carried_message() {
    let mut client = awaiting();
    let out = client.step(failure(TASK, Some("Invalid API-key provided.")));
    assert!(out.send.is_none());
    assert_eq!(out.emit, Some(AsrEvent::TaskFailed { error: "Invalid API-key provided.".to_string() }));
    assert_eq!(client.state(), SessionState::Failed);
    assert_eq!(*client.failure(), error(FailureKind::Protocol, "Invalid API-key provided."));
}

#[test]
fn task_failed_without_identifier_aborts_the_handshake() {
    let mut client = awaiting();
    let out = client.step(failure("", Some("quota exceeded")));
    assert_eq!(out.emit, Some(AsrEvent::TaskFailed { error: "quota exceeded".to_string() }));
    assert_eq!(client.state(), SessionState::Failed);
}

#[test]
fn task_failed_without_message_is_an_unknown_error() {
    let mut client = awaiting();
    let out = client.step(failure(TASK, None));
    assert_eq!(out.emit, Some(AsrEvent::TaskFailed { error: "Unknown error".to_string() }));
    assert_eq!(*client.failure(), error(FailureKind::Protocol, "Unknown error"));
}

#[test]
fn malformed_handshake_response_fails_the_session() {
    let mut client = awaiting();
    let out = client.step(SessionInput::Undecodable { error: "expected value at line 1".to_string() });
    assert!(is_silent(&out));
    assert_eq!(client.state(), SessionState::Failed);
    assert_eq!(*client.failure(), error(FailureKind::Protocol, "expected value at line 1"));
}

#[test]
fn transport_closing_before_the_start_fails_the_session() {
    let mut client = awaiting();
    assert!(is_silent(&client.step(SessionInput::TransportClosed)));
    assert_eq!(client.state(), SessionState::Failed);
    assert_eq!(*client.failure(), error(FailureKind::TransportIo, "Connection closed before task started"));

    let mut client = awaiting();
    assert!(is_silent(&client.step(SessionInput::TransportError { error: "reset".to_string() })));
    assert_eq!(client.state(), SessionState::Failed);
    assert_eq!(*client.failure(), error(FailureKind::TransportIo, "reset"));
}

#[test]
fn audio_is_not_forwarded_before_the_start() {
    let mut client = awaiting();
    assert!(!client.accepts_audio());
    assert!(is_silent(&client.step(SessionInput::Audio(vec![1, 2, 3]))));
    assert!(is_silent(&client.step(SessionInput::AudioClosed)));
    assert!(is_silent(&client.step(SessionInput::OtherFrame)));
    assert_eq!(client.state(), SessionState::AwaitingStart);
}

#[test]
fn audio_is_forwarded_unchanged_while_streaming() {
    let mut client = streaming();
    assert!(client.accepts_audio());
    let out = client.step(SessionInput::Audio(vec![1, 2, 3, 4]));
    assert!(out.emit.is_none());
    match out.send {
        Some(Outgoing::Audio(bytes)) => assert_eq!(bytes, vec![1, 2, 3, 4]),
        other => panic!("unexpected frame {:?}", other),
    }
    assert_eq!(client.state(), SessionState::Streaming);
}

#[test]
fn session_reports_start_partial_final_finish_in_order() {
    let mut client = AsrClient::new("key".to_string());
    let mut seen: Vec<AsrEvent> = Vec::new();
    let handshake = client.on_connected().unwrap();
    let task = handshake.header.task_id.clone();
    let inputs = vec![
        named(&task, "task-started"),
        result(&task, 0, "hello wor", false),
        result(&task, 0, "hello world.", true),
        SessionInput::AudioClosed,
        named(&task, "task-finished"),
    ];
    for input in inputs {
        let out = client.step(input);
        if let Some(event) = out.emit {
            seen.push(event);
        }
    }
    assert_eq!(
        seen,
        vec![
            AsrEvent::TaskStarted,
            partial("hello wor"),
            committed("hello world."),
            AsrEvent::TaskFinished,
        ]
    );
    assert_eq!(client.state(), SessionState::Closed);
    assert!(client.failure().is_none());
}

#[test]
fn partial_text_follows_the_open_sentence() {
    let mut client = streaming();
    client.step(result(TASK, 0, "good", false));
    assert_eq!(client.partial_text(), "good");
    assert!(!client.is_committed(0));
    client.step(result(TASK, 0, "good morning", false));
    assert_eq!(client.partial_text(), "good morning");
    client.step(result(TASK, 0, "Good morning.", true));
    assert_eq!(client.partial_text(), "");
    assert!(client.is_committed(0));
    assert!(!client.is_committed(1));
}

#[test]
fn committed_sentence_is_not_revised() {
    let mut client = streaming();
    assert_eq!(client.step(result(TASK, 7, "Done.", true)).emit, Some(committed("Done.")));
    assert!(notes(
        &client.step(result(TASK, 7, "Don", false)),
        Notice::CommittedSentence { sentence_id: 7 }
    ));
    assert!(notes(
        &client.step(result(TASK, 7, "Done again.", true)),
        Notice::CommittedSentence { sentence_id: 7 }
    ));
    assert_eq!(client.partial_text(), "");
    // Other sentences go on.
    assert_eq!(client.step(result(TASK, 8, "Next", false)).emit, Some(partial("Next")));
    assert_eq!(client.state(), SessionState::Streaming);
}

#[test]
fn events_of_other_tasks_are_ignored_while_streaming() {
    let mut client = streaming();
    assert!(is_silent(&client.step(result("another-task", 0, "noise", true))));
    assert!(is_silent(&client.step(named("another-task", "task-finished"))));
    assert!(is_silent(&client.step(failure("another-task", Some("boom")))));
    assert!(is_silent(&client.step(failure("", Some("boom")))));
    assert_eq!(client.state(), SessionState::Streaming);
    assert!(!client.is_committed(0));
}

#[test]
fn unknown_events_and_undecodable_frames_are_skipped_while_streaming() {
    let mut client = streaming();
    assert!(notes(
        &client.step(named(TASK, "heartbeat")),
        Notice::UnknownEvent { name: "heartbeat".to_string() }
    ));
    assert!(notes(
        &client.step(named(TASK, "task-started")),
        Notice::UnknownEvent { name: "task-started".to_string() }
    ));
    assert!(notes(
        &client.step(SessionInput::Undecodable { error: "bad json".to_string() }),
        Notice::UndecodableFrame { error: "bad json".to_string() }
    ));
    assert!(is_silent(&client.step(SessionInput::OtherFrame)));
    let without_name = SessionInput::Message(Event { header: header(TASK, None, None), payload: payload(None) });
    assert!(is_silent(&client.step(without_name)));
    let without_transcription = SessionInput::Message(Event {
        header: header(TASK, Some("result-generated"), None),
        payload: payload(Some(Output { translations: Vec::new(), transcription: None })),
    });
    assert!(is_silent(&client.step(without_transcription)));
    assert!(is_silent(&client.step(named(TASK, "result-generated"))));
    assert_eq!(client.state(), SessionState::Streaming);
    assert!(client.failure().is_none());
}

#[test]
fn end_of_audio_sends_the_teardown_for_the_task() {
    let mut client = streaming();
    let out = client.step(SessionInput::AudioClosed);
    assert!(out.emit.is_none());
    match out.send {
        Some(Outgoing::Control(cmd)) => {
            assert_eq!(cmd.header.action.as_deref(), Some("finish-task"));
            assert_eq!(cmd.header.task_id, TASK);
            assert!(cmd.payload.input.is_some());
        }
        other => panic!("unexpected frame {:?}", other),
    }
    assert_eq!(client.state(), SessionState::Finishing);
    assert!(!client.accepts_audio());
    // The teardown goes out once.
    assert!(is_silent(&client.step(SessionInput::AudioClosed)));
    assert!(is_silent(&client.step(SessionInput::Audio(vec![0, 0]))));
    assert_eq!(client.state(), SessionState::Finishing);
}

#[test]
fn results_still_arrive_while_finishing() {
    let mut client = streaming();
    client.step(SessionInput::AudioClosed);
    assert_eq!(client.step(result(TASK, 3, "last words", true)).emit, Some(committed("last words")));
    assert_eq!(client.step(named(TASK, "task-finished")).emit, Some(AsrEvent::TaskFinished));
    assert_eq!(client.state(), SessionState::Closed);
}

#[test]
fn transport_closing_while_finishing_closes_the_session() {
    let mut client = streaming();
    client.step(SessionInput::AudioClosed);
    assert!(is_silent(&client.step(SessionInput::TransportClosed)));
    assert_eq!(client.state(), SessionState::Closed);
    assert!(client.failure().is_none());
}

#[test]
fn transport_trouble_while_streaming_fails_the_session() {
    let mut client = streaming();
    assert!(is_silent(&client.step(SessionInput::TransportError { error: "broken pipe".to_string() })));
    assert_eq!(client.state(), SessionState::Failed);
    assert_eq!(*client.failure(), error(FailureKind::TransportIo, "broken pipe"));

    let mut client = streaming();
    assert!(is_silent(&client.step(SessionInput::TransportClosed)));
    assert_eq!(client.state(), SessionState::Failed);
    assert_eq!(*client.failure(), error(FailureKind::TransportIo, "Connection closed while streaming"));

    let mut client = streaming();
    client.step(SessionInput::AudioClosed);
    assert!(is_silent(&client.step(SessionInput::TransportError { error: "timeout".to_string() })));
    assert_eq!(client.state(), SessionState::Failed);
    assert_eq!(*client.failure(), error(FailureKind::TransportIo, "timeout"));
}

#[test]
fn task_failed_while_streaming_fails_with_the_carried_message() {
    let mut client = streaming();
    let out = client.step(failure(TASK, Some("audio too long")));
    assert_eq!(out.emit, Some(AsrEvent::TaskFailed { error: "audio too long".to_string() }));
    assert_eq!(client.state(), SessionState::Failed);
    assert_eq!(*client.failure(), error(FailureKind::Protocol, "audio too long"));
}

#[test]
fn terminal_states_take_nothing_in() {
    let mut closed = streaming();
    closed.step(named(TASK, "task-finished"));
    assert_eq!(closed.state(), SessionState::Closed);
    let mut failed = streaming();
    failed.step(failure(TASK, Some("boom")));
    for client in [&mut closed, &mut failed] {
        let state = client.state();
        assert!(client.is_terminal());
        assert!(is_silent(&client.step(result(TASK, 1, "late", true))));
        assert!(is_silent(&client.step(named(TASK, "task-started"))));
        assert!(is_silent(&client.step(SessionInput::Audio(vec![1]))));
        assert!(is_silent(&client.step(SessionInput::AudioClosed)));
        assert!(is_silent(&client.step(SessionInput::TransportClosed)));
        assert!(is_silent(&client.step(SessionInput::TransportError { error: "x".to_string() })));
        assert!(is_silent(&client.step(SessionInput::ConnectFailed { error: "x".to_string() })));
        assert!(client.on_connected().is_none());
        assert_eq!(client.state(), state);
        assert!(!client.is_committed(1));
    }
    assert_eq!(*failed.failure(), error(FailureKind::Protocol, "boom"));
}
