//! The life of one recognition task, as a state machine.
//!
//! The client owns the task: its identifier, its state, the latest
//! provisional text and the sentences already committed. The caller owns
//! the transport and the queues. It reports what happened on them as a
//! [`SessionInput`], and carries out what the client answers in a
//! [`SessionOutput`]: a frame to send, an event to hand to the consumer, or
//! a line for the log.

use vstd::prelude::*;
use crate::websocket::protocol::{
    finish_task_cmd, finish_task_command, opt_text, run_task_cmd, run_task_command, AsrEvent,
    AsrEventView, Event, EventView, HeaderView, OutputView,
};

verus! {

#[derive(Debug, Clone, Copy, PartialEq, Eq, Structural)]
pub enum SessionState {
    /// The transport is not open yet.
    Connecting,
    /// The handshake request is out; the service has not confirmed the task.
    AwaitingStart,
    /// The task is confirmed; audio flows out and results flow in.
    Streaming,
    /// The audio ended and the teardown request is out.
    Finishing,
    /// The task finished. Terminal.
    Closed,
    /// The session was aborted. Terminal.
    Failed,
}

/// What the caller observed on the transport or on the audio queue.
#[derive(Debug, Clone)]
pub enum SessionInput {
    /// The transport could not be opened.
    ConnectFailed { error: String },
    /// A text frame that decoded to an event.
    Message(Event),
    /// A text frame that did not decode.
    Undecodable { error: String },
    /// A frame that is neither text nor a close: it carries nothing for the
    /// session.
    OtherFrame,
    /// The peer closed the transport, or the stream of frames ended.
    TransportClosed,
    /// Sending or receiving failed.
    TransportError { error: String },
    /// The next chunk of encoded audio.
    Audio(Vec<u8>),
    /// The audio queue was closed: there will be no more audio.
    AudioClosed,
}

pub enum SessionInputView {
    ConnectFailed { error: Seq<char> },
    Message(EventView),
    Undecodable { error: Seq<char> },
    OtherFrame,
    TransportClosed,
    TransportError { error: Seq<char> },
    Audio(Seq<u8>),
    AudioClosed,
}

impl View for SessionInput {
    type V = SessionInputView;

    open spec fn view(&self) -> SessionInputView {
        match self {
            SessionInput::ConnectFailed { error } => SessionInputView::ConnectFailed {
                error: error@,
            },
            SessionInput::Message(ev) => SessionInputView::Message(ev@),
            SessionInput::Undecodable { error } => SessionInputView::Undecodable { error: error@ },
            SessionInput::OtherFrame => SessionInputView::OtherFrame,
            SessionInput::TransportClosed => SessionInputView::TransportClosed,
            SessionInput::TransportError { error } => SessionInputView::TransportError {
                error: error@,
            },
            SessionInput::Audio(bytes) => SessionInputView::Audio(bytes@),
            SessionInput::AudioClosed => SessionInputView::AudioClosed,
        }
    }
}

/// A frame for the caller to put on the transport.
#[derive(Debug, Clone)]
pub enum Outgoing {
    /// A control message, to be sent as a text frame.
    Control(Event),
    /// Encoded audio, to be sent as a binary frame.
    Audio(Vec<u8>),
}

pub enum OutgoingView {
    Control(EventView),
    Audio(Seq<u8>),
}

impl View for Outgoing {
    type V = OutgoingView;

    open spec fn view(&self) -> OutgoingView {
        match self {
            Outgoing::Control(ev) => OutgoingView::Control(ev@),
            Outgoing::Audio(bytes) => OutgoingView::Audio(bytes@),
        }
    }
}

/// Something that was dropped and is worth a line in the log.
#[derive(Debug, Clone, PartialEq, Eq)]
pub enum Notice {
    /// An event of the task with a name that the session does not know.
    UnknownEvent { name: String },
    /// A frame that did not decode was skipped.
    UndecodableFrame { error: String },
    /// A result for a sentence that is already committed: a violation of
    /// the protocol.
    CommittedSentence { sentence_id: i32 },
}

pub enum NoticeView {
    UnknownEvent { name: Seq<char> },
    UndecodableFrame { error: Seq<char> },
    CommittedSentence { sentence_id: i32 },
}

impl View for Notice {
    type V = NoticeView;

    open spec fn view(&self) -> NoticeView {
        match self {
            Notice::UnknownEvent { name } => NoticeView::UnknownEvent { name: name@ },
            Notice::UndecodableFrame { error } => NoticeView::UndecodableFrame { error: error@ },
            Notice::CommittedSentence { sentence_id } => NoticeView::CommittedSentence {
                sentence_id: *sentence_id,
            },
        }
    }
}

/// What the caller has to do after one step.
#[derive(Debug, Clone)]
pub struct SessionOutput {
    /// The frame to send, if any.
    pub send: Option<Outgoing>,
    /// The event to deliver to the consumer, if any.
    pub emit: Option<AsrEvent>,
    /// What to log, if anything.
    pub notice: Option<Notice>,
}

pub struct SessionOutputView {
    pub send: Option<OutgoingView>,
    pub emit: Option<AsrEventView>,
    pub notice: Option<NoticeView>,
}

impl View for SessionOutput {
    type V = SessionOutputView;

    open spec fn view(&self) -> SessionOutputView {
        SessionOutputView {
            send: match self.send {
                Some(o) => Some(o@),
                None => None,
            },
            emit: match self.emit {
                Some(e) => Some(e@),
                None => None,
            },
            notice: match self.notice {
                Some(n) => Some(n@),
                None => None,
            },
        }
    }
}

/// The kind of a failure of the session.
#[derive(Debug, Clone, Copy, PartialEq, Eq, Structural)]
pub enum FailureKind {
    /// The transport could not be opened.
    TransportConnect,
    /// Sending or receiving failed, or the peer closed the transport too
    /// early.
    TransportIo,
    /// The service reported a failure, or answered the handshake with what
    /// is no message.
    Protocol,
}

/// Why the session failed.
#[derive(Debug, Clone, PartialEq, Eq)]
pub struct SessionError {
    pub kind: FailureKind,
    /// For a failure that the service reported, its message, unchanged.
    pub message: String,
}

pub struct SessionErrorView {
    pub kind: FailureKind,
    pub message: Seq<char>,
}

impl View for SessionError {
    type V = SessionErrorView;

    open spec fn view(&self) -> SessionErrorView {
        SessionErrorView { kind: self.kind, message: self.message@ }
    }
}

/// The client of one streaming session.
pub struct AsrClient {
    api_key: String,
    task_id: Option<String>,
    state: SessionState,
    partial_text: String,
    committed: Vec<i32>,
    failure: Option<SessionError>,
}

pub struct ClientView {
    pub api_key: Seq<char>,
    /// The identifier of the task, once the handshake request was built.
    pub task_id: Option<Seq<char>>,
    pub state: SessionState,
    /// The text of the latest provisional result; empty once it is committed.
    pub partial_text: Seq<char>,
    /// The sentence indices for which a final result was delivered.
    pub committed: Set<i32>,
    /// Why the session failed.
    pub failure: Option<SessionErrorView>,
}

impl View for AsrClient {
    type V = ClientView;

    closed spec fn view(&self) -> ClientView {
        ClientView {
            api_key: self.api_key@,
            task_id: opt_text(self.task_id),
            state: self.state,
            partial_text: self.partial_text@,
            committed: self.committed@.to_set(),
            failure: match self.failure {
                Some(e) => Some(e@),
                None => None,
            },
        }
    }
}

/// The output of a step that neither sends nor reports anything.
pub open spec fn silent() -> SessionOutputView {
    SessionOutputView { send: None, emit: None, notice: None }
}

pub open spec fn emitting(event: AsrEventView) -> SessionOutputView {
    SessionOutputView { send: None, emit: Some(event), notice: None }
}

pub open spec fn sending(frame: OutgoingView) -> SessionOutputView {
    SessionOutputView { send: Some(frame), emit: None, notice: None }
}

pub open spec fn noting(notice: NoticeView) -> SessionOutputView {
    SessionOutputView { send: None, emit: None, notice: Some(notice) }
}

/// The message that a failure event carries, or a fixed text where it
/// carries none.
pub open spec fn failure_text(header: HeaderView) -> Seq<char> {
    match header.error_message {
        Some(m) => m,
        None => "Unknown error"@,
    }
}

/// The client in state `Failed` for the given reason.
pub open spec fn failed(s: ClientView, kind: FailureKind, message: Seq<char>) -> ClientView {
    ClientView {
        state: SessionState::Failed,
        failure: Some(SessionErrorView { kind, message }),
        ..s
    }
}

/// Whether audio is forwarded in this state.
pub open spec fn accepts_audio(state: SessionState) -> bool {
    state == SessionState::Streaming
}

pub open spec fn is_terminal(state: SessionState) -> bool {
    state == SessionState::Closed || state == SessionState::Failed
}

/// A fresh client: no task yet, transport not open.
pub open spec fn initial_client(api_key: Seq<char>) -> ClientView {
    ClientView {
        api_key,
        task_id: None,
        state: SessionState::Connecting,
        partial_text: Seq::empty(),
        committed: Set::empty(),
        failure: None,
    }
}

/// From `Connecting`, an open transport starts the handshake for the task
/// `task_id`. In any other state it means nothing.
pub open spec fn spec_connected(s: ClientView, task_id: Seq<char>) -> (
    ClientView,
    Option<EventView>,
) {
    if s.state == SessionState::Connecting {
        (
            ClientView { task_id: Some(task_id), state: SessionState::AwaitingStart, ..s },
            Some(run_task_command(task_id)),
        )
    } else {
        (s, None)
    }
}

/// While the transport is being opened only the failure to open it counts.
pub open spec fn step_connecting(s: ClientView, input: SessionInputView) -> (
    ClientView,
    SessionOutputView,
) {
    match input {
        SessionInputView::ConnectFailed { error } => (
            failed(s, FailureKind::TransportConnect, error),
            silent(),
        ),
        _ => (s, silent()),
    }
}

/// A response to the handshake. A start confirmation counts only if it bears
/// the identifier of the task; a failure counts if it bears that identifier
/// or none at all.
pub open spec fn handshake_response(s: ClientView, ev: EventView) -> (
    ClientView,
    SessionOutputView,
) {
    let own = s.task_id == Some(ev.header.task_id);
    let anonymous = ev.header.task_id.len() == 0;
    if ev.header.event == Some("task-started"@) && own {
        (ClientView { state: SessionState::Streaming, ..s }, emitting(AsrEventView::TaskStarted))
    } else if ev.header.event == Some("task-failed"@) && (own || anonymous) {
        (
            failed(s, FailureKind::Protocol, failure_text(ev.header)),
            emitting(AsrEventView::TaskFailed { error: failure_text(ev.header) }),
        )
    } else {
        (s, silent())
    }
}

pub open spec fn step_awaiting_start(s: ClientView, input: SessionInputView) -> (
    ClientView,
    SessionOutputView,
) {
    match input {
        SessionInputView::Message(ev) => handshake_response(s, ev),
        SessionInputView::Undecodable { error } => (
            failed(s, FailureKind::Protocol, error),
            silent(),
        ),
        SessionInputView::TransportClosed => (
            failed(s, FailureKind::TransportIo, "Connection closed before task started"@),
            silent(),
        ),
        SessionInputView::TransportError { error } => (
            failed(s, FailureKind::TransportIo, error),
            silent(),
        ),
        _ => (s, silent()),
    }
}

/// An event of the confirmed task. A result for a sentence that is not yet
/// committed is reported, and commits the sentence if it is final; a result
/// for a committed sentence is dropped with a notice. So is an event with a
/// name that the session does not know. Events of other tasks, and events
/// without a name, are dropped without one.
pub open spec fn task_event(s: ClientView, ev: EventView) -> (ClientView, SessionOutputView) {
    if s.task_id != Some(ev.header.task_id) {
        (s, silent())
    } else if ev.header.event == Some("result-generated"@) {
        match ev.payload.output {
            Some(OutputView { transcription: Some(t), .. }) => {
                if s.committed.contains(t.sentence_id) {
                    (s, noting(NoticeView::CommittedSentence { sentence_id: t.sentence_id }))
                } else if t.sentence_end {
                    (
                        ClientView {
                            partial_text: Seq::empty(),
                            committed: s.committed.insert(t.sentence_id),
                            ..s
                        },
                        emitting(AsrEventView::ResultGenerated { text: t.text, is_final: true }),
                    )
                } else {
                    (
                        ClientView { partial_text: t.text, ..s },
                        emitting(AsrEventView::ResultGenerated { text: t.text, is_final: false }),
                    )
                }
            },
            _ => (s, silent()),
        }
    } else if ev.header.event == Some("task-finished"@) {
        (ClientView { state: SessionState::Closed, ..s }, emitting(AsrEventView::TaskFinished))
    } else if ev.header.event == Some("task-failed"@) {
        (
            failed(s, FailureKind::Protocol, failure_text(ev.header)),
            emitting(AsrEventView::TaskFailed { error: failure_text(ev.header) }),
        )
    } else {
        match ev.header.event {
            Some(name) => (s, noting(NoticeView::UnknownEvent { name })),
            None => (s, silent()),
        }
    }
}

pub open spec fn step_streaming(s: ClientView, input: SessionInputView) -> (
    ClientView,
    SessionOutputView,
) {
    match input {
        SessionInputView::Message(ev) => task_event(s, ev),
        SessionInputView::Undecodable { error } => (
            s,
            noting(NoticeView::UndecodableFrame { error }),
        ),
        SessionInputView::TransportClosed => (
            failed(s, FailureKind::TransportIo, "Connection closed while streaming"@),
            silent(),
        ),
        SessionInputView::TransportError { error } => (
            failed(s, FailureKind::TransportIo, error),
            silent(),
        ),
        SessionInputView::Audio(bytes) => (s, sending(OutgoingView::Audio(bytes))),
        SessionInputView::AudioClosed => match s.task_id {
            Some(id) => (
                ClientView { state: SessionState::Finishing, ..s },
                sending(OutgoingView::Control(finish_task_command(id))),
            ),
            None => (ClientView { state: SessionState::Finishing, ..s }, silent()),
        },
        _ => (s, silent()),
    }
}

pub open spec fn step_finishing(s: ClientView, input: SessionInputView) -> (
    ClientView,
    SessionOutputView,
) {
    match input {
        SessionInputView::Message(ev) => task_event(s, ev),
        SessionInputView::Undecodable { error } => (
            s,
            noting(NoticeView::UndecodableFrame { error }),
        ),
        SessionInputView::TransportClosed => (
            ClientView { state: SessionState::Closed, ..s },
            silent(),
        ),
        SessionInputView::TransportError { error } => (
            failed(s, FailureKind::TransportIo, error),
            silent(),
        ),
        _ => (s, silent()),
    }
}

/// The next state and the caller's duties, for every state and every input.
pub open spec fn spec_step(s: ClientView, input: SessionInputView) -> (
    ClientView,
    SessionOutputView,
) {
    match s.state {
        SessionState::Connecting => step_connecting(s, input),
        SessionState::AwaitingStart => step_awaiting_start(s, input),
        SessionState::Streaming => step_streaming(s, input),
        SessionState::Finishing => step_finishing(s, input),
        SessionState::Closed => (s, silent()),
        SessionState::Failed => (s, silent()),
    }
}

/// `uuid::Uuid::new_v4` followed by `to_string`: a random identifier in
/// hyphenated form. Which one is not known; that form always has 36
/// characters.
#[verifier::external_body]
fn fresh_task_id() -> (id: String)
    ensures
        id@.len() == 36,
{
    uuid::Uuid::new_v4().to_string()
}

/// Whether the string has exactly the characters of `other`.
fn same_text(s: &String, other: &str) -> (b: bool)
    ensures
        b == (s@ == other@),
{
    *s == other.to_owned()
}

/// Whether the optional event name is `name`.
fn named(event: &Option<String>, name: &str) -> (b: bool)
    ensures
        b == (opt_text(*event) == Some(name@)),
{
    match event {
        Some(e) => same_text(e, name),
        None => false,
    }
}

/// Whether `id` occurs in `ids`.
fn contains_id(ids: &Vec<i32>, id: i32) -> (b: bool)
    ensures
        b == ids@.to_set().contains(id),
{
    let mut i: usize = 0;
    while i < ids.len()
        invariant
            i <= ids.len(),
            forall|j: int| 0 <= j < i ==> ids@[j] != id,
        decreases ids.len() - i,
    {
        if ids[i] == id {
            assert(ids@.contains(id));
            return true;
        }
        i += 1;
    }
    assert(!ids@.contains(id));
    false
}

impl AsrClient {
    pub fn new(api_key: String) -> (client: AsrClient)
        ensures
            client@ == initial_client(api_key@),
    {
        let client = AsrClient {
            api_key,
            task_id: None,
            state: SessionState::Connecting,
            partial_text: String::new(),
            committed: Vec::new(),
            failure: None,
        };
        assert(client.committed@.to_set() =~= Set::<i32>::empty());
        client
    }

    pub fn state(&self) -> (state: SessionState)
        ensures
            state == self@.state,
    {
        self.state
    }

    /// Whether the session is over.
    pub fn is_terminal(&self) -> (b: bool)
        ensures
            b == is_terminal(self@.state),
    {
        match self.state {
            SessionState::Closed | SessionState::Failed => true,
            _ => false,
        }
    }

    pub fn api_key(&self) -> (key: &String)
        ensures
            key@ == self@.api_key,
    {
        &self.api_key
    }

    pub fn task_id(&self) -> (id: &Option<String>)
        ensures
            opt_text(*id) == self@.task_id,
    {
        &self.task_id
    }

    /// Whether audio is forwarded in the present state.
    pub fn accepts_audio(&self) -> (b: bool)
        ensures
            b == accepts_audio(self@.state),
    {
        match self.state {
            SessionState::Streaming => true,
            _ => false,
        }
    }

    /// The reason of the failure, once the session has failed.
    pub fn failure(&self) -> (reason: &Option<SessionError>)
        ensures
            match *reason {
                Some(e) => self@.failure == Some(e@),
                None => self@.failure is None,
            },
    {
        &self.failure
    }

    /// The text of the latest provisional result.
    pub fn partial_text(&self) -> (text: &String)
        ensures
            text@ == self@.partial_text,
    {
        &self.partial_text
    }

    /// Whether a final result was delivered for the sentence.
    pub fn is_committed(&self, sentence_id: i32) -> (b: bool)
        ensures
            b == self@.committed.contains(sentence_id),
    {
        contains_id(&self.committed, sentence_id)
    }

    /// Gives the task the identifier `task_id` and builds its handshake
    /// request.
    pub fn run_task_cmd_for(&mut self, task_id: String) -> (cmd: Event)
        ensures
            final(self)@ == (ClientView { task_id: Some(task_id@), ..old(self)@ }),
            cmd@ == run_task_command(task_id@),
    {
        self.task_id = Some(task_id.clone());
        run_task_cmd(task_id)
    }

    /// Gives the task a fresh random identifier and builds its handshake
    /// request.
    pub fn generate_run_task_cmd(&mut self) -> (cmd: Event)
        ensures
            final(self)@.task_id is Some,
            final(self)@.task_id->0.len() == 36,
            final(self)@ == (ClientView { task_id: final(self)@.task_id, ..old(self)@ }),
            cmd@ == run_task_command(final(self)@.task_id->0),
    {
        let id = fresh_task_id();
        self.run_task_cmd_for(id)
    }

    /// The teardown request of the task. There is none before the task has
    /// an identifier.
    pub fn generate_finish_task_cmd(&self) -> (cmd: Option<Event>)
        ensures
            match self@.task_id {
                Some(id) => cmd matches Some(c) && c@ == finish_task_command(id),
                None => cmd is None,
            },
    {
        match &self.task_id {
            Some(id) => Some(finish_task_cmd(id.clone())),
            None => None,
        }
    }

    /// The transport is open: starts the handshake for the task `task_id`.
    /// Returns the request to send; `None` if the client was not connecting.
    pub fn on_connected_with(&mut self, task_id: String) -> (cmd: Option<Event>)
        ensures
            final(self)@ == spec_connected(old(self)@, task_id@).0,
            match spec_connected(old(self)@, task_id@).1 {
                Some(c) => cmd matches Some(e) && e@ == c,
                None => cmd is None,
            },
    {
        match self.state {
            SessionState::Connecting => {
                let cmd = self.run_task_cmd_for(task_id);
                self.state = SessionState::AwaitingStart;
                Some(cmd)
            },
            _ => None,
        }
    }

    /// The transport is open: starts the handshake under a fresh random task
    /// identifier. Returns the request to send; `None`, with the client
    /// unchanged, if it was not connecting.
    pub fn on_connected(&mut self) -> (cmd: Option<Event>)
        ensures
            old(self)@.state != SessionState::Connecting ==> cmd is None && final(self)@ == old(
                self,
            )@,
            old(self)@.state == SessionState::Connecting ==> {
                &&& final(self)@.task_id is Some
                &&& final(self)@.task_id->0.len() == 36
                &&& final(self)@ == spec_connected(old(self)@, final(self)@.task_id->0).0
                &&& cmd is Some
                &&& cmd->0@ == run_task_command(final(self)@.task_id->0)
            },
    {
        match self.state {
            SessionState::Connecting => {
                let id = fresh_task_id();
                self.on_connected_with(id)
            },
            _ => None,
        }
    }

    fn fail(&mut self, kind: FailureKind, message: String)
        ensures
            final(self)@ == failed(old(self)@, kind, message@),
    {
        self.state = SessionState::Failed;
        self.failure = Some(SessionError { kind, message });
    }

    /// Whether the event bears the identifier of this client's task.
    fn owns(&self, ev: &Event) -> (b: bool)
        ensures
            b == (self@.task_id == Some(ev@.header.task_id)),
    {
        match &self.task_id {
            Some(id) => *id == ev.header.task_id,
            None => false,
        }
    }

    fn on_handshake_response(&mut self, ev: Event) -> (out: SessionOutput)
        ensures
            (final(self)@, out@) == handshake_response(old(self)@, ev@),
    {
        let own = self.owns(&ev);
        let anonymous = ev.header.task_id.as_str().is_empty();
        if own && named(&ev.header.event, "task-started") {
            self.state = SessionState::Streaming;
            SessionOutput { send: None, emit: Some(AsrEvent::TaskStarted), notice: None }
        } else if (own || anonymous) && named(&ev.header.event, "task-failed") {
            let reason = failure_message(ev);
            self.fail(FailureKind::Protocol, reason.clone());
            SessionOutput {
                send: None,
                emit: Some(AsrEvent::TaskFailed { error: reason }),
                notice: None,
            }
        } else {
            SessionOutput { send: None, emit: None, notice: None }
        }
    }

    fn on_task_event(&mut self, ev: Event) -> (out: SessionOutput)
        ensures
            (final(self)@, out@) == task_event(old(self)@, ev@),
    {
        if !self.owns(&ev) {
            SessionOutput { send: None, emit: None, notice: None }
        } else if named(&ev.header.event, "result-generated") {
            match ev.payload.output {
                Some(output) => match output.transcription {
                    Some(t) => {
                        if contains_id(&self.committed, t.sentence_id) {
                            SessionOutput {
                                send: None,
                                emit: None,
                                notice: Some(Notice::CommittedSentence { sentence_id: t.sentence_id }),
                            }
                        } else if t.sentence_end {
                            self.partial_text = String::new();
                            self.committed.push(t.sentence_id);
                            assert(self.committed@.to_set() =~= old(self).committed@.to_set().insert(
                                t.sentence_id,
                            )) by {
                                assert(self.committed@ == old(self).committed@.push(t.sentence_id));
                                assert forall|x: i32|
                                    self.committed@.contains(x) <==> old(
                                        self,
                                    ).committed@.to_set().insert(t.sentence_id).contains(x) by {
                                    if old(self).committed@.contains(x) {
                                        let j = choose|j: int|
                                            0 <= j < old(self).committed@.len() && old(
                                                self,
                                            ).committed@[j] == x;
                                        assert(self.committed@[j] == x);
                                    }
                                    if x == t.sentence_id {
                                        assert(self.committed@[self.committed@.len() - 1] == x);
                                    }
                                }
                            }
                            SessionOutput {
                                send: None,
                                emit: Some(AsrEvent::ResultGenerated { text: t.text, is_final: true }),
                                notice: None,
                            }
                        } else {
                            self.partial_text = t.text.clone();
                            SessionOutput {
                                send: None,
                                emit: Some(
                                    AsrEvent::ResultGenerated { text: t.text, is_final: false },
                                ),
                                notice: None,
                            }
                        }
                    },
                    None => SessionOutput { send: None, emit: None, notice: None },
                },
                None => SessionOutput { send: None, emit: None, notice: None },
            }
        } else if named(&ev.header.event, "task-finished") {
            self.state = SessionState::Closed;
            SessionOutput { send: None, emit: Some(AsrEvent::TaskFinished), notice: None }
        } else if named(&ev.header.event, "task-failed") {
            let reason = failure_message(ev);
            self.fail(FailureKind::Protocol, reason.clone());
            SessionOutput {
                send: None,
                emit: Some(AsrEvent::TaskFailed { error: reason }),
                notice: None,
            }
        } else {
            match ev.header.event {
                Some(name) => SessionOutput {
                    send: None,
                    emit: None,
                    notice: Some(Notice::UnknownEvent { name }),
                },
                None => SessionOutput { send: None, emit: None, notice: None },
            }
        }
    }

    /// Takes one observation and says what to do next.
    pub fn step(&mut self, input: SessionInput) -> (out: SessionOutput)
        ensures
            (final(self)@, out@) == spec_step(old(self)@, input@),
    {
        let quiet = SessionOutput { send: None, emit: None, notice: None };
        match self.state {
            SessionState::Connecting => match input {
                SessionInput::ConnectFailed { error } => {
                    self.fail(FailureKind::TransportConnect, error);
                    quiet
                },
                _ => quiet,
            },
            SessionState::AwaitingStart => match input {
                SessionInput::Message(ev) => self.on_handshake_response(ev),
                SessionInput::Undecodable { error } => {
                    self.fail(FailureKind::Protocol, error);
                    quiet
                },
                SessionInput::TransportClosed => {
                    self.fail(
                        FailureKind::TransportIo,
                        "Connection closed before task started".to_string(),
                    );
                    quiet
                },
                SessionInput::TransportError { error } => {
                    self.fail(FailureKind::TransportIo, error);
                    quiet
                },
                _ => quiet,
            },
            SessionState::Streaming => match input {
                SessionInput::Message(ev) => self.on_task_event(ev),
                SessionInput::Undecodable { error } => SessionOutput {
                    send: None,
                    emit: None,
                    notice: Some(Notice::UndecodableFrame { error }),
                },
                SessionInput::TransportClosed => {
                    self.fail(
                        FailureKind::TransportIo,
                        "Connection closed while streaming".to_string(),
                    );
                    quiet
                },
                SessionInput::TransportError { error } => {
                    self.fail(FailureKind::TransportIo, error);
                    quiet
                },
                SessionInput::Audio(bytes) => SessionOutput {
                    send: Some(Outgoing::Audio(bytes)),
                    emit: None,
                    notice: None,
                },
                SessionInput::AudioClosed => {
                    let cmd = self.generate_finish_task_cmd();
                    self.state = SessionState::Finishing;
                    match cmd {
                        Some(c) => SessionOutput {
                            send: Some(Outgoing::Control(c)),
                            emit: None,
                            notice: None,
                        },
                        None => quiet,
                    }
                },
                _ => quiet,
            },
            SessionState::Finishing => match input {
                SessionInput::Message(ev) => self.on_task_event(ev),
                SessionInput::Undecodable { error } => SessionOutput {
                    send: None,
                    emit: None,
                    notice: Some(Notice::UndecodableFrame { error }),
                },
                SessionInput::TransportClosed => {
                    self.state = SessionState::Closed;
                    quiet
                },
                SessionInput::TransportError { error } => {
                    self.fail(FailureKind::TransportIo, error);
                    quiet
                },
                _ => quiet,
            },
            SessionState::Closed => quiet,
            SessionState::Failed => quiet,
        }
    }
}

/// The message of a failure event, or a fixed text where it has none.
fn failure_message(ev: Event) -> (reason: String)
    ensures
        reason@ == failure_text(ev@.header),
{
    match ev.header.error_message {
        Some(m) => m,
        None => "Unknown error".to_string(),
    }
}

} // verus!
