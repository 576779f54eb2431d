//! What holds of every run of the session state machine.

use vstd::prelude::*;
use crate::websocket::protocol::{
    finish_task_command, run_task_command, AsrEventView, EventView, OutputView,
};
use crate::websocket::session::{
    accepts_audio, initial_client, is_terminal, silent, spec_connected, spec_step, ClientView,
    FailureKind, OutgoingView, SessionErrorView, SessionInputView, SessionState,
};

verus! {

/// The states in which a task exists have its identifier, a client that is
/// still connecting has none, and exactly the failed client has a reason.
pub open spec fn well_formed(s: ClientView) -> bool {
    &&& s.state == SessionState::Connecting ==> s.task_id is None
    &&& s.state == SessionState::AwaitingStart || s.state == SessionState::Streaming || s.state
        == SessionState::Finishing ==> s.task_id is Some
    &&& s.state == SessionState::Failed <==> s.failure is Some
}

/// The moves between states that the session may make in one step.
pub open spec fn may_follow(from: SessionState, to: SessionState) -> bool {
    from == to || match from {
        SessionState::Connecting => to == SessionState::AwaitingStart || to == SessionState::Failed,
        SessionState::AwaitingStart => to == SessionState::Streaming || to == SessionState::Failed,
        SessionState::Streaming => to == SessionState::Finishing || to == SessionState::Closed || to
            == SessionState::Failed,
        SessionState::Finishing => to == SessionState::Closed || to == SessionState::Failed,
        SessionState::Closed => false,
        SessionState::Failed => false,
    }
}

/// The transcription that an input carries, if it is an event with one.
pub open spec fn transcription_of(input: SessionInputView) -> Option<
    crate::websocket::protocol::TranscriptionView,
> {
    match input {
        SessionInputView::Message(ev) => match ev.payload.output {
            Some(OutputView { transcription: Some(t), .. }) => Some(t),
            _ => None,
        },
        _ => None,
    }
}

/// A fresh client is well formed.
pub proof fn initial_client_is_well_formed(api_key: Seq<char>)
    ensures
        well_formed(initial_client(api_key)),
{
}

/// Opening the transport keeps a client well formed, and moves it only from
/// `Connecting` to `AwaitingStart`.
pub proof fn connecting_keeps_well_formed(s: ClientView, task_id: Seq<char>)
    requires
        well_formed(s),
    ensures
        well_formed(spec_connected(s, task_id).0),
        may_follow(s.state, spec_connected(s, task_id).0.state),
        spec_connected(s, task_id).1 is Some <==> s.state == SessionState::Connecting,
{
}

/// A step keeps a client well formed and makes only the moves of
/// `may_follow`. The key and the task identifier never change. A step does
/// at most one thing: it sends, or reports, or notes.
pub proof fn step_keeps_well_formed(s: ClientView, input: SessionInputView)
    requires
        well_formed(s),
    ensures
        well_formed(spec_step(s, input).0),
        may_follow(s.state, spec_step(s, input).0.state),
        spec_step(s, input).0.api_key == s.api_key,
        spec_step(s, input).0.task_id == s.task_id,
        spec_step(s, input).1.send is Some ==> spec_step(s, input).1.emit is None && spec_step(
            s,
            input,
        ).1.notice is None,
        spec_step(s, input).1.emit is Some ==> spec_step(s, input).1.notice is None,
{
}

/// In a terminal state nothing happens any more: the client stays as it is,
/// nothing is sent and nothing is reported.
pub proof fn terminal_states_absorb(s: ClientView, input: SessionInputView)
    requires
        is_terminal(s.state),
    ensures
        spec_step(s, input) == (s, silent()),
{
}

/// While the start of the task is awaited, a response that bears another
/// task's identifier changes nothing. (A failure that bears no identifier at
/// all is not such a response: it aborts the session.)
pub proof fn foreign_handshake_response_is_ignored(s: ClientView, ev: EventView)
    requires
        s.state == SessionState::AwaitingStart,
        s.task_id != Some(ev.header.task_id),
        !(ev.header.task_id.len() == 0 && ev.header.event == Some("task-failed"@)),
    ensures
        spec_step(s, SessionInputView::Message(ev)) == (s, silent()),
{
}

/// While the start of the task is awaited, a failure event for the task, or
/// for no task in particular, fails the session, and the message it carries
/// is both the reason recorded and the text reported, unchanged.
pub proof fn handshake_failure_surfaces_message(s: ClientView, ev: EventView, message: Seq<char>)
    requires
        s.state == SessionState::AwaitingStart,
        ev.header.event == Some("task-failed"@),
        ev.header.error_message == Some(message),
        s.task_id == Some(ev.header.task_id) || ev.header.task_id.len() == 0,
    ensures
        spec_step(s, SessionInputView::Message(ev)).0 == (ClientView {
            state: SessionState::Failed,
            failure: Some(SessionErrorView { kind: FailureKind::Protocol, message }),
            ..s
        }),
        spec_step(s, SessionInputView::Message(ev)).1.send is None,
        spec_step(s, SessionInputView::Message(ev)).1.notice is None,
        spec_step(s, SessionInputView::Message(ev)).1.emit == Some(
            AsrEventView::TaskFailed { error: message },
        ),
{
    reveal_strlit("task-failed");
    reveal_strlit("task-started");
    assert("task-failed"@.len() != "task-started"@.len());
}

/// Once the task is confirmed, an event that bears another identifier than
/// the task's changes nothing.
pub proof fn foreign_event_is_ignored(s: ClientView, ev: EventView)
    requires
        s.state == SessionState::Streaming || s.state == SessionState::Finishing,
        s.task_id != Some(ev.header.task_id),
    ensures
        spec_step(s, SessionInputView::Message(ev)) == (s, silent()),
{
}

/// A result is reported only for an event of the task that carries a
/// transcription of a sentence not yet committed, with that transcription's
/// text and finality. A final result commits its sentence.
pub proof fn results_come_from_open_sentences(s: ClientView, input: SessionInputView)
    ensures
        spec_step(s, input).1.emit matches Some(AsrEventView::ResultGenerated { text, is_final })
            ==> {
            &&& s.state == SessionState::Streaming || s.state == SessionState::Finishing
            &&& transcription_of(input) matches Some(t) && !s.committed.contains(t.sentence_id)
                && text == t.text && is_final == t.sentence_end && (is_final ==> spec_step(
                s,
                input,
            ).0.committed.contains(t.sentence_id))
        },
{
}

/// A committed sentence is never revised: no result is reported for it
/// again, whatever the input says, and it stays committed.
pub proof fn committed_sentence_is_never_revised(
    s: ClientView,
    input: SessionInputView,
    sentence_id: i32,
)
    requires
        s.committed.contains(sentence_id),
    ensures
        spec_step(s, input).0.committed.contains(sentence_id),
        transcription_of(input) matches Some(t) && t.sentence_id == sentence_id ==> !(spec_step(
            s,
            input,
        ).1.emit is Some && spec_step(s, input).1.emit->0 is ResultGenerated),
{
    results_come_from_open_sentences(s, input);
}

/// When the audio ends while streaming, the teardown request goes out under
/// the identifier that the handshake request bore, and nothing is reported.
/// In no other state does the end of the audio send anything.
pub proof fn teardown_bears_the_task_identifier(s: ClientView)
    requires
        well_formed(s),
    ensures
        s.state == SessionState::Streaming ==> spec_step(s, SessionInputView::AudioClosed) == (
            ClientView { state: SessionState::Finishing, ..s },
            crate::websocket::session::sending(
                OutgoingView::Control(finish_task_command(s.task_id->0)),
            ),
        ),
        s.state != SessionState::Streaming ==> spec_step(s, SessionInputView::AudioClosed) == (
            s,
            silent(),
        ),
{
}

/// Audio is forwarded unchanged while streaming, and in no other state.
pub proof fn audio_is_forwarded_only_while_streaming(s: ClientView, bytes: Seq<u8>)
    ensures
        spec_step(s, SessionInputView::Audio(bytes)).0 == s,
        spec_step(s, SessionInputView::Audio(bytes)).1.emit is None,
        spec_step(s, SessionInputView::Audio(bytes)).1.notice is None,
        spec_step(s, SessionInputView::Audio(bytes)).1.send == if accepts_audio(s.state) {
            Some(OutgoingView::Audio(bytes))
        } else {
            None
        },
{
}

/// The state after a run of steps, and the events reported on the way, in
/// the order of the inputs that caused them.
pub open spec fn spec_run(s: ClientView, inputs: Seq<SessionInputView>) -> (
    ClientView,
    Seq<AsrEventView>,
)
    decreases inputs.len(),
{
    if inputs.len() == 0 {
        (s, Seq::empty())
    } else {
        let (before, events) = spec_run(s, inputs.drop_last());
        let (after, output) = spec_step(before, inputs.last());
        (
            after,
            match output.emit {
                Some(e) => events.push(e),
                None => events,
            },
        )
    }
}

/// Events are reported in the order of arrival: what a run reports is what
/// its first part reports, followed by what the rest reports from the state
/// that the first part left.
pub proof fn events_keep_the_order_of_arrival(
    s: ClientView,
    first: Seq<SessionInputView>,
    rest: Seq<SessionInputView>,
)
    ensures
        spec_run(s, first + rest).0 == spec_run(spec_run(s, first).0, rest).0,
        spec_run(s, first + rest).1 == spec_run(s, first).1 + spec_run(
            spec_run(s, first).0,
            rest,
        ).1,
    decreases rest.len(),
{
    if rest.len() == 0 {
        assert(first + rest =~= first);
        assert(spec_run(s, first).1 + Seq::<AsrEventView>::empty() =~= spec_run(s, first).1);
    } else {
        let shorter = rest.drop_last();
        events_keep_the_order_of_arrival(s, first, shorter);
        assert((first + rest).drop_last() =~= first + shorter);
        assert((first + rest).last() == rest.last());
        let mid = spec_run(s, first);
        let before = spec_run(mid.0, shorter);
        let step = spec_step(before.0, rest.last());
        match step.1.emit {
            Some(e) => {
                assert(mid.1 + before.1.push(e) =~= (mid.1 + before.1).push(e));
            },
            None => {},
        }
    }
}

/// A whole session in the small: after the handshake request, the start
/// confirmation, a provisional and then a final result for one sentence, and
/// the finish confirmation, all under the identifier of the task, are
/// reported as exactly four events in that order, and close the session.
pub proof fn complete_session_reports_in_order(
    s: ClientView,
    started: EventView,
    provisional: EventView,
    committed: EventView,
    finished: EventView,
)
    requires
        s.state == SessionState::AwaitingStart,
        s.task_id == Some(started.header.task_id),
        s.task_id == Some(provisional.header.task_id),
        s.task_id == Some(committed.header.task_id),
        s.task_id == Some(finished.header.task_id),
        started.header.event == Some("task-started"@),
        provisional.header.event == Some("result-generated"@),
        committed.header.event == Some("result-generated"@),
        finished.header.event == Some("task-finished"@),
        provisional.payload.output matches Some(OutputView { transcription: Some(t), .. })
            && !t.sentence_end && !s.committed.contains(t.sentence_id),
        committed.payload.output matches Some(OutputView { transcription: Some(t), .. })
            && t.sentence_end && !s.committed.contains(t.sentence_id),
    ensures
        spec_run(
            s,
            seq![
                SessionInputView::Message(started),
                SessionInputView::Message(provisional),
                SessionInputView::Message(committed),
                SessionInputView::Message(finished),
            ],
        ).1 == seq![
            AsrEventView::TaskStarted,
            AsrEventView::ResultGenerated {
                text: transcription_of(SessionInputView::Message(provisional))->0.text,
                is_final: false,
            },
            AsrEventView::ResultGenerated {
                text: transcription_of(SessionInputView::Message(committed))->0.text,
                is_final: true,
            },
            AsrEventView::TaskFinished,
        ],
        spec_run(
            s,
            seq![
                SessionInputView::Message(started),
                SessionInputView::Message(provisional),
                SessionInputView::Message(committed),
                SessionInputView::Message(finished),
            ],
        ).0.state == SessionState::Closed,
{
    reveal_strlit("task-started");
    reveal_strlit("task-failed");
    reveal_strlit("task-finished");
    reveal_strlit("result-generated");
    assert("task-started"@.len() == 12 && "task-failed"@.len() == 11 && "task-finished"@.len() == 13
        && "result-generated"@.len() == 16);
    let i0 = SessionInputView::Message(started);
    let i1 = SessionInputView::Message(provisional);
    let i2 = SessionInputView::Message(committed);
    let i3 = SessionInputView::Message(finished);
    let all = seq![i0, i1, i2, i3];
    let r0 = spec_run(s, Seq::<SessionInputView>::empty());
    assert(all.drop_last() =~= seq![i0, i1, i2]);
    assert(seq![i0, i1, i2].drop_last() =~= seq![i0, i1]);
    assert(seq![i0, i1].drop_last() =~= seq![i0]);
    assert(seq![i0].drop_last() =~= Seq::<SessionInputView>::empty());
    let r1 = spec_run(s, seq![i0]);
    assert(r1.0.state == SessionState::Streaming);
    assert(r1.1 =~= seq![AsrEventView::TaskStarted]);
    let r2 = spec_run(s, seq![i0, i1]);
    assert(r2.0.state == SessionState::Streaming);
    assert(r2.0.committed == s.committed);
    let r3 = spec_run(s, seq![i0, i1, i2]);
    assert(r3.0.state == SessionState::Streaming);
    let r4 = spec_run(s, all);
    assert(r4.0.state == SessionState::Closed);
    assert(r4.1 =~= seq![
        AsrEventView::TaskStarted,
        AsrEventView::ResultGenerated {
            text: transcription_of(i1)->0.text,
            is_final: false,
        },
        AsrEventView::ResultGenerated {
            text: transcription_of(i2)->0.text,
            is_final: true,
        },
        AsrEventView::TaskFinished,
    ]);
}

/// The handshake request and the teardown request of a task bear the same
/// identifier.
pub proof fn requests_share_the_task_identifier(task_id: Seq<char>)
    ensures
        run_task_command(task_id).header.task_id == task_id,
        finish_task_command(task_id).header.task_id == task_id,
{
}

} // verus!
