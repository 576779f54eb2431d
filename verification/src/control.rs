//! The decisions of the program around capture and session: what to do with
//! each event of the session, and when silence has lasted long enough.

use vstd::prelude::*;
use crate::websocket::protocol::{AsrEvent, AsrEventView};

verus! {

/// The number of seconds without speech after which recording stops.
pub const MAX_SILENCE_SECONDS: u64 = 60;

/// The number of seconds of silence between two reports of it.
pub const SILENCE_REPORT_SECONDS: u64 = 10;

/// What the consumer of the session's events does with one event.
#[derive(Debug, Clone, PartialEq, Eq)]
pub struct Reaction {
    /// Speech was detected.
    pub speech: bool,
    /// The text to type.
    pub text: Option<String>,
    /// The session is over: there will be no more events.
    pub done: bool,
}

pub struct ReactionView {
    pub speech: bool,
    pub text: Option<Seq<char>>,
    pub done: bool,
}

impl View for Reaction {
    type V = ReactionView;

    open spec fn view(&self) -> ReactionView {
        ReactionView {
            speech: self.speech,
            text: match self.text {
                Some(t) => Some(t@),
                None => None,
            },
            done: self.done,
        }
    }
}

/// Every result is speech; only a final one is typed. The end of the task,
/// good or bad, ends the consumer.
pub open spec fn spec_react(event: AsrEventView) -> ReactionView {
    match event {
        AsrEventView::TaskStarted => ReactionView { speech: false, text: None, done: false },
        AsrEventView::ResultGenerated { text, is_final } => ReactionView {
            speech: true,
            text: if is_final {
                Some(text)
            } else {
                None
            },
            done: false,
        },
        AsrEventView::TaskFinished => ReactionView { speech: false, text: None, done: true },
        AsrEventView::TaskFailed { error } => ReactionView { speech: false, text: None, done: true },
    }
}

/// What to do with an event of the session.
pub fn react(event: AsrEvent) -> (reaction: Reaction)
    ensures
        reaction@ == spec_react(event@),
{
    match event {
        AsrEvent::TaskStarted => Reaction { speech: false, text: None, done: false },
        AsrEvent::ResultGenerated { text, is_final } => Reaction {
            speech: true,
            text: if is_final {
                Some(text)
            } else {
                None
            },
            done: false,
        },
        AsrEvent::TaskFinished => Reaction { speech: false, text: None, done: true },
        AsrEvent::TaskFailed { error } => Reaction { speech: false, text: None, done: true },
    }
}

/// What to do after a look at the clock.
#[derive(Debug, Clone, Copy, PartialEq, Eq, Structural)]
pub enum SilenceAction {
    Continue,
    /// Say how long the silence has lasted, and go on.
    Report,
    /// Stop recording.
    Stop,
}

pub open spec fn spec_check_silence(silence_seconds: u64) -> SilenceAction {
    if silence_seconds >= MAX_SILENCE_SECONDS {
        SilenceAction::Stop
    } else if silence_seconds > 0 && silence_seconds % SILENCE_REPORT_SECONDS == 0 {
        SilenceAction::Report
    } else {
        SilenceAction::Continue
    }
}

/// Decides what to do when no speech was detected for `silence_seconds`
/// whole seconds.
pub fn check_silence(silence_seconds: u64) -> (action: SilenceAction)
    ensures
        action == spec_check_silence(silence_seconds),
{
    if silence_seconds >= MAX_SILENCE_SECONDS {
        SilenceAction::Stop
    } else if silence_seconds > 0 && silence_seconds % SILENCE_REPORT_SECONDS == 0 {
        SilenceAction::Report
    } else {
        SilenceAction::Continue
    }
}

/// Whether a program that types text is installed. The clipboard does not
/// count.
pub fn found_input_tool(wtype_available: bool, ydotool_available: bool) -> (found: bool)
    ensures
        found == (wtype_available || ydotool_available),
{
    wtype_available || ydotool_available
}

} // verus!
