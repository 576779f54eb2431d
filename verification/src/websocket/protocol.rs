//! The messages exchanged with the recognition service.
//!
//! Control messages and events share one envelope, [`Event`]: a [`Header`]
//! that carries the task identifier and the action or event name, and a
//! [`Payload`]. Each type has a view that replaces strings by sequences of
//! characters; the contracts of the session are stated over those views.

use vstd::prelude::*;

verus! {

/// `serde_json::Value`, the type of free-form header attributes. The session
/// never looks inside such a value; it is only carried along.
#[verifier::external_type_specification]
#[verifier::external_body]
pub struct ExJsonValue(serde_json::Value);

/// The characters of an optional string.
pub open spec fn opt_text(s: Option<String>) -> Option<Seq<char>> {
    match s {
        Some(t) => Some(t@),
        None => None,
    }
}

/// The character sequences of a list of strings.
pub open spec fn texts(v: Seq<String>) -> Seq<Seq<char>> {
    v.map_values(|s: String| s@)
}

#[derive(Debug, Clone)]
pub struct Header {
    pub action: Option<String>,
    pub task_id: String,
    pub streaming: Option<String>,
    pub event: Option<String>,
    pub error_code: Option<String>,
    pub error_message: Option<String>,
    pub attributes: Option<serde_json::Value>,
}

pub struct HeaderView {
    pub action: Option<Seq<char>>,
    pub task_id: Seq<char>,
    pub streaming: Option<Seq<char>>,
    pub event: Option<Seq<char>>,
    pub error_code: Option<Seq<char>>,
    pub error_message: Option<Seq<char>>,
    pub attributes: Option<serde_json::Value>,
}

impl View for Header {
    type V = HeaderView;

    open spec fn view(&self) -> HeaderView {
        HeaderView {
            action: opt_text(self.action),
            task_id: self.task_id@,
            streaming: opt_text(self.streaming),
            event: opt_text(self.event),
            error_code: opt_text(self.error_code),
            error_message: opt_text(self.error_message),
            attributes: self.attributes,
        }
    }
}

#[derive(Debug, Clone)]
pub struct Word {
    pub begin_time: i64,
    pub end_time: i64,
    pub text: String,
    pub punctuation: Option<String>,
    pub fixed: bool,
    pub speaker_id: Option<i32>,
}

pub struct WordView {
    pub begin_time: i64,
    pub end_time: i64,
    pub text: Seq<char>,
    pub punctuation: Option<Seq<char>>,
    pub fixed: bool,
    pub speaker_id: Option<i32>,
}

impl View for Word {
    type V = WordView;

    open spec fn view(&self) -> WordView {
        WordView {
            begin_time: self.begin_time,
            end_time: self.end_time,
            text: self.text@,
            punctuation: opt_text(self.punctuation),
            fixed: self.fixed,
            speaker_id: self.speaker_id,
        }
    }
}

/// One hypothesis for one sentence. `sentence_end` marks it as final.
#[derive(Debug, Clone)]
pub struct Transcription {
    pub sentence_id: i32,
    pub begin_time: i64,
    pub end_time: i64,
    pub text: String,
    pub words: Vec<Word>,
    pub sentence_end: bool,
}

pub struct TranscriptionView {
    pub sentence_id: i32,
    pub begin_time: i64,
    pub end_time: i64,
    pub text: Seq<char>,
    pub words: Seq<WordView>,
    pub sentence_end: bool,
}

impl View for Transcription {
    type V = TranscriptionView;

    open spec fn view(&self) -> TranscriptionView {
        TranscriptionView {
            sentence_id: self.sentence_id,
            begin_time: self.begin_time,
            end_time: self.end_time,
            text: self.text@,
            words: self.words@.map_values(|w: Word| w@),
            sentence_end: self.sentence_end,
        }
    }
}

#[derive(Debug, Clone)]
pub struct Translation {
    pub sentence_id: i32,
    pub begin_time: i64,
    pub end_time: i64,
    pub text: String,
    pub lang: String,
    pub pre_end_failed: bool,
    pub words: Vec<Word>,
    pub sentence_end: bool,
}

pub struct TranslationView {
    pub sentence_id: i32,
    pub begin_time: i64,
    pub end_time: i64,
    pub text: Seq<char>,
    pub lang: Seq<char>,
    pub pre_end_failed: bool,
    pub words: Seq<WordView>,
    pub sentence_end: bool,
}

impl View for Translation {
    type V = TranslationView;

    open spec fn view(&self) -> TranslationView {
        TranslationView {
            sentence_id: self.sentence_id,
            begin_time: self.begin_time,
            end_time: self.end_time,
            text: self.text@,
            lang: self.lang@,
            pre_end_failed: self.pre_end_failed,
            words: self.words@.map_values(|w: Word| w@),
            sentence_end: self.sentence_end,
        }
    }
}

#[derive(Debug, Clone)]
pub struct Output {
    pub translations: Vec<Translation>,
    pub transcription: Option<Transcription>,
}

pub struct OutputView {
    pub translations: Seq<TranslationView>,
    pub transcription: Option<TranscriptionView>,
}

impl View for Output {
    type V = OutputView;

    open spec fn view(&self) -> OutputView {
        OutputView {
            translations: self.translations@.map_values(|t: Translation| t@),
            transcription: match self.transcription {
                Some(t) => Some(t@),
                None => None,
            },
        }
    }
}

#[derive(Debug, Clone)]
pub struct Parameters {
    pub format: Option<String>,
    pub sample_rate: Option<i32>,
    pub vocabulary_id: Option<String>,
    pub language: Option<String>,
    pub translation_target_languages: Option<Vec<String>>,
    pub transcription_enabled: Option<bool>,
    pub translation_enabled: Option<bool>,
}

pub struct ParametersView {
    pub format: Option<Seq<char>>,
    pub sample_rate: Option<i32>,
    pub vocabulary_id: Option<Seq<char>>,
    pub language: Option<Seq<char>>,
    pub translation_target_languages: Option<Seq<Seq<char>>>,
    pub transcription_enabled: Option<bool>,
    pub translation_enabled: Option<bool>,
}

impl View for Parameters {
    type V = ParametersView;

    open spec fn view(&self) -> ParametersView {
        ParametersView {
            format: opt_text(self.format),
            sample_rate: self.sample_rate,
            vocabulary_id: opt_text(self.vocabulary_id),
            language: opt_text(self.language),
            translation_target_languages: match self.translation_target_languages {
                Some(l) => Some(texts(l@)),
                None => None,
            },
            transcription_enabled: self.transcription_enabled,
            translation_enabled: self.translation_enabled,
        }
    }
}

/// The input section of a control message. It has no fields.
#[derive(Debug, Clone)]
pub struct Input {}

impl Default for Input {
    fn default() -> (r: Input)
        ensures
            r == (Input {  }),
    {
        Input {  }
    }
}

#[derive(Debug, Clone)]
pub struct Payload {
    pub task_group: Option<String>,
    pub task: Option<String>,
    pub function: Option<String>,
    pub model: Option<String>,
    pub parameters: Option<Parameters>,
    pub input: Option<Input>,
    pub output: Option<Output>,
}

pub struct PayloadView {
    pub task_group: Option<Seq<char>>,
    pub task: Option<Seq<char>>,
    pub function: Option<Seq<char>>,
    pub model: Option<Seq<char>>,
    pub parameters: Option<ParametersView>,
    pub has_input: bool,
    pub output: Option<OutputView>,
}

impl View for Payload {
    type V = PayloadView;

    open spec fn view(&self) -> PayloadView {
        PayloadView {
            task_group: opt_text(self.task_group),
            task: opt_text(self.task),
            function: opt_text(self.function),
            model: opt_text(self.model),
            parameters: match self.parameters {
                Some(p) => Some(p@),
                None => None,
            },
            has_input: self.input is Some,
            output: match self.output {
                Some(o) => Some(o@),
                None => None,
            },
        }
    }
}

/// The envelope of every control message and every event.
#[derive(Debug, Clone)]
pub struct Event {
    pub header: Header,
    pub payload: Payload,
}

pub struct EventView {
    pub header: HeaderView,
    pub payload: PayloadView,
}

impl View for Event {
    type V = EventView;

    open spec fn view(&self) -> EventView {
        EventView { header: self.header@, payload: self.payload@ }
    }
}

/// What the session reports to its caller.
#[derive(Debug, Clone, PartialEq, Eq)]
pub enum AsrEvent {
    TaskStarted,
    ResultGenerated { text: String, is_final: bool },
    TaskFinished,
    TaskFailed { error: String },
}

pub enum AsrEventView {
    TaskStarted,
    ResultGenerated { text: Seq<char>, is_final: bool },
    TaskFinished,
    TaskFailed { error: Seq<char> },
}

impl View for AsrEvent {
    type V = AsrEventView;

    open spec fn view(&self) -> AsrEventView {
        match self {
            AsrEvent::TaskStarted => AsrEventView::TaskStarted,
            AsrEvent::ResultGenerated { text, is_final } => AsrEventView::ResultGenerated {
                text: text@,
                is_final: *is_final,
            },
            AsrEvent::TaskFinished => AsrEventView::TaskFinished,
            AsrEvent::TaskFailed { error } => AsrEventView::TaskFailed { error: error@ },
        }
    }
}

/// The sample rate announced to the service, in hertz.
pub const CANONICAL_SAMPLE_RATE: i32 = 16000;

/// The header of a control message with the given action for the given task.
pub open spec fn command_header(action: Seq<char>, task_id: Seq<char>) -> HeaderView {
    HeaderView {
        action: Some(action),
        task_id,
        streaming: Some("duplex"@),
        event: None,
        error_code: None,
        error_message: None,
        attributes: None,
    }
}

/// The handshake request: it starts a duplex recognition task on 16 kHz PCM
/// audio in English, with transcription on and translation off.
pub open spec fn run_task_command(task_id: Seq<char>) -> EventView {
    EventView {
        header: command_header("run-task"@, task_id),
        payload: PayloadView {
            task_group: Some("audio"@),
            task: Some("asr"@),
            function: Some("recognition"@),
            model: Some("gummy-realtime-v1"@),
            parameters: Some(
                ParametersView {
                    format: Some("pcm"@),
                    sample_rate: Some(CANONICAL_SAMPLE_RATE),
                    vocabulary_id: None,
                    language: Some("en"@),
                    translation_target_languages: None,
                    transcription_enabled: Some(true),
                    translation_enabled: Some(false),
                },
            ),
            has_input: true,
            output: None,
        },
    }
}

/// The teardown request for the given task.
pub open spec fn finish_task_command(task_id: Seq<char>) -> EventView {
    EventView {
        header: command_header("finish-task"@, task_id),
        payload: PayloadView {
            task_group: None,
            task: None,
            function: None,
            model: None,
            parameters: None,
            has_input: true,
            output: None,
        },
    }
}

/// Builds the handshake request for `task_id`.
pub fn run_task_cmd(task_id: String) -> (cmd: Event)
    ensures
        cmd@ == run_task_command(task_id@),
{
    Event {
        header: Header {
            action: Some("run-task".to_string()),
            task_id,
            streaming: Some("duplex".to_string()),
            event: None,
            error_code: None,
            error_message: None,
            attributes: None,
        },
        payload: Payload {
            task_group: Some("audio".to_string()),
            task: Some("asr".to_string()),
            function: Some("recognition".to_string()),
            model: Some("gummy-realtime-v1".to_string()),
            parameters: Some(
                Parameters {
                    format: Some("pcm".to_string()),
                    sample_rate: Some(CANONICAL_SAMPLE_RATE),
                    vocabulary_id: None,
                    language: Some("en".to_string()),
                    translation_target_languages: None,
                    transcription_enabled: Some(true),
                    translation_enabled: Some(false),
                },
            ),
            input: Some(Input {  }),
            output: None,
        },
    }
}

/// Builds the teardown request for `task_id`.
pub fn finish_task_cmd(task_id: String) -> (cmd: Event)
    ensures
        cmd@ == finish_task_command(task_id@),
{
    Event {
        header: Header {
            action: Some("finish-task".to_string()),
            task_id,
            streaming: Some("duplex".to_string()),
            event: None,
            error_code: None,
            error_message: None,
            attributes: None,
        },
        payload: Payload {
            task_group: None,
            task: None,
            function: None,
            model: None,
            parameters: None,
            input: Some(Input {  }),
            output: None,
        },
    }
}

} // verus!
