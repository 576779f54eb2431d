//! The streaming session with the recognition service.

pub mod laws;
pub mod protocol;
pub mod request;
pub mod session;

pub use protocol::{
    AsrEvent, Event, Header, Input, Output, Parameters, Payload, Transcription, Translation, Word,
};
pub use request::{handshake_request, HeaderField, RequestError};
pub use session::{
    AsrClient, FailureKind, Notice, Outgoing, SessionError, SessionInput, SessionOutput,
    SessionState,
};
