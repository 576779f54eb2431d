//! Live speech to text: audio capture planning and the streaming session
//! with the recognition service.

pub mod audio;
pub mod control;
pub mod hotkey;
pub mod input;
pub mod websocket;
