//! Planning of audio capture: negotiation of the device format and the
//! path from the samples of a device to encoded chunks.

pub mod capture;
pub mod chunk;
pub mod downmix;
pub mod format;
pub mod pcm;
pub mod pipeline;
pub mod resample;

pub use capture::{
    find_best_config, AudioCapture, CaptureConfig, CaptureError, CapturePlan, InputDevice,
    StreamFormat, SupportedConfigRange,
};
pub use chunk::ChunkBuffer;
pub use format::{SampleFormat, SampleKind, SampleLayout};
pub use pipeline::{process_audio_samples, CapturePipeline, SampleOps};
pub use resample::{SimpleResampler, Tap};
