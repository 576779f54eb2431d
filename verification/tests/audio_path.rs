use audio2text::audio::capture::samples_per_chunk;
use audio2text::audio::chunk::ChunkBuffer;
use audio2text::audio::downmix::{downmix, frame, frame_count, Frame};
use audio2text::audio::format::{SampleFormat, SampleKind};
use audio2text::audio::pcm::{encode_pcm16le, encode_sample, encode_samples, quantize_samples};
use audio2text::audio::pipeline::{process_audio_samples, CapturePipeline, SampleOps};
use audio2text::audio::resample::{SimpleResampler, Tap};
use audio2text::audio::CaptureConfig;

fn plus(a: f32, b: f32) -> f32 {
    a + b
}

fn divide(a: f32, n: u16) -> f32 {
    a / n as f32
}

fn blend(a: f32, b: f32, n: u32, d: u32) -> f32 {
    let w = (n as f64 / d as f64) as f32;
    a * (1.0 - w) + b * w
}

fn quantize(s: f32) -> i16 {
    (s.clamp(-1.0, 1.0) * 32767.0) as i16
}

fn ops() -> SampleOps<f32, fn(f32, f32) -> f32, fn(f32, u16) -> f32, fn(f32, f32, u32, u32) -> f32, fn(f32) -> i16>
{
    SampleOps { zero: 0.0, plus, divide, blend, quantize }
}

fn config(sample_rate: u32, channels: u16) -> CaptureConfig {
    CaptureConfig {
        device: String::from("test"),
        sample_rate,
        channels,
        sample_format: SampleFormat::F32,
    }
}

#[test]
fn resampler_with_equal_rates_returns_the_input() {
    let r = SimpleResampler::new(16000, 16000);
    assert!(r.is_identity());
    let input = vec![0.25f32, -0.5, 1.0, f32::MAX, -0.0];
    let out = r.resample(&input, 0.0, &blend);
    assert_eq!(out.len(), input.len());
    for (a, b) in out.iter().zip(input.iter()) {
        assert_eq!(a.to_bits(), b.to_bits());
    }
    assert_eq!(r.output_len(7), 7);
    assert_eq!(r.tap(7, 3), Tap::Single { index: 3 });
}

#[test]
fn resampler_480_samples_at_48k_give_160_at_16k() {
    let r = SimpleResampler::new(48000, 16000);
    assert!(!r.is_identity());
    assert_eq!(r.output_len(480), 160);
    let input = vec![0.5f32; 480];
    assert_eq!(r.resample(&input, 0.0, &blend).len(), 160);
}

#[test]
fn resampler_halving_two_samples_gives_the_first() {
    let r = SimpleResampler::new(32000, 16000);
    assert_eq!(r.output_len(2), 1);
    assert_eq!(r.tap(2, 0), Tap::Blend { index: 0, weight_num: 0, weight_den: 16000 });
    let out = r.resample(&[0.0f32, 1.0], 0.0, &blend);
    assert_eq!(out, vec![0.0f32]);
}

#[test]
fn resampler_taps_carry_the_fraction_of_the_position() {
    // 3 samples at 2 Hz to 3 Hz: positions 0, 2/3, 4/3, 2 of the input.
    let r = SimpleResampler::new(2, 3);
    assert_eq!(r.output_len(3), 4);
    assert_eq!(r.tap(3, 0), Tap::Blend { index: 0, weight_num: 0, weight_den: 3 });
    assert_eq!(r.tap(3, 1), Tap::Blend { index: 0, weight_num: 2, weight_den: 3 });
    assert_eq!(r.tap(3, 2), Tap::Blend { index: 1, weight_num: 1, weight_den: 3 });
    assert_eq!(r.tap(3, 3), Tap::Single { index: 2 });
    assert_eq!(r.tap(3, 5), Tap::Silence);
    let out = r.resample(&[0.0f32, 3.0, 6.0], 0.0, &blend);
    assert_eq!(out.len(), 4);
    assert_eq!(out[0], 0.0);
    assert!((out[1] - 2.0).abs() < 1e-5);
    assert!((out[2] - 4.0).abs() < 1e-5);
    assert_eq!(out[3], 6.0);
}

#[test]
fn resampler_to_rate_zero_gives_nothing() {
    let r = SimpleResampler::new(48000, 0);
    assert_eq!(r.output_len(480), 0);
    assert_eq!(r.tap(480, 0), Tap::Silence);
}

#[test]
fn downmix_of_a_stereo_frame_is_the_average() {
    assert_eq!(downmix(&[1.0f32, -1.0], 2, 0.0, &plus, &divide), vec![0.0f32]);
    assert_eq!(downmix(&[0.5f32, 0.25, -1.0, 0.0], 2, 0.0, &plus, &divide), vec![0.375f32, -0.5]);
}

#[test]
fn downmix_of_a_stereo_frame_without_second_sample_halves_the_first() {
    assert_eq!(downmix(&[1.0f32], 2, 0.0, &plus, &divide), vec![0.5f32]);
    assert_eq!(downmix(&[1.0f32, 1.0, 1.0], 2, 0.0, &plus, &divide), vec![1.0f32, 0.5]);
}

#[test]
fn downmix_of_mono_is_the_input() {
    let input = vec![0.1f32, -0.2, 0.3];
    assert_eq!(downmix(&input, 1, 0.0, &plus, &divide), input);
    assert_eq!(downmix(&input, 0, 0.0, &plus, &divide), input);
}

#[test]
fn downmix_of_many_channels_is_the_mean_over_the_channel_count() {
    let input = vec![3.0f32, 6.0, 9.0, 3.0, 3.0];
    assert_eq!(downmix(&input, 3, 0.0, &plus, &divide), vec![6.0f32, 2.0]);
}

#[test]
fn frames_cover_the_input_in_order() {
    assert_eq!(frame_count(0, 2), 0);
    assert_eq!(frame_count(5, 2), 3);
    assert_eq!(frame_count(6, 3), 2);
    assert_eq!(frame_count(4, 1), 4);
    assert_eq!(frame_count(4, 0), 4);
    assert_eq!(frame(5, 2, 0), Frame { start: 0, end: 2, divisor: 2 });
    assert_eq!(frame(5, 2, 1), Frame { start: 2, end: 4, divisor: 2 });
    assert_eq!(frame(5, 2, 2), Frame { start: 4, end: 5, divisor: 2 });
    assert_eq!(frame(4, 0, 3), Frame { start: 3, end: 4, divisor: 1 });
}

#[test]
fn pcm_clamps_and_encodes_full_scale() {
    assert_eq!(quantize_samples(&[1.5f32, -2.0], &quantize), vec![32767i16, -32767]);
    assert_eq!(encode_samples(&[1.5f32], &quantize), vec![0xFF, 0x7F]);
    assert_eq!(encode_samples(&[-2.0f32], &quantize), vec![0x01, 0x80]);
}

#[test]
fn pcm_bytes_are_little_endian_twos_complement() {
    assert_eq!(encode_sample(32767), [0xFF, 0x7F]);
    assert_eq!(encode_sample(-32767), [0x01, 0x80]);
    assert_eq!(encode_sample(-32768), [0x00, 0x80]);
    assert_eq!(encode_sample(-1), [0xFF, 0xFF]);
    assert_eq!(encode_sample(0), [0, 0]);
    assert_eq!(encode_sample(0x1234), [0x34, 0x12]);
    for s in [i16::MIN, -12345, -256, -1, 0, 1, 255, 256, 12345, i16::MAX] {
        assert_eq!(encode_sample(s), s.to_le_bytes());
    }
    assert_eq!(encode_pcm16le(&[1, -2, 0x0102]), vec![1, 0, 0xFE, 0xFF, 2, 1]);
    assert_eq!(encode_pcm16le(&[]), Vec::<u8>::new());
}

#[test]
fn pcm_truncates_toward_zero() {
    assert_eq!(quantize_samples(&[0.5f32, -0.5, 0.00001, -0.00001], &quantize), vec![16383i16, -16383, 0, 0]);
}

#[test]
fn chunk_buffer_hands_out_whole_chunks_oldest_first() {
    let mut buffer: ChunkBuffer<i32> = ChunkBuffer::new(3);
    assert_eq!(buffer.chunk_len(), 3);
    assert_eq!(buffer.take_chunk(), None);
    buffer.push(1);
    buffer.extend(vec![2, 3, 4]);
    assert_eq!(buffer.len(), 4);
    assert_eq!(buffer.take_chunk(), Some(vec![1, 2, 3]));
    assert_eq!(buffer.take_chunk(), None);
    assert_eq!(buffer.len(), 1);
    buffer.extend(vec![5, 6, 7, 8, 9]);
    assert_eq!(buffer.take_chunks(), vec![vec![4, 5, 6], vec![7, 8, 9]]);
    assert_eq!(buffer.len(), 0);
    buffer.extend(vec![10, 11]);
    assert_eq!(buffer.take_chunks(), Vec::<Vec<i32>>::new());
    assert_eq!(buffer.len(), 2);
}

#[test]
fn chunk_is_a_tenth_of_a_second_of_samples() {
    assert_eq!(samples_per_chunk(16000), 1600);
    assert_eq!(samples_per_chunk(48000), 4800);
    assert_eq!(samples_per_chunk(44100), 4410);
    assert_eq!(samples_per_chunk(9), 0);
    assert_eq!(samples_per_chunk(u32::MAX), 429496729);
}

#[test]
fn one_second_of_silence_at_48k_gives_ten_chunks_of_3200_zero_bytes() {
    let mut pipeline: CapturePipeline<f32> = CapturePipeline::new(&config(48000, 1)).unwrap();
    let ops = ops();
    let mut chunks: Vec<Vec<u8>> = Vec::new();
    // The device delivers its second of audio in callbacks of 1000 samples.
    for _ in 0..48 {
        chunks.extend(pipeline.on_callback(true, &[0.0f32; 1000], &ops));
    }
    assert_eq!(chunks.len(), 10);
    for chunk in &chunks {
        assert_eq!(chunk.len(), 3200);
        assert!(chunk.iter().all(|b| *b == 0));
    }
    assert_eq!(pipeline.pending_len(), 0);
}

#[test]
fn samples_delivered_after_stop_are_discarded() {
    let mut pipeline: CapturePipeline<f32> = CapturePipeline::new(&config(16000, 1)).unwrap();
    let ops = ops();
    assert!(pipeline.on_callback(true, &[0.0f32; 1000], &ops).is_empty());
    assert_eq!(pipeline.pending_len(), 1000);
    assert!(pipeline.on_callback(false, &[0.0f32; 1000], &ops).is_empty());
    assert_eq!(pipeline.pending_len(), 1000);
    let chunks = pipeline.on_callback(true, &[0.0f32; 1000], &ops);
    assert_eq!(chunks.len(), 1);
    assert_eq!(chunks[0].len(), 3200);
    assert_eq!(pipeline.pending_len(), 400);
}

#[test]
fn pipeline_keeps_the_order_of_the_samples() {
    // Stereo at 20 Hz: a chunk is two frames, and 16 kHz is 800 times as fast.
    let mut buffer: ChunkBuffer<f32> = ChunkBuffer::new(2);
    let resampler = None;
    let ops = ops();
    let stereo = [1.0f32, 1.0, -1.0, -1.0, 0.5, 0.5, 0.0, 0.0, 0.25, 0.25];
    let chunks = process_audio_samples(&stereo, 2, &mut buffer, &resampler, &ops);
    assert_eq!(chunks.len(), 2);
    assert_eq!(chunks[0], vec![0xFF, 0x7F, 0x01, 0x80]);
    assert_eq!(chunks[1], encode_pcm16le(&[16383, 0]));
    assert_eq!(buffer.len(), 1);
    let chunks = process_audio_samples(&[-0.25f32, -0.25], 2, &mut buffer, &resampler, &ops);
    assert_eq!(chunks, vec![encode_pcm16le(&[8191, -8191])]);
}

#[test]
fn pipeline_needs_a_chunk_of_at_least_one_sample() {
    assert!(CapturePipeline::<f32>::new(&config(9, 1)).is_none());
    assert!(CapturePipeline::<f32>::new(&config(10, 1)).is_some());
}

#[test]
fn layouts_of_the_sample_formats() {
    let l = SampleFormat::I16.layout().unwrap();
    assert_eq!((l.kind, l.bits, l.midpoint, l.magnitude), (SampleKind::Signed, 16, 0, 32768));
    let l = SampleFormat::U8.layout().unwrap();
    assert_eq!((l.kind, l.bits, l.midpoint, l.magnitude), (SampleKind::Unsigned, 8, 128, 128));
    let l = SampleFormat::U64.layout().unwrap();
    assert_eq!((l.kind, l.bits, l.midpoint, l.magnitude), (SampleKind::Unsigned, 64, 1 << 63, 1 << 63));
    let l = SampleFormat::F64.layout().unwrap();
    assert_eq!((l.kind, l.bits, l.midpoint, l.magnitude), (SampleKind::Float, 64, 0, 1));
    assert_eq!(SampleFormat::I32.layout().unwrap().magnitude, 1 << 31);
    assert!(SampleFormat::Other.layout().is_none());
}

#[test]
fn centered_samples_lie_within_the_magnitude() {
    assert_eq!(SampleFormat::U8.centered(0), Some(-128));
    assert_eq!(SampleFormat::U8.centered(255), Some(127));
    assert_eq!(SampleFormat::U16.centered(32768), Some(0));
    assert_eq!(SampleFormat::I8.centered(-128), Some(-128));
    assert_eq!(SampleFormat::I8.centered(127), Some(127));
    assert_eq!(SampleFormat::I64.centered(i64::MIN as i128), Some(i64::MIN));
    assert_eq!(SampleFormat::U64.centered(u64::MAX as i128), Some(i64::MAX));
    assert_eq!(SampleFormat::U32.centered(0), Some(-(1i64 << 31)));
}

#[test]
fn values_outside_a_format_have_no_centered_sample() {
    assert_eq!(SampleFormat::U8.centered(256), None);
    assert_eq!(SampleFormat::U8.centered(-1), None);
    assert_eq!(SampleFormat::I8.centered(128), None);
    assert_eq!(SampleFormat::I8.centered(-129), None);
    assert_eq!(SampleFormat::F32.centered(0), None);
    assert_eq!(SampleFormat::Other.centered(0), None);
}
