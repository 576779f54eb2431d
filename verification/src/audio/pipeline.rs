//! The path of the samples of one device callback: down-mix to mono,
//! accumulate, cut into chunks, convert each chunk to the target rate and
//! encode it.
//!
//! The path is the same for every kind of sample. What differs, the
//! arithmetic on samples, comes in as [`SampleOps`].

use vstd::prelude::*;
use crate::audio::capture::{
    samples_per_chunk, spec_samples_per_chunk, CaptureConfig, TARGET_SAMPLE_RATE,
};
use crate::audio::chunk::{chunk_at, leftover, ChunkBuffer};
use crate::audio::downmix::{downmix, is_downmix};
use crate::audio::pcm::{encode_samples, is_encoding};
use crate::audio::resample::{is_resampled, spec_output_len, SimpleResampler};

verus! {

/// The arithmetic on samples of type `T`.
pub struct SampleOps<T, A, D, B, Q> {
    /// Silence.
    pub zero: T,
    /// The sum of two samples.
    pub plus: A,
    /// A sample divided by a count.
    pub divide: D,
    /// `blend(a, b, n, d)` is `a * (1 - n / d) + b * (n / d)`.
    pub blend: B,
    /// The sample clamped to the range from -1 to 1, scaled by 32767, its
    /// fraction cut off.
    pub quantize: Q,
}

impl<
    T,
    A: Fn(T, T) -> T,
    D: Fn(T, u16) -> T,
    B: Fn(T, T, u32, u32) -> T,
    Q: Fn(T) -> i16,
> SampleOps<T, A, D, B, Q> {
    /// Each operation can be called on whatever samples there are.
    pub open spec fn total(&self) -> bool {
        &&& forall|a: T, b: T| call_requires(self.plus, (a, b))
        &&& forall|a: T, n: u16| call_requires(self.divide, (a, n))
        &&& forall|a: T, b: T, n: u32, d: u32| call_requires(self.blend, (a, b, n, d))
        &&& forall|s: T| call_requires(self.quantize, (s,))
    }
}

/// Whether the resampler can convert chunks of `chunk_len` samples.
pub open spec fn fits(resampler: Option<SimpleResampler>, chunk_len: nat) -> bool {
    match resampler {
        Some(r) => (r.source_rate() > 0 || r.target_rate() == 0) && spec_output_len(
            r.source_rate(),
            r.target_rate(),
            chunk_len as int,
        ) <= usize::MAX,
        None => true,
    }
}

/// Whether `bytes` is an encoding of `chunk`: of its conversion to the
/// target rate where there is a resampler, of the chunk itself where there
/// is none.
pub open spec fn is_encoded_chunk<T, B: Fn(T, T, u32, u32) -> T, Q: Fn(T) -> i16>(
    chunk: Seq<T>,
    resampler: Option<SimpleResampler>,
    silence: T,
    blend: B,
    quantize: Q,
    bytes: Seq<u8>,
) -> bool {
    match resampler {
        Some(r) => exists|converted: Seq<T>| #[trigger]
            is_resampled(r.source_rate(), r.target_rate(), chunk, silence, blend, converted)
                && is_encoding(converted, quantize, bytes),
        None => is_encoding(chunk, quantize, bytes),
    }
}

/// Whether `chunks` and `after` are what becomes of a buffer that held
/// `before` when the mono samples `mono` arrive: every whole chunk of the
/// samples then waiting comes out encoded, oldest first, and the rest stays.
pub open spec fn is_drained<T, B: Fn(T, T, u32, u32) -> T, Q: Fn(T) -> i16>(
    before: Seq<T>,
    mono: Seq<T>,
    chunk_len: nat,
    resampler: Option<SimpleResampler>,
    silence: T,
    blend: B,
    quantize: Q,
    chunks: Seq<Vec<u8>>,
    after: Seq<T>,
) -> bool {
    let all = before + mono;
    &&& after == leftover(all, chunk_len)
    &&& chunks.len() == all.len() / chunk_len
    &&& forall|k: int|
        0 <= k < chunks.len() ==> is_encoded_chunk(
            chunk_at(all, chunk_len, k),
            resampler,
            silence,
            blend,
            quantize,
            (#[trigger] chunks[k])@,
        )
}

/// The number of samples of a chunk of `chunk_len` samples after its
/// conversion, if there is one.
pub open spec fn converted_len(resampler: Option<SimpleResampler>, chunk_len: nat) -> int {
    match resampler {
        Some(r) => spec_output_len(r.source_rate(), r.target_rate(), chunk_len as int),
        None => chunk_len as int,
    }
}

/// An encoded chunk has two bytes for each sample of the converted chunk.
pub proof fn encoded_chunk_length<T, B: Fn(T, T, u32, u32) -> T, Q: Fn(T) -> i16>(
    chunk: Seq<T>,
    resampler: Option<SimpleResampler>,
    silence: T,
    blend: B,
    quantize: Q,
    bytes: Seq<u8>,
)
    requires
        is_encoded_chunk(chunk, resampler, silence, blend, quantize, bytes),
    ensures
        bytes.len() == 2 * converted_len(resampler, chunk.len()),
{
}

/// A chunk is a tenth of a second: converted to the target rate it never
/// has more than 1600 samples, and it has exactly 1600, which encode to 3200
/// bytes, where the rate of the device is a multiple of ten.
pub proof fn chunk_is_a_tenth_of_a_second(sample_rate: u32)
    requires
        sample_rate > 0,
    ensures
        spec_output_len(sample_rate, TARGET_SAMPLE_RATE, spec_samples_per_chunk(sample_rate))
            <= 1600,
        sample_rate % 10 == 0 ==> spec_output_len(
            sample_rate,
            TARGET_SAMPLE_RATE,
            spec_samples_per_chunk(sample_rate),
        ) == 1600,
{
    let rate = sample_rate as int;
    let n = spec_samples_per_chunk(sample_rate);
    if sample_rate != TARGET_SAMPLE_RATE {
        assert(n * 16000 / rate <= 1600) by (nonlinear_arith)
            requires
                n == rate * 100 / 1000,
                rate > 0,
        ;
        if sample_rate % 10 == 0 {
            assert(n * 16000 / rate == 1600) by (nonlinear_arith)
                requires
                    n == rate * 100 / 1000,
                    rate > 0,
                    rate % 10 == 0,
            ;
        }
    }
}

/// Converts one chunk to the target rate, if need be, and encodes it.
pub fn encode_chunk<T: Copy, B: Fn(T, T, u32, u32) -> T, Q: Fn(T) -> i16>(
    chunk: &[T],
    resampler: &Option<SimpleResampler>,
    silence: T,
    blend: &B,
    quantize: &Q,
) -> (bytes: Vec<u8>)
    requires
        fits(*resampler, chunk@.len()),
        forall|a: T, b: T, n: u32, d: u32| call_requires(*blend, (a, b, n, d)),
        forall|s: T| call_requires(*quantize, (s,)),
    ensures
        is_encoded_chunk(chunk@, *resampler, silence, *blend, *quantize, bytes@),
{
    match resampler {
        Some(r) => {
            let converted = r.resample(chunk, silence, blend);
            encode_samples(converted.as_slice(), quantize)
        },
        None => encode_samples(chunk, quantize),
    }
}

/// Takes the samples of one device callback through the path. Returns the
/// encoded chunks that became due, oldest first; fewer samples than one
/// chunk stay in the buffer.
pub fn process_audio_samples<
    T: Copy,
    A: Fn(T, T) -> T,
    D: Fn(T, u16) -> T,
    B: Fn(T, T, u32, u32) -> T,
    Q: Fn(T) -> i16,
>(
    samples: &[T],
    source_channels: u16,
    buffer: &mut ChunkBuffer<T>,
    resampler: &Option<SimpleResampler>,
    ops: &SampleOps<T, A, D, B, Q>,
) -> (chunks: Vec<Vec<u8>>)
    requires
        old(buffer).spec_chunk_len() > 0,
        fits(*resampler, old(buffer).spec_chunk_len()),
        ops.total(),
    ensures
        final(buffer).spec_chunk_len() == old(buffer).spec_chunk_len(),
        final(buffer)@.len() < old(buffer).spec_chunk_len(),
        exists|mono: Seq<T>| #[trigger]
            is_downmix(samples@, source_channels, ops.zero, ops.plus, ops.divide, mono)
                && is_drained(
                old(buffer)@,
                mono,
                old(buffer).spec_chunk_len(),
                *resampler,
                ops.zero,
                ops.blend,
                ops.quantize,
                chunks@,
                final(buffer)@,
            ),
{
    let mono = downmix(samples, source_channels, ops.zero, &ops.plus, &ops.divide);
    let ghost arrived = mono@;
    buffer.extend(mono);
    let ghost all = buffer@;
    let ghost n = buffer.spec_chunk_len();
    let raw = buffer.take_chunks();
    let mut chunks: Vec<Vec<u8>> = Vec::new();
    let mut k: usize = 0;
    proof {
        assert forall|j: int| 0 <= j < raw@.len() implies chunk_at(all, n, j).len() == n by {
            assert(0 <= j * n && j * n + n <= all.len()) by (nonlinear_arith)
                requires
                    0 <= j < all.len() / n,
                    n > 0,
            ;
        }
    }
    while k < raw.len()
        invariant
            k <= raw.len(),
            chunks@.len() == k,
            n > 0,
            fits(*resampler, n),
            ops.total(),
            forall|j: int| 0 <= j < raw@.len() ==> (#[trigger] raw@[j])@ == chunk_at(all, n, j),
            forall|j: int| 0 <= j < raw@.len() ==> chunk_at(all, n, j).len() == n,
            forall|j: int|
                0 <= j < k ==> is_encoded_chunk(
                    chunk_at(all, n, j),
                    *resampler,
                    ops.zero,
                    ops.blend,
                    ops.quantize,
                    (#[trigger] chunks@[j])@,
                ),
        decreases raw.len() - k,
    {
        let bytes = encode_chunk(
            raw[k].as_slice(),
            resampler,
            ops.zero,
            &ops.blend,
            &ops.quantize,
        );
        chunks.push(bytes);
        k += 1;
    }
    assert(is_drained(
        old(buffer)@,
        arrived,
        n,
        *resampler,
        ops.zero,
        ops.blend,
        ops.quantize,
        chunks@,
        buffer@,
    ));
    chunks
}

/// The state of the path between two callbacks of one capture session: the
/// channel count of the device, the samples that have not filled a chunk
/// yet, and the converter to the target rate, if one is needed.
pub struct CapturePipeline<T> {
    channels: u16,
    buffer: ChunkBuffer<T>,
    resampler: Option<SimpleResampler>,
}

impl<T: Copy> CapturePipeline<T> {
    /// The mono samples waiting for a chunk to fill.
    pub closed spec fn pending(&self) -> Seq<T> {
        self.buffer@
    }

    pub closed spec fn channels(&self) -> u16 {
        self.channels
    }

    pub closed spec fn chunk_len(&self) -> nat {
        self.buffer.spec_chunk_len()
    }

    pub closed spec fn resampler(&self) -> Option<SimpleResampler> {
        self.resampler
    }

    /// A chunk holds at least one sample, and the converter can convert a
    /// chunk.
    pub open spec fn wf(&self) -> bool {
        self.chunk_len() > 0 && fits(self.resampler(), self.chunk_len())
    }

    /// The pipeline for a capture session in the format `config`. There is
    /// none if a chunk at the rate of the device would hold no sample.
    pub fn new(config: &CaptureConfig) -> (pipeline: Option<CapturePipeline<T>>)
        ensures
            pipeline is None <==> spec_samples_per_chunk(config.sample_rate) == 0,
            pipeline matches Some(p) ==> {
                &&& p.wf()
                &&& p.pending() == Seq::<T>::empty()
                &&& p.channels() == config.channels
                &&& p.chunk_len() == spec_samples_per_chunk(config.sample_rate)
                &&& p.resampler() is Some == (config.sample_rate != TARGET_SAMPLE_RATE)
                &&& p.resampler() matches Some(r) ==> r.source_rate() == config.sample_rate
                    && r.target_rate() == TARGET_SAMPLE_RATE
            },
    {
        let chunk_len = samples_per_chunk(config.sample_rate);
        if chunk_len == 0 {
            return None;
        }
        let resampler = if config.sample_rate != TARGET_SAMPLE_RATE {
            Some(SimpleResampler::new(config.sample_rate, TARGET_SAMPLE_RATE))
        } else {
            None
        };
        proof {
            let rate = config.sample_rate as int;
            let n = chunk_len as int;
            assert(rate > 0 && n * 16000 / rate <= 1600) by (nonlinear_arith)
                requires
                    n == rate * 100 / 1000,
                    n > 0,
                    rate >= 0,
            ;
        }
        Some(CapturePipeline { channels: config.channels, buffer: ChunkBuffer::new(chunk_len), resampler })
    }

    /// The number of mono samples waiting.
    pub fn pending_len(&self) -> (n: usize)
        ensures
            n == self.pending().len(),
    {
        self.buffer.len()
    }

    /// Takes the samples of one device callback through the path. Returns
    /// the encoded chunks that became due, oldest first.
    pub fn process<A: Fn(T, T) -> T, D: Fn(T, u16) -> T, B: Fn(T, T, u32, u32) -> T, Q: Fn(T) -> i16>(
        &mut self,
        samples: &[T],
        ops: &SampleOps<T, A, D, B, Q>,
    ) -> (chunks: Vec<Vec<u8>>)
        requires
            old(self).wf(),
            ops.total(),
        ensures
            final(self).wf(),
            final(self).channels() == old(self).channels(),
            final(self).chunk_len() == old(self).chunk_len(),
            final(self).resampler() == old(self).resampler(),
            final(self).pending().len() < final(self).chunk_len(),
            exists|mono: Seq<T>| #[trigger]
                is_downmix(samples@, old(self).channels(), ops.zero, ops.plus, ops.divide, mono)
                    && is_drained(
                    old(self).pending(),
                    mono,
                    old(self).chunk_len(),
                    old(self).resampler(),
                    ops.zero,
                    ops.blend,
                    ops.quantize,
                    chunks@,
                    final(self).pending(),
                ),
    {
        process_audio_samples(samples, self.channels, &mut self.buffer, &self.resampler, ops)
    }

    /// One device callback. If capture has been stopped, the samples are
    /// discarded: nothing changes and nothing comes out. Else they are
    /// taken through the path.
    pub fn on_callback<
        A: Fn(T, T) -> T,
        D: Fn(T, u16) -> T,
        B: Fn(T, T, u32, u32) -> T,
        Q: Fn(T) -> i16,
    >(&mut self, recording: bool, samples: &[T], ops: &SampleOps<T, A, D, B, Q>) -> (chunks: Vec<
        Vec<u8>,
    >)
        requires
            old(self).wf(),
            ops.total(),
        ensures
            final(self).wf(),
            final(self).channels() == old(self).channels(),
            final(self).chunk_len() == old(self).chunk_len(),
            final(self).resampler() == old(self).resampler(),
            !recording ==> chunks@.len() == 0 && final(self).pending() == old(self).pending(),
            recording ==> exists|mono: Seq<T>| #[trigger]
                is_downmix(samples@, old(self).channels(), ops.zero, ops.plus, ops.divide, mono)
                    && is_drained(
                    old(self).pending(),
                    mono,
                    old(self).chunk_len(),
                    old(self).resampler(),
                    ops.zero,
                    ops.blend,
                    ops.quantize,
                    chunks@,
                    final(self).pending(),
                ),
    {
        if !recording {
            return Vec::new();
        }
        self.process(samples, ops)
    }
}

} // verus!
