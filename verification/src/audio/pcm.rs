//! PCM16LE: each 16-bit sample as two bytes, the low byte first.
//!
//! Bringing a normalized sample to 16 bits (clamping it to the range from
//! -1 to 1, scaling it by 32767 and cutting off the fraction) is left to
//! the caller, who knows what a sample is.

use vstd::prelude::*;

verus! {

/// The factor by which a normalized sample is scaled to 16 bits.
pub const PCM_SCALE: i16 = 32767;

/// The sample read as an unsigned 16-bit word in two's complement.
pub open spec fn pcm_word(sample: i16) -> int {
    if sample < 0 {
        sample + 0x1_0000
    } else {
        sample as int
    }
}

pub open spec fn low_byte(sample: i16) -> u8 {
    (pcm_word(sample) % 0x100) as u8
}

pub open spec fn high_byte(sample: i16) -> u8 {
    (pcm_word(sample) / 0x100) as u8
}

/// The encoding of a sequence of samples: two bytes for each, in order.
pub open spec fn pcm16le(samples: Seq<i16>) -> Seq<u8> {
    Seq::new(
        2 * samples.len(),
        |i: int|
            if i % 2 == 0 {
                low_byte(samples[i / 2])
            } else {
                high_byte(samples[i / 2])
            },
    )
}

/// The two bytes of one sample.
pub fn encode_sample(sample: i16) -> (bytes: [u8; 2])
    ensures
        bytes[0] == low_byte(sample),
        bytes[1] == high_byte(sample),
{
    let word: u32 = if sample < 0 {
        (sample as i32 + 0x1_0000) as u32
    } else {
        sample as u32
    };
    [(word % 0x100) as u8, (word / 0x100) as u8]
}

/// Encodes the samples as PCM16LE.
pub fn encode_pcm16le(samples: &[i16]) -> (bytes: Vec<u8>)
    ensures
        bytes@ == pcm16le(samples@),
{
    let mut bytes: Vec<u8> = Vec::new();
    let mut i: usize = 0;
    while i < samples.len()
        invariant
            i <= samples.len(),
            bytes@.len() == 2 * i,
            forall|j: int| 0 <= j < bytes@.len() ==> bytes@[j] == #[trigger] pcm16le(samples@)[j],
        decreases samples.len() - i,
    {
        let pair = encode_sample(samples[i]);
        bytes.push(pair[0]);
        bytes.push(pair[1]);
        i += 1;
    }
    assert(bytes@ =~= pcm16le(samples@));
    bytes
}

/// Whether `pcm` holds, for each sample, what `quantize` made of it.
pub open spec fn is_quantized<T, Q: Fn(T) -> i16>(samples: Seq<T>, quantize: Q, pcm: Seq<i16>) -> bool {
    &&& pcm.len() == samples.len()
    &&& forall|i: int|
        0 <= i < samples.len() ==> call_ensures(quantize, (samples[i],), #[trigger] pcm[i])
}

/// Whether `bytes` is the PCM16LE encoding of what `quantize` made of the
/// samples.
pub open spec fn is_encoding<T, Q: Fn(T) -> i16>(samples: Seq<T>, quantize: Q, bytes: Seq<u8>) -> bool {
    exists|pcm: Seq<i16>| #[trigger] is_quantized(samples, quantize, pcm) && bytes == pcm16le(pcm)
}

/// Brings each sample to 16 bits.
pub fn quantize_samples<T: Copy, Q: Fn(T) -> i16>(samples: &[T], quantize: &Q) -> (pcm: Vec<i16>)
    requires
        forall|s: T| call_requires(*quantize, (s,)),
    ensures
        is_quantized(samples@, *quantize, pcm@),
{
    let mut pcm: Vec<i16> = Vec::new();
    let mut i: usize = 0;
    while i < samples.len()
        invariant
            i <= samples.len(),
            pcm@.len() == i,
            forall|s: T| call_requires(*quantize, (s,)),
            forall|j: int| 0 <= j < i ==> call_ensures(*quantize, (samples@[j],), #[trigger] pcm@[j]),
        decreases samples.len() - i,
    {
        pcm.push(quantize(samples[i]));
        i += 1;
    }
    pcm
}

/// Brings each sample to 16 bits and encodes the result as PCM16LE.
pub fn encode_samples<T: Copy, Q: Fn(T) -> i16>(samples: &[T], quantize: &Q) -> (bytes: Vec<u8>)
    requires
        forall|s: T| call_requires(*quantize, (s,)),
    ensures
        is_encoding(samples@, *quantize, bytes@),
        bytes@.len() == 2 * samples@.len(),
{
    let pcm = quantize_samples(samples, quantize);
    encode_pcm16le(pcm.as_slice())
}

/// Nothing is lost in the encoding: the two bytes of a sample give the
/// sample back, and the encoding is twice as long as the input.
pub proof fn encoding_is_faithful(samples: Seq<i16>, i: int)
    requires
        0 <= i < samples.len(),
    ensures
        pcm16le(samples).len() == 2 * samples.len(),
        pcm16le(samples)[2 * i] + 0x100 * pcm16le(samples)[2 * i + 1] == pcm_word(samples[i]),
        pcm_word(samples[i]) < 0x8000 <==> samples[i] >= 0,
{
    assert((2 * i) % 2 == 0 && (2 * i) / 2 == i);
    assert((2 * i + 1) % 2 == 1 && (2 * i + 1) / 2 == i);
}

} // verus!
