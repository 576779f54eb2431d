//! Conversion of the sample rate by linear interpolation.
//!
//! The converter works out, for each sample of the output, which samples of
//! the input it is made of and with what weight, and puts the output
//! together. Blending two samples is left to the caller, who knows what a
//! sample is.

use vstd::prelude::*;

verus! {

/// How one output sample comes about.
#[derive(Debug, Clone, Copy, PartialEq, Eq, Structural)]
pub enum Tap {
    /// `input[index] * (1 - w) + input[index + 1] * w`, where `w` is
    /// `weight_num / weight_den`.
    Blend { index: usize, weight_num: u32, weight_den: u32 },
    /// `input[index]`.
    Single { index: usize },
    /// Zero.
    Silence,
}

/// A converter from one sample rate to another.
#[derive(Debug, Clone, Copy, PartialEq, Eq, Structural)]
pub struct SimpleResampler {
    source_rate: u32,
    target_rate: u32,
}

/// The number of output samples for `input_len` input samples.
pub open spec fn spec_output_len(source_rate: u32, target_rate: u32, input_len: int) -> int {
    if source_rate == target_rate {
        input_len
    } else {
        input_len * target_rate / (source_rate as int)
    }
}

/// The `i`-th output sample. It sits at the position `i * source_rate /
/// target_rate` of the input: between the samples at the floor of the
/// position and the one after it, by the fraction of the position. Past the
/// last sample there is nothing to blend with; past the input there is
/// silence. With equal rates the output is the input.
pub open spec fn spec_tap(source_rate: u32, target_rate: u32, input_len: int, i: int) -> Tap {
    if source_rate == target_rate {
        if i < input_len {
            Tap::Single { index: i as usize }
        } else {
            Tap::Silence
        }
    } else if target_rate == 0 {
        Tap::Silence
    } else {
        let index = i * source_rate / (target_rate as int);
        if index + 1 < input_len {
            Tap::Blend {
                index: index as usize,
                weight_num: ((i * source_rate) % (target_rate as int)) as u32,
                weight_den: target_rate,
            }
        } else if index < input_len {
            Tap::Single { index: index as usize }
        } else {
            Tap::Silence
        }
    }
}

/// Whether `value` is what `tap` asks for, on the given input.
pub open spec fn is_tapped<T, B: Fn(T, T, u32, u32) -> T>(
    tap: Tap,
    input: Seq<T>,
    silence: T,
    blend: B,
    value: T,
) -> bool {
    match tap {
        Tap::Blend { index, weight_num, weight_den } => call_ensures(
            blend,
            (input[index as int], input[index + 1], weight_num, weight_den),
            value,
        ),
        Tap::Single { index } => value == input[index as int],
        Tap::Silence => value == silence,
    }
}

/// Whether `output` is a conversion of `input` from `source_rate` to
/// `target_rate`: it has the length of the output, and each of its samples
/// is what its tap asks for.
pub open spec fn is_resampled<T, B: Fn(T, T, u32, u32) -> T>(
    source_rate: u32,
    target_rate: u32,
    input: Seq<T>,
    silence: T,
    blend: B,
    output: Seq<T>,
) -> bool {
    &&& output.len() == spec_output_len(source_rate, target_rate, input.len() as int)
    &&& forall|i: int|
        0 <= i < output.len() ==> is_tapped(
            spec_tap(source_rate, target_rate, input.len() as int, i),
            input,
            silence,
            blend,
            #[trigger] output[i],
        )
}

impl SimpleResampler {
    pub closed spec fn source_rate(&self) -> u32 {
        self.source_rate
    }

    pub closed spec fn target_rate(&self) -> u32 {
        self.target_rate
    }

    /// A converter from `source_rate` to `target_rate`.
    pub fn new(source_rate: u32, target_rate: u32) -> (resampler: SimpleResampler)
        ensures
            resampler.source_rate() == source_rate,
            resampler.target_rate() == target_rate,
    {
        SimpleResampler { source_rate, target_rate }
    }

    /// Whether the output is the input.
    pub fn is_identity(&self) -> (b: bool)
        ensures
            b == (self.source_rate() == self.target_rate()),
    {
        self.source_rate == self.target_rate
    }

    /// The number of output samples for `input_len` input samples. The
    /// source rate is not 0, unless the target rate is 0 too, and the number
    /// fits the machine.
    pub fn output_len(&self, input_len: usize) -> (len: usize)
        requires
            self.source_rate() > 0 || self.target_rate() == 0,
            spec_output_len(self.source_rate(), self.target_rate(), input_len as int) <= usize::MAX,
        ensures
            len == spec_output_len(self.source_rate(), self.target_rate(), input_len as int),
    {
        if self.source_rate == self.target_rate {
            return input_len;
        }
        assert(input_len * self.target_rate <= u128::MAX) by (nonlinear_arith)
            requires
                input_len <= u64::MAX,
                self.target_rate <= u32::MAX,
        ;
        let scaled: u128 = input_len as u128 * self.target_rate as u128;
        (scaled / self.source_rate as u128) as usize
    }

    /// How the `i`-th output sample comes about, for an input of `input_len`
    /// samples.
    pub fn tap(&self, input_len: usize, i: usize) -> (tap: Tap)
        ensures
            tap == spec_tap(self.source_rate(), self.target_rate(), input_len as int, i as int),
    {
        if self.source_rate == self.target_rate {
            return if i < input_len {
                Tap::Single { index: i }
            } else {
                Tap::Silence
            };
        }
        if self.target_rate == 0 {
            return Tap::Silence;
        }
        assert(i * self.source_rate <= 0xffff_ffff_ffff_ffff * 0xffff_ffff) by (nonlinear_arith)
            requires
                0 <= i <= 0xffff_ffff_ffff_ffff,
                0 <= self.source_rate <= 0xffff_ffff,
        ;
        let position: u128 = i as u128 * self.source_rate as u128;
        let index: u128 = position / self.target_rate as u128;
        assert(index <= position) by (nonlinear_arith)
            requires
                index == position / self.target_rate as u128,
                self.target_rate > 0,
        ;
        let weight: u128 = position % self.target_rate as u128;
        if index + 1 < input_len as u128 {
            Tap::Blend {
                index: index as usize,
                weight_num: weight as u32,
                weight_den: self.target_rate,
            }
        } else if index < input_len as u128 {
            Tap::Single { index: index as usize }
        } else {
            Tap::Silence
        }
    }

    /// Converts `input` to the target rate. `blend(a, b, n, d)` is to give
    /// `a * (1 - n / d) + b * (n / d)`. With equal rates the output is the
    /// input.
    pub fn resample<T: Copy, B: Fn(T, T, u32, u32) -> T>(
        &self,
        input: &[T],
        silence: T,
        blend: &B,
    ) -> (output: Vec<T>)
        requires
            self.source_rate() > 0 || self.target_rate() == 0,
            spec_output_len(self.source_rate(), self.target_rate(), input@.len() as int)
                <= usize::MAX,
            forall|a: T, b: T, n: u32, d: u32| call_requires(*blend, (a, b, n, d)),
        ensures
            is_resampled(self.source_rate(), self.target_rate(), input@, silence, *blend, output@),
            self.source_rate() == self.target_rate() ==> output@ == input@,
    {
        if self.source_rate == self.target_rate {
            return vstd::slice::slice_to_vec(input);
        }
        let len = self.output_len(input.len());
        let mut output: Vec<T> = Vec::new();
        let mut i: usize = 0;
        while i < len
            invariant
                i <= len,
                output@.len() == i,
                forall|a: T, b: T, n: u32, d: u32| call_requires(*blend, (a, b, n, d)),
                forall|j: int|
                    0 <= j < i ==> is_tapped(
                        spec_tap(self.source_rate(), self.target_rate(), input@.len() as int, j),
                        input@,
                        silence,
                        *blend,
                        #[trigger] output@[j],
                    ),
            decreases len - i,
        {
            let value = match self.tap(input.len(), i) {
                Tap::Blend { index, weight_num, weight_den } => blend(
                    input[index],
                    input[index + 1],
                    weight_num,
                    weight_den,
                ),
                Tap::Single { index } => input[index],
                Tap::Silence => silence,
            };
            output.push(value);
            i += 1;
        }
        output
    }
}

/// With equal rates the conversion is the identity: the output is as long
/// as the input, and each output sample is the input sample at its place.
pub proof fn equal_rates_copy_the_input(rate: u32, input_len: int, i: int)
    requires
        0 <= i < input_len,
        input_len <= usize::MAX,
    ensures
        spec_output_len(rate, rate, input_len) == input_len,
        spec_tap(rate, rate, input_len, i) == (Tap::Single { index: i as usize }),
{
}

/// Every output sample is made of samples that the input has: within the
/// output no tap is silence, none points past the input, and the weight of
/// a blend is a proper fraction.
pub proof fn taps_stay_within_the_input(source_rate: u32, target_rate: u32, input_len: int, i: int)
    requires
        source_rate > 0,
        0 <= input_len <= usize::MAX,
        0 <= i < spec_output_len(source_rate, target_rate, input_len),
    ensures
        match spec_tap(source_rate, target_rate, input_len, i) {
            Tap::Blend { index, weight_num, weight_den } => index + 1 < input_len && weight_num
                < weight_den && weight_den == target_rate && index * target_rate + weight_num == i
                * source_rate,
            Tap::Single { index } => index < input_len,
            Tap::Silence => false,
        },
{
    if source_rate != target_rate {
        let s = source_rate as int;
        let t = target_rate as int;
        let len = input_len * t / s;
        assert(t > 0) by (nonlinear_arith)
            requires
                s > 0,
                0 <= input_len,
                0 <= i < input_len * t / s,
                t >= 0,
        ;
        assert((i + 1) * s <= input_len * t) by (nonlinear_arith)
            requires
                s > 0,
                i + 1 <= input_len * t / s,
        ;
        assert(i * s / t < input_len && 0 <= i * s / t) by (nonlinear_arith)
            requires
                t > 0,
                s > 0,
                i >= 0,
                (i + 1) * s <= input_len * t,
        ;
        assert((i * s / t) * t + (i * s) % t == i * s && 0 <= (i * s) % t < t) by (nonlinear_arith)
            requires
                t > 0,
        ;
    }
}

} // verus!
