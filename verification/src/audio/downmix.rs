//! Down-mixing of interleaved samples to mono. Each frame is replaced by
//! the sum of its samples divided by the frame's divisor. Which samples make
//! a frame and what the divisor is, is decided here; adding and dividing
//! samples is left to the caller, who knows what a sample is.

use vstd::prelude::*;

verus! {

/// The number of samples in a whole frame: the channel count, but 1 for a
/// device that reports no channel at all.
pub open spec fn frame_width(channels: u16) -> int {
    if channels >= 2 {
        channels as int
    } else {
        1
    }
}

/// The number of frames in `samples` interleaved samples. A last frame that
/// is cut short counts.
pub open spec fn spec_frame_count(samples: int, channels: u16) -> int {
    (samples + frame_width(channels) - 1) / frame_width(channels)
}

pub open spec fn frame_start(channels: u16, k: int) -> int {
    k * frame_width(channels)
}

/// The end of the `k`-th frame: it is `frame_width` samples wide, unless the
/// samples run out before.
pub open spec fn frame_end(samples: int, channels: u16, k: int) -> int {
    if (k + 1) * frame_width(channels) <= samples {
        (k + 1) * frame_width(channels)
    } else {
        samples
    }
}

/// One frame: the samples from `start` up to, not including, `end`. Its mono
/// value is their sum divided by `divisor`; samples missing from a frame
/// that is cut short count as 0.
#[derive(Debug, Clone, Copy, PartialEq, Eq, Structural)]
pub struct Frame {
    pub start: usize,
    pub end: usize,
    pub divisor: u16,
}

fn width(channels: u16) -> (w: u16)
    ensures
        w == frame_width(channels),
{
    if channels >= 2 {
        channels
    } else {
        1
    }
}

/// The number of frames in `samples` interleaved samples.
pub fn frame_count(samples: usize, channels: u16) -> (count: usize)
    ensures
        count == spec_frame_count(samples as int, channels),
{
    let w = width(channels) as usize;
    let whole = samples / w;
    assert(samples % w != 0 ==> whole < samples) by (nonlinear_arith)
        requires
            w > 0,
            whole == samples / w,
    ;
    let count = if samples % w == 0 {
        whole
    } else {
        whole + 1
    };
    assert(count == (samples + w - 1) / w as int) by (nonlinear_arith)
        requires
            w > 0,
            whole == samples / w,
            count == if samples % w == 0 {
                whole as int
            } else {
                whole + 1
            },
    ;
    count
}

/// The `k`-th frame of `samples` interleaved samples.
pub fn frame(samples: usize, channels: u16, k: usize) -> (f: Frame)
    requires
        k < spec_frame_count(samples as int, channels),
    ensures
        f.start == frame_start(channels, k as int),
        f.end == frame_end(samples as int, channels, k as int),
        f.divisor == frame_width(channels),
{
    let w = width(channels) as usize;
    proof {
        frames_tile_the_input(samples as int, channels, k as int);
    }
    let start = k * w;
    let end = if samples - start >= w {
        start + w
    } else {
        samples
    };
    assert((k + 1) * w == k * w + w) by (nonlinear_arith);
    Frame { start, end, divisor: width(channels) }
}

/// The frames tile the input: the first starts at 0, each ends where the
/// next starts, the last ends with the input, none is empty, and all but
/// the last have the full width.
pub proof fn frames_tile_the_input(samples: int, channels: u16, k: int)
    requires
        0 <= samples,
        0 <= k < spec_frame_count(samples, channels),
    ensures
        frame_start(channels, 0) == 0,
        0 <= frame_start(channels, k) < frame_end(samples, channels, k) <= samples,
        frame_end(samples, channels, k) - frame_start(channels, k) <= frame_width(channels),
        k + 1 < spec_frame_count(samples, channels) ==> frame_end(samples, channels, k)
            == frame_start(channels, k + 1) && frame_end(samples, channels, k) - frame_start(
            channels,
            k,
        ) == frame_width(channels),
        k + 1 == spec_frame_count(samples, channels) ==> frame_end(samples, channels, k) == samples,
{
    let w = frame_width(channels);
    let count = spec_frame_count(samples, channels);
    assert(0 * w == 0);
    assert((k + 1) * w == k * w + w) by (nonlinear_arith);
    assert(k * w < samples && 0 <= k * w) by (nonlinear_arith)
        requires
            w > 0,
            0 <= k < count,
            count == (samples + w - 1) / w,
    ;
    if k + 1 < count {
        assert((k + 1) * w < samples) by (nonlinear_arith)
            requires
                w > 0,
                0 <= k + 1 < count,
                count == (samples + w - 1) / w,
        ;
    } else {
        assert((k + 1) * w >= samples) by (nonlinear_arith)
            requires
                w > 0,
                k + 1 == count,
                count == (samples + w - 1) / w,
        ;
    }
}

/// Whether `sums` holds the running sums of `frame`: it starts at `zero`,
/// and each further element is what `plus` made of the one before and the
/// next sample.
pub open spec fn is_running_sum<T, A: Fn(T, T) -> T>(
    frame: Seq<T>,
    zero: T,
    plus: A,
    sums: Seq<T>,
) -> bool {
    &&& sums.len() == frame.len() + 1
    &&& sums[0] == zero
    &&& forall|j: int|
        0 <= j < frame.len() ==> call_ensures(plus, (#[trigger] sums[j], frame[j]), sums[j + 1])
}

/// Whether `value` is a mono value of `frame`: what `divide` made of the
/// sum of its samples and `divisor`.
pub open spec fn is_mix<T, A: Fn(T, T) -> T, D: Fn(T, u16) -> T>(
    frame: Seq<T>,
    divisor: u16,
    zero: T,
    plus: A,
    divide: D,
    value: T,
) -> bool {
    exists|sums: Seq<T>|
        #[trigger] is_running_sum(frame, zero, plus, sums) && call_ensures(
            divide,
            (sums.last(), divisor),
            value,
        )
}

/// The samples of the `k`-th frame.
pub open spec fn frame_samples<T>(samples: Seq<T>, channels: u16, k: int) -> Seq<T> {
    samples.subrange(frame_start(channels, k), frame_end(samples.len() as int, channels, k))
}

/// Whether `mono` is a down-mix of `samples`. With fewer than two channels
/// it is `samples` itself. Else it has one value for each frame, a mix of
/// that frame with the channel count as divisor.
pub open spec fn is_downmix<T, A: Fn(T, T) -> T, D: Fn(T, u16) -> T>(
    samples: Seq<T>,
    channels: u16,
    zero: T,
    plus: A,
    divide: D,
    mono: Seq<T>,
) -> bool {
    if channels < 2 {
        mono == samples
    } else {
        &&& mono.len() == spec_frame_count(samples.len() as int, channels)
        &&& forall|k: int|
            0 <= k < mono.len() ==> is_mix(
                frame_samples(samples, channels, k),
                channels,
                zero,
                plus,
                divide,
                #[trigger] mono[k],
            )
    }
}

/// The mono value of one frame: its samples are added up from `zero`, and
/// the sum is divided by `divisor`.
pub fn mix_frame<T: Copy, A: Fn(T, T) -> T, D: Fn(T, u16) -> T>(
    frame: &[T],
    divisor: u16,
    zero: T,
    plus: &A,
    divide: &D,
) -> (value: T)
    requires
        forall|a: T, b: T| call_requires(*plus, (a, b)),
        forall|a: T| call_requires(*divide, (a, divisor)),
    ensures
        is_mix(frame@, divisor, zero, *plus, *divide, value),
{
    let mut sum = zero;
    let ghost mut sums: Seq<T> = seq![zero];
    let mut j: usize = 0;
    while j < frame.len()
        invariant
            j <= frame.len(),
            forall|a: T, b: T| call_requires(*plus, (a, b)),
            sums.len() == j + 1,
            sums[0] == zero,
            sums.last() == sum,
            forall|i: int|
                0 <= i < j ==> call_ensures(*plus, (#[trigger] sums[i], frame@[i]), sums[i + 1]),
        decreases frame.len() - j,
    {
        sum = plus(sum, frame[j]);
        proof {
            sums = sums.push(sum);
        }
        j += 1;
    }
    let value = divide(sum, divisor);
    assert(is_running_sum(frame@, zero, *plus, sums));
    value
}

/// Mixes interleaved samples of `channels` channels down to mono.
pub fn downmix<T: Copy, A: Fn(T, T) -> T, D: Fn(T, u16) -> T>(
    samples: &[T],
    channels: u16,
    zero: T,
    plus: &A,
    divide: &D,
) -> (mono: Vec<T>)
    requires
        forall|a: T, b: T| call_requires(*plus, (a, b)),
        forall|a: T| call_requires(*divide, (a, channels)),
    ensures
        is_downmix(samples@, channels, zero, *plus, *divide, mono@),
{
    if channels < 2 {
        return vstd::slice::slice_to_vec(samples);
    }
    let count = frame_count(samples.len(), channels);
    let mut mono: Vec<T> = Vec::new();
    let mut k: usize = 0;
    while k < count
        invariant
            channels >= 2,
            k <= count,
            count == spec_frame_count(samples@.len() as int, channels),
            forall|a: T, b: T| call_requires(*plus, (a, b)),
            forall|a: T| call_requires(*divide, (a, channels)),
            mono@.len() == k,
            forall|i: int|
                0 <= i < k ==> is_mix(
                    frame_samples(samples@, channels, i),
                    channels,
                    zero,
                    *plus,
                    *divide,
                    #[trigger] mono@[i],
                ),
        decreases count - k,
    {
        let f = frame(samples.len(), channels, k);
        proof {
            frames_tile_the_input(samples@.len() as int, channels, k as int);
        }
        let value = mix_frame(&samples[f.start..f.end], f.divisor, zero, plus, divide);
        mono.push(value);
        k += 1;
    }
    mono
}

} // verus!
