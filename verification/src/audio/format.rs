//! Sample representations of capture devices, and the numbers by which a raw
//! sample of each is brought into the range from -1 to 1.

use vstd::prelude::*;

verus! {

/// How a device represents one sample.
#[derive(Debug, Clone, Copy, PartialEq, Eq, Structural)]
pub enum SampleFormat {
    I8,
    I16,
    I32,
    I64,
    U8,
    U16,
    U32,
    U64,
    F32,
    F64,
    /// A representation that capture cannot handle.
    Other,
}

/// The family of a representation.
#[derive(Debug, Clone, Copy, PartialEq, Eq, Structural)]
pub enum SampleKind {
    Signed,
    Unsigned,
    Float,
}

/// What normalization needs to know of a representation. A raw integer
/// sample `raw` stands for the value `(raw - midpoint) / magnitude`; a
/// floating sample stands for itself.
#[derive(Debug, Clone, Copy, PartialEq, Eq, Structural)]
pub struct SampleLayout {
    pub kind: SampleKind,
    /// The width of a sample in bits.
    pub bits: u8,
    /// The raw value that stands for silence.
    pub midpoint: u64,
    /// The divisor: half the range of the representation, 1 for floats.
    pub magnitude: u64,
}

/// Two to the power `bits - 1`, for the widths 8, 16, 32 and 64.
pub open spec fn half_range(bits: u8) -> u64 {
    if bits == 8 {
        0x80
    } else if bits == 16 {
        0x8000
    } else if bits == 32 {
        0x8000_0000
    } else {
        0x8000_0000_0000_0000
    }
}

pub open spec fn signed_layout(bits: u8) -> SampleLayout {
    SampleLayout { kind: SampleKind::Signed, bits, midpoint: 0, magnitude: half_range(bits) }
}

pub open spec fn unsigned_layout(bits: u8) -> SampleLayout {
    SampleLayout {
        kind: SampleKind::Unsigned,
        bits,
        midpoint: half_range(bits),
        magnitude: half_range(bits),
    }
}

pub open spec fn float_layout(bits: u8) -> SampleLayout {
    SampleLayout { kind: SampleKind::Float, bits, midpoint: 0, magnitude: 1 }
}

/// The layout of each representation that capture handles.
pub open spec fn spec_layout(format: SampleFormat) -> Option<SampleLayout> {
    match format {
        SampleFormat::I8 => Some(signed_layout(8)),
        SampleFormat::I16 => Some(signed_layout(16)),
        SampleFormat::I32 => Some(signed_layout(32)),
        SampleFormat::I64 => Some(signed_layout(64)),
        SampleFormat::U8 => Some(unsigned_layout(8)),
        SampleFormat::U16 => Some(unsigned_layout(16)),
        SampleFormat::U32 => Some(unsigned_layout(32)),
        SampleFormat::U64 => Some(unsigned_layout(64)),
        SampleFormat::F32 => Some(float_layout(32)),
        SampleFormat::F64 => Some(float_layout(64)),
        SampleFormat::Other => None,
    }
}

/// Whether `raw` is a value that a sample of this layout can have.
pub open spec fn in_range(layout: SampleLayout, raw: int) -> bool {
    match layout.kind {
        SampleKind::Signed => -(layout.magnitude as int) <= raw < layout.magnitude as int,
        SampleKind::Unsigned => 0 <= raw < 2 * (layout.magnitude as int),
        SampleKind::Float => false,
    }
}

fn half_range_of(bits: u8) -> (h: u64)
    ensures
        h == half_range(bits),
{
    if bits == 8 {
        0x80
    } else if bits == 16 {
        0x8000
    } else if bits == 32 {
        0x8000_0000
    } else {
        0x8000_0000_0000_0000
    }
}

fn signed(bits: u8) -> (layout: SampleLayout)
    ensures
        layout == signed_layout(bits),
{
    SampleLayout { kind: SampleKind::Signed, bits, midpoint: 0, magnitude: half_range_of(bits) }
}

fn unsigned(bits: u8) -> (layout: SampleLayout)
    ensures
        layout == unsigned_layout(bits),
{
    SampleLayout {
        kind: SampleKind::Unsigned,
        bits,
        midpoint: half_range_of(bits),
        magnitude: half_range_of(bits),
    }
}

fn float(bits: u8) -> (layout: SampleLayout)
    ensures
        layout == float_layout(bits),
{
    SampleLayout { kind: SampleKind::Float, bits, midpoint: 0, magnitude: 1 }
}

impl SampleFormat {
    /// The layout of the representation; `None` for one that capture
    /// cannot handle.
    pub fn layout(&self) -> (layout: Option<SampleLayout>)
        ensures
            layout == spec_layout(*self),
    {
        match self {
            SampleFormat::I8 => Some(signed(8)),
            SampleFormat::I16 => Some(signed(16)),
            SampleFormat::I32 => Some(signed(32)),
            SampleFormat::I64 => Some(signed(64)),
            SampleFormat::U8 => Some(unsigned(8)),
            SampleFormat::U16 => Some(unsigned(16)),
            SampleFormat::U32 => Some(unsigned(32)),
            SampleFormat::U64 => Some(unsigned(64)),
            SampleFormat::F32 => Some(float(32)),
            SampleFormat::F64 => Some(float(64)),
            SampleFormat::Other => None,
        }
    }

    /// A raw integer sample of this representation, moved so that silence
    /// is 0: the numerator of the normalized value, whose denominator is the
    /// magnitude of the layout. There is none where `raw` is not a value of
    /// an integer sample of this representation.
    pub fn centered(&self, raw: i128) -> (c: Option<i64>)
        ensures
            c == spec_centered(*self, raw as int),
    {
        match self.layout() {
            Some(layout) => {
                let magnitude = layout.magnitude as i128;
                let fits = match layout.kind {
                    SampleKind::Signed => -magnitude <= raw && raw < magnitude,
                    SampleKind::Unsigned => 0 <= raw && raw < 2 * magnitude,
                    SampleKind::Float => false,
                };
                if fits {
                    Some((raw - layout.midpoint as i128) as i64)
                } else {
                    None
                }
            },
            None => None,
        }
    }
}

/// The centered value of a raw sample, where it has one.
pub open spec fn spec_centered(format: SampleFormat, raw: int) -> Option<i64> {
    match spec_layout(format) {
        Some(layout) => if in_range(layout, raw) {
            Some((raw - layout.midpoint) as i64)
        } else {
            None
        },
        None => None,
    }
}

/// Every raw sample of an integer representation normalizes into the range
/// from -1 to 1: its distance from the midpoint is at most the magnitude,
/// which is not 0.
pub proof fn normalized_sample_is_within_unit_range(format: SampleFormat, raw: int)
    requires
        spec_layout(format) matches Some(layout) && in_range(layout, raw),
    ensures
        spec_layout(format)->0.magnitude > 0,
        -(spec_layout(format)->0.magnitude as int) <= raw - spec_layout(format)->0.midpoint
            < spec_layout(format)->0.magnitude,
        spec_centered(format, raw) == Some((raw - spec_layout(format)->0.midpoint) as i64),
        spec_centered(format, raw)->0 == raw - spec_layout(format)->0.midpoint,
{
}

} // verus!
