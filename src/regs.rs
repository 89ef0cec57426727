//! Typed views over the codec's raw registers.
//!
//! Every register keeps its raw bits; each named field is read and written
//! with a shift and a mask, and reserved bits are carried through unchanged.
use vstd::prelude::*;

verus! {

/// A field cut out by a mask is no larger than the mask.
pub proof fn lemma_mask_le_u16(x: u16, m: u16)
    ensures
        x & m <= m,
{
    assert(x & m <= m) by (bit_vector);
}

/// Every field of a clear register is zero.
pub proof fn lemma_zero_fields_u8(shift: u8, m: u8)
    ensures
        0u8 & m == 0,
        (0u8 >> shift) & m == 0,
{
    assert(0u8 & m == 0 && (0u8 >> shift) & m == 0) by (bit_vector);
}

/// Every field of a clear register is zero.
pub proof fn lemma_zero_fields_u16(shift: u16, m: u16)
    ensures
        0u16 & m == 0,
        (0u16 >> shift) & m == 0,
{
    assert(0u16 & m == 0 && (0u16 >> shift) & m == 0) by (bit_vector);
}

/// Every field of a clear register is zero.
pub proof fn lemma_zero_fields_u32(shift: u32, m: u32)
    ensures
        0u32 & m == 0,
        (0u32 >> shift) & m == 0,
{
    assert(0u32 & m == 0 && (0u32 >> shift) & m == 0) by (bit_vector);
}

/// Number of output channels, a two-bit field.
#[derive(Clone, Copy, Debug, PartialEq, Eq, Structural)]
pub enum PcmChannels {
    Two,
    Four,
    Six,
}

/// Width of output samples, a two-bit field.
#[derive(Clone, Copy, Debug, PartialEq, Eq, Structural)]
pub enum PcmOutMode {
    SixteenSamples,
    TwentySamples,
}

impl PcmChannels {
    pub open spec fn spec_code(self) -> u32 {
        match self {
            PcmChannels::Two => 0,
            PcmChannels::Four => 1,
            PcmChannels::Six => 2,
        }
    }

    /// The variant that a two-bit code names; code 3 names none.
    pub open spec fn spec_from_code(c: u32) -> Option<PcmChannels> {
        if c == 0 {
            Some(PcmChannels::Two)
        } else if c == 1 {
            Some(PcmChannels::Four)
        } else if c == 2 {
            Some(PcmChannels::Six)
        } else {
            None
        }
    }

    pub fn code(self) -> (r: u32)
        ensures
            r == self.spec_code(),
    {
        match self {
            PcmChannels::Two => 0,
            PcmChannels::Four => 1,
            PcmChannels::Six => 2,
        }
    }

    pub fn from_code(c: u32) -> (r: Option<PcmChannels>)
        ensures
            r == Self::spec_from_code(c),
    {
        if c == 0 {
            Some(PcmChannels::Two)
        } else if c == 1 {
            Some(PcmChannels::Four)
        } else if c == 2 {
            Some(PcmChannels::Six)
        } else {
            None
        }
    }
}

impl Default for PcmChannels {
    fn default() -> (r: Self)
        ensures
            r == PcmChannels::Two,
    {
        PcmChannels::Two
    }
}

impl PcmOutMode {
    pub open spec fn spec_code(self) -> u32 {
        match self {
            PcmOutMode::SixteenSamples => 0,
            PcmOutMode::TwentySamples => 1,
        }
    }

    /// The variant that a two-bit code names; codes 2 and 3 name none.
    pub open spec fn spec_from_code(c: u32) -> Option<PcmOutMode> {
        if c == 0 {
            Some(PcmOutMode::SixteenSamples)
        } else if c == 1 {
            Some(PcmOutMode::TwentySamples)
        } else {
            None
        }
    }

    pub fn code(self) -> (r: u32)
        ensures
            r == self.spec_code(),
    {
        match self {
            PcmOutMode::SixteenSamples => 0,
            PcmOutMode::TwentySamples => 1,
        }
    }

    pub fn from_code(c: u32) -> (r: Option<PcmOutMode>)
        ensures
            r == Self::spec_from_code(c),
    {
        if c == 0 {
            Some(PcmOutMode::SixteenSamples)
        } else if c == 1 {
            Some(PcmOutMode::TwentySamples)
        } else {
            None
        }
    }
}

impl Default for PcmOutMode {
    fn default() -> (r: Self)
        ensures
            r == PcmOutMode::SixteenSamples,
    {
        PcmOutMode::SixteenSamples
    }
}

/// Master output volume of the mixer: right attenuation in bits 0..6, left
/// in bits 8..14, mute in bit 15; bits 6, 7 and 14 are reserved.
#[derive(Clone, Copy, Debug, PartialEq, Eq, Structural)]
pub struct MasterOutputVolume {
    pub bits: u16,
}

impl MasterOutputVolume {
    pub open spec fn spec_right(self) -> u16 {
        self.bits & 0x3f
    }

    pub open spec fn spec_left(self) -> u16 {
        (self.bits >> 8u16) & 0x3f
    }

    pub open spec fn spec_mute(self) -> bool {
        (self.bits >> 15u16) & 1 == 1
    }

    pub open spec fn spec_reserved(self) -> u16 {
        self.bits & 0x40c0u16
    }

    /// The raw value with the given fields (enumerated ones by code) and the
    /// reserved bits clear.
    pub open spec fn layout(right: u16, left: u16, mute: bool) -> u16 {
        right | (left << 8u16) | (if mute { 0x8000u16 } else { 0u16 })
    }

    /// A freshly made register: every bit clear, so every flag off, every
    /// number zero and every enumerated field at its default variant.
    pub fn new() -> (r: Self)
        ensures
            r.bits == 0,
            r.spec_right() == 0,
            r.spec_left() == 0,
            !r.spec_mute(),
            r.spec_reserved() == 0,
    {
        proof {
            lemma_zero_fields_u16(0, 0x3f);
            lemma_zero_fields_u16(8, 0x3f);
            lemma_zero_fields_u16(15, 0x1);
            lemma_zero_fields_u16(0, 0x40c0);
        }
        MasterOutputVolume { bits: 0 }
    }

    pub fn from_bits(bits: u16) -> (r: Self)
        ensures
            r.bits == bits,
    {
        MasterOutputVolume { bits }
    }

    pub fn into_bits(self) -> (r: u16)
        ensures
            r == self.bits,
    {
        self.bits
    }

    pub fn right(&self) -> (r: u8)
        ensures
            r as u16 == self.spec_right(),
    {
        proof {
            lemma_mask_le_u16(self.bits, 0x3f);
        }
        (self.bits & 0x3f) as u8
    }

    pub fn left(&self) -> (r: u8)
        ensures
            r as u16 == self.spec_left(),
    {
        proof {
            lemma_mask_le_u16(self.bits >> 8u16, 0x3f);
        }
        ((self.bits >> 8u16) & 0x3f) as u8
    }

    pub fn mute(&self) -> (r: bool)
        ensures
            r == self.spec_mute(),
    {
        (self.bits >> 15u16) & 1 == 1
    }

    pub fn with_right(self, v: u8) -> (r: Self)
        requires
            v <= 0x3f,
        ensures
            r.spec_right() == v as u16,
            r.spec_left() == self.spec_left(),
            r.spec_mute() == self.spec_mute(),
            r.spec_reserved() == self.spec_reserved(),
    {
        let x = self.bits;
        let f = v as u16;
        let b = (x & 0xffc0u16) | f;
        assert(b & 0x3f == f
            && (b >> 8u16) & 0x3f == (x >> 8u16) & 0x3f
            && (b >> 15u16) & 1 == (x >> 15u16) & 1
            && b & 0x40c0u16 == x & 0x40c0u16) by (bit_vector)
            requires
                b == (x & 0xffc0u16) | f,
                f <= 0x3f,
        ;
        MasterOutputVolume { bits: b }
    }

    pub fn with_left(self, v: u8) -> (r: Self)
        requires
            v <= 0x3f,
        ensures
            r.spec_left() == v as u16,
            r.spec_right() == self.spec_right(),
            r.spec_mute() == self.spec_mute(),
            r.spec_reserved() == self.spec_reserved(),
    {
        let x = self.bits;
        let f = v as u16;
        let b = (x & 0xc0ffu16) | (f << 8u16);
        assert((b >> 8u16) & 0x3f == f
            && b & 0x3f == x & 0x3f
            && (b >> 15u16) & 1 == (x >> 15u16) & 1
            && b & 0x40c0u16 == x & 0x40c0u16) by (bit_vector)
            requires
                b == (x & 0xc0ffu16) | (f << 8u16),
                f <= 0x3f,
        ;
        MasterOutputVolume { bits: b }
    }

    pub fn with_mute(self, v: bool) -> (r: Self)
        ensures
            r.spec_mute() == v,
            r.spec_right() == self.spec_right(),
            r.spec_left() == self.spec_left(),
            r.spec_reserved() == self.spec_reserved(),
    {
        let x = self.bits;
        let m: u16 = if v { 0x8000u16 } else { 0 };
        let b = (x & 0x7fffu16) | m;
        assert(((b >> 15u16) & 1 == 1) == (m == 0x8000u16)
            && b & 0x3f == x & 0x3f
            && (b >> 8u16) & 0x3f == (x >> 8u16) & 0x3f
            && b & 0x40c0u16 == x & 0x40c0u16) by (bit_vector)
            requires
                b == (x & 0x7fffu16) | m,
                m == 0x8000u16 || m == 0,
        ;
        MasterOutputVolume { bits: b }
    }

    /// Encoding a set of field values and decoding the raw value gives the
    /// same values back, with the reserved bits clear; and any raw value is
    /// the encoding of its own fields together with its reserved bits.
    pub proof fn lemma_round_trip(right: u16, left: u16, mute: bool, x: Self)
        requires
            right <= 0x3f,
            left <= 0x3f,
        ensures
            ({
                let s = MasterOutputVolume { bits: Self::layout(right, left, mute) };
                s.spec_right() == right
                    && s.spec_left() == left
                    && s.spec_mute() == mute
                    && s.spec_reserved() == 0
            }),
            Self::layout(x.spec_right(), x.spec_left(), x.spec_mute()) | x.spec_reserved() == x.bits,
    {
        let y = Self::layout(right, left, mute);
        assert(y & 0x3f == right
            && (y >> 8u16) & 0x3f == left
            && ((y >> 15u16) & 1 == 1) == mute
            && y & 0x40c0u16 == 0) by (bit_vector)
            requires
                y == right | (left << 8u16) | (if mute { 0x8000u16 } else { 0u16 }),
                right <= 0x3f,
                left <= 0x3f,
        ;
        let b = x.bits;
        assert(((b & 0x3f)
            | (((b >> 8u16) & 0x3f) << 8u16)
            | (if ((b >> 15u16) & 1 == 1) { 0x8000u16 } else { 0u16 }))
            | (b & 0x40c0u16) == b) by (bit_vector);
    }
}

/// PCM output volume of the mixer: right attenuation in bits 0..5, left in
/// bits 8..13, mute in bit 15; bits 5..8 and 13..15 are reserved.
#[derive(Clone, Copy, Debug, PartialEq, Eq, Structural)]
pub struct PcmOutputVolume {
    pub bits: u16,
}

impl PcmOutputVolume {
    pub open spec fn spec_right(self) -> u16 {
        self.bits & 0x1f
    }

    pub open spec fn spec_left(self) -> u16 {
        (self.bits >> 8u16) & 0x1f
    }

    pub open spec fn spec_mute(self) -> bool {
        (self.bits >> 15u16) & 1 == 1
    }

    pub open spec fn spec_reserved(self) -> u16 {
        self.bits & 0x60e0u16
    }

    /// The raw value with the given fields (enumerated ones by code) and the
    /// reserved bits clear.
    pub open spec fn layout(right: u16, left: u16, mute: bool) -> u16 {
        right | (left << 8u16) | (if mute { 0x8000u16 } else { 0u16 })
    }

    /// A freshly made register: every bit clear, so every flag off, every
    /// number zero and every enumerated field at its default variant.
    pub fn new() -> (r: Self)
        ensures
            r.bits == 0,
            r.spec_right() == 0,
            r.spec_left() == 0,
            !r.spec_mute(),
            r.spec_reserved() == 0,
    {
        proof {
            lemma_zero_fields_u16(0, 0x1f);
            lemma_zero_fields_u16(8, 0x1f);
            lemma_zero_fields_u16(15, 0x1);
            lemma_zero_fields_u16(0, 0x60e0);
        }
        PcmOutputVolume { bits: 0 }
    }

    pub fn from_bits(bits: u16) -> (r: Self)
        ensures
            r.bits == bits,
    {
        PcmOutputVolume { bits }
    }

    pub fn into_bits(self) -> (r: u16)
        ensures
            r == self.bits,
    {
        self.bits
    }

    pub fn right(&self) -> (r: u8)
        ensures
            r as u16 == self.spec_right(),
    {
        proof {
            lemma_mask_le_u16(self.bits, 0x1f);
        }
        (self.bits & 0x1f) as u8
    }

    pub fn left(&self) -> (r: u8)
        ensures
            r as u16 == self.spec_left(),
    {
        proof {
            lemma_mask_le_u16(self.bits >> 8u16, 0x1f);
        }
        ((self.bits >> 8u16) & 0x1f) as u8
    }

    pub fn mute(&self) -> (r: bool)
        ensures
            r == self.spec_mute(),
    {
        (self.bits >> 15u16) & 1 == 1
    }

    pub fn with_right(self, v: u8) -> (r: Self)
        requires
            v <= 0x1f,
        ensures
            r.spec_right() == v as u16,
            r.spec_left() == self.spec_left(),
            r.spec_mute() == self.spec_mute(),
            r.spec_reserved() == self.spec_reserved(),
    {
        let x = self.bits;
        let f = v as u16;
        let b = (x & 0xffe0u16) | f;
        assert(b & 0x1f == f
            && (b >> 8u16) & 0x1f == (x >> 8u16) & 0x1f
            && (b >> 15u16) & 1 == (x >> 15u16) & 1
            && b & 0x60e0u16 == x & 0x60e0u16) by (bit_vector)
            requires
                b == (x & 0xffe0u16) | f,
                f <= 0x1f,
        ;
        PcmOutputVolume { bits: b }
    }

    pub fn with_left(self, v: u8) -> (r: Self)
        requires
            v <= 0x1f,
        ensures
            r.spec_left() == v as u16,
            r.spec_right() == self.spec_right(),
            r.spec_mute() == self.spec_mute(),
            r.spec_reserved() == self.spec_reserved(),
    {
        let x = self.bits;
        let f = v as u16;
        let b = (x & 0xe0ffu16) | (f << 8u16);
        assert((b >> 8u16) & 0x1f == f
            && b & 0x1f == x & 0x1f
            && (b >> 15u16) & 1 == (x >> 15u16) & 1
            && b & 0x60e0u16 == x & 0x60e0u16) by (bit_vector)
            requires
                b == (x & 0xe0ffu16) | (f << 8u16),
                f <= 0x1f,
        ;
        PcmOutputVolume { bits: b }
    }

    pub fn with_mute(self, v: bool) -> (r: Self)
        ensures
            r.spec_mute() == v,
            r.spec_right() == self.spec_right(),
            r.spec_left() == self.spec_left(),
            r.spec_reserved() == self.spec_reserved(),
    {
        let x = self.bits;
        let m: u16 = if v { 0x8000u16 } else { 0 };
        let b = (x & 0x7fffu16) | m;
        assert(((b >> 15u16) & 1 == 1) == (m == 0x8000u16)
            && b & 0x1f == x & 0x1f
            && (b >> 8u16) & 0x1f == (x >> 8u16) & 0x1f
            && b & 0x60e0u16 == x & 0x60e0u16) by (bit_vector)
            requires
                b == (x & 0x7fffu16) | m,
                m == 0x8000u16 || m == 0,
        ;
        PcmOutputVolume { bits: b }
    }

    /// Encoding a set of field values and decoding the raw value gives the
    /// same values back, with the reserved bits clear; and any raw value is
    /// the encoding of its own fields together with its reserved bits.
    pub proof fn lemma_round_trip(right: u16, left: u16, mute: bool, x: Self)
        requires
            right <= 0x1f,
            left <= 0x1f,
        ensures
            ({
                let s = PcmOutputVolume { bits: Self::layout(right, left, mute) };
                s.spec_right() == right
                    && s.spec_left() == left
                    && s.spec_mute() == mute
                    && s.spec_reserved() == 0
            }),
            Self::layout(x.spec_right(), x.spec_left(), x.spec_mute()) | x.spec_reserved() == x.bits,
    {
        let y = Self::layout(right, left, mute);
        assert(y & 0x1f == right
            && (y >> 8u16) & 0x1f == left
            && ((y >> 15u16) & 1 == 1) == mute
            && y & 0x60e0u16 == 0) by (bit_vector)
            requires
                y == right | (left << 8u16) | (if mute { 0x8000u16 } else { 0u16 }),
                right <= 0x1f,
                left <= 0x1f,
        ;
        let b = x.bits;
        assert(((b & 0x1f)
            | (((b >> 8u16) & 0x1f) << 8u16)
            | (if ((b >> 15u16) & 1 == 1) { 0x8000u16 } else { 0u16 }))
            | (b & 0x60e0u16) == b) by (bit_vector);
    }
}

/// Transfer control register of an output box: run, reset and three
/// interrupt enables in bits 0..5; bits 5..8 are reserved.
#[derive(Clone, Copy, Debug, PartialEq, Eq, Structural)]
pub struct RegBoxTransfer {
    pub bits: u8,
}

impl RegBoxTransfer {
    pub open spec fn spec_transfer_data(self) -> bool {
        self.bits & 1 == 1
    }

    pub open spec fn spec_reset(self) -> bool {
        (self.bits >> 1u8) & 1 == 1
    }

    pub open spec fn spec_last_ent_fire_intr(self) -> bool {
        (self.bits >> 2u8) & 1 == 1
    }

    pub open spec fn spec_ioc_intr(self) -> bool {
        (self.bits >> 3u8) & 1 == 1
    }

    pub open spec fn spec_fifo_err_intr(self) -> bool {
        (self.bits >> 4u8) & 1 == 1
    }

    pub open spec fn spec_reserved(self) -> u8 {
        self.bits & 0xe0u8
    }

    /// The raw value with the given fields (enumerated ones by code) and the
    /// reserved bits clear.
    pub open spec fn layout(transfer_data: bool, reset: bool, last_ent_fire_intr: bool, ioc_intr: bool, fifo_err_intr: bool) -> u8 {
        (if transfer_data { 0x1u8 } else { 0u8 }) | (if reset { 0x2u8 } else { 0u8 }) | (if last_ent_fire_intr { 0x4u8 } else { 0u8 }) | (if ioc_intr { 0x8u8 } else { 0u8 }) | (if fifo_err_intr { 0x10u8 } else { 0u8 })
    }

    /// A freshly made register: every bit clear, so every flag off, every
    /// number zero and every enumerated field at its default variant.
    pub fn new() -> (r: Self)
        ensures
            r.bits == 0,
            !r.spec_transfer_data(),
            !r.spec_reset(),
            !r.spec_last_ent_fire_intr(),
            !r.spec_ioc_intr(),
            !r.spec_fifo_err_intr(),
            r.spec_reserved() == 0,
    {
        proof {
            lemma_zero_fields_u8(0, 0x1);
            lemma_zero_fields_u8(1, 0x1);
            lemma_zero_fields_u8(2, 0x1);
            lemma_zero_fields_u8(3, 0x1);
            lemma_zero_fields_u8(4, 0x1);
            lemma_zero_fields_u8(0, 0xe0);
        }
        RegBoxTransfer { bits: 0 }
    }

    pub fn from_bits(bits: u8) -> (r: Self)
        ensures
            r.bits == bits,
    {
        RegBoxTransfer { bits }
    }

    pub fn into_bits(self) -> (r: u8)
        ensures
            r == self.bits,
    {
        self.bits
    }

    pub fn transfer_data(&self) -> (r: bool)
        ensures
            r == self.spec_transfer_data(),
    {
        self.bits & 1 == 1
    }

    pub fn reset(&self) -> (r: bool)
        ensures
            r == self.spec_reset(),
    {
        (self.bits >> 1u8) & 1 == 1
    }

    pub fn last_ent_fire_intr(&self) -> (r: bool)
        ensures
            r == self.spec_last_ent_fire_intr(),
    {
        (self.bits >> 2u8) & 1 == 1
    }

    pub fn ioc_intr(&self) -> (r: bool)
        ensures
            r == self.spec_ioc_intr(),
    {
        (self.bits >> 3u8) & 1 == 1
    }

    pub fn fifo_err_intr(&self) -> (r: bool)
        ensures
            r == self.spec_fifo_err_intr(),
    {
        (self.bits >> 4u8) & 1 == 1
    }

    pub fn with_transfer_data(self, v: bool) -> (r: Self)
        ensures
            r.spec_transfer_data() == v,
            r.spec_reset() == self.spec_reset(),
            r.spec_last_ent_fire_intr() == self.spec_last_ent_fire_intr(),
            r.spec_ioc_intr() == self.spec_ioc_intr(),
            r.spec_fifo_err_intr() == self.spec_fifo_err_intr(),
            r.spec_reserved() == self.spec_reserved(),
    {
        let x = self.bits;
        let m: u8 = if v { 0x1u8 } else { 0 };
        let b = (x & 0xfeu8) | m;
        assert((b & 1 == 1) == (m == 0x1u8)
            && (b >> 1u8) & 1 == (x >> 1u8) & 1
            && (b >> 2u8) & 1 == (x >> 2u8) & 1
            && (b >> 3u8) & 1 == (x >> 3u8) & 1
            && (b >> 4u8) & 1 == (x >> 4u8) & 1
            && b & 0xe0u8 == x & 0xe0u8) by (bit_vector)
            requires
                b == (x & 0xfeu8) | m,
                m == 0x1u8 || m == 0,
        ;
        RegBoxTransfer { bits: b }
    }

    pub fn with_reset(self, v: bool) -> (r: Self)
        ensures
            r.spec_reset() == v,
            r.spec_transfer_data() == self.spec_transfer_data(),
            r.spec_last_ent_fire_intr() == self.spec_last_ent_fire_intr(),
            r.spec_ioc_intr() == self.spec_ioc_intr(),
            r.spec_fifo_err_intr() == self.spec_fifo_err_intr(),
            r.spec_reserved() == self.spec_reserved(),
    {
        let x = self.bits;
        let m: u8 = if v { 0x2u8 } else { 0 };
        let b = (x & 0xfdu8) | m;
        assert(((b >> 1u8) & 1 == 1) == (m == 0x2u8)
            && b & 1 == x & 1
            && (b >> 2u8) & 1 == (x >> 2u8) & 1
            && (b >> 3u8) & 1 == (x >> 3u8) & 1
            && (b >> 4u8) & 1 == (x >> 4u8) & 1
            && b & 0xe0u8 == x & 0xe0u8) by (bit_vector)
            requires
                b == (x & 0xfdu8) | m,
                m == 0x2u8 || m == 0,
        ;
        RegBoxTransfer { bits: b }
    }

    pub fn with_last_ent_fire_intr(self, v: bool) -> (r: Self)
        ensures
            r.spec_last_ent_fire_intr() == v,
            r.spec_transfer_data() == self.spec_transfer_data(),
            r.spec_reset() == self.spec_reset(),
            r.spec_ioc_intr() == self.spec_ioc_intr(),
            r.spec_fifo_err_intr() == self.spec_fifo_err_intr(),
            r.spec_reserved() == self.spec_reserved(),
    {
        let x = self.bits;
        let m: u8 = if v { 0x4u8 } else { 0 };
        let b = (x & 0xfbu8) | m;
        assert(((b >> 2u8) & 1 == 1) == (m == 0x4u8)
            && b & 1 == x & 1
            && (b >> 1u8) & 1 == (x >> 1u8) & 1
            && (b >> 3u8) & 1 == (x >> 3u8) & 1
            && (b >> 4u8) & 1 == (x >> 4u8) & 1
            && b & 0xe0u8 == x & 0xe0u8) by (bit_vector)
            requires
                b == (x & 0xfbu8) | m,
                m == 0x4u8 || m == 0,
        ;
        RegBoxTransfer { bits: b }
    }

    pub fn with_ioc_intr(self, v: bool) -> (r: Self)
        ensures
            r.spec_ioc_intr() == v,
            r.spec_transfer_data() == self.spec_transfer_data(),
            r.spec_reset() == self.spec_reset(),
            r.spec_last_ent_fire_intr() == self.spec_last_ent_fire_intr(),
            r.spec_fifo_err_intr() == self.spec_fifo_err_intr(),
            r.spec_reserved() == self.spec_reserved(),
    {
        let x = self.bits;
        let m: u8 = if v { 0x8u8 } else { 0 };
        let b = (x & 0xf7u8) | m;
        assert(((b >> 3u8) & 1 == 1) == (m == 0x8u8)
            && b & 1 == x & 1
            && (b >> 1u8) & 1 == (x >> 1u8) & 1
            && (b >> 2u8) & 1 == (x >> 2u8) & 1
            && (b >> 4u8) & 1 == (x >> 4u8) & 1
            && b & 0xe0u8 == x & 0xe0u8) by (bit_vector)
            requires
                b == (x & 0xf7u8) | m,
                m == 0x8u8 || m == 0,
        ;
        RegBoxTransfer { bits: b }
    }

    pub fn with_fifo_err_intr(self, v: bool) -> (r: Self)
        ensures
            r.spec_fifo_err_intr() == v,
            r.spec_transfer_data() == self.spec_transfer_data(),
            r.spec_reset() == self.spec_reset(),
            r.spec_last_ent_fire_intr() == self.spec_last_ent_fire_intr(),
            r.spec_ioc_intr() == self.spec_ioc_intr(),
            r.spec_reserved() == self.spec_reserved(),
    {
        let x = self.bits;
        let m: u8 = if v { 0x10u8 } else { 0 };
        let b = (x & 0xefu8) | m;
        assert(((b >> 4u8) & 1 == 1) == (m == 0x10u8)
            && b & 1 == x & 1
            && (b >> 1u8) & 1 == (x >> 1u8) & 1
            && (b >> 2u8) & 1 == (x >> 2u8) & 1
            && (b >> 3u8) & 1 == (x >> 3u8) & 1
            && b & 0xe0u8 == x & 0xe0u8) by (bit_vector)
            requires
                b == (x & 0xefu8) | m,
                m == 0x10u8 || m == 0,
        ;
        RegBoxTransfer { bits: b }
    }

    /// Encoding a set of field values and decoding the raw value gives the
    /// same values back, with the reserved bits clear; and any raw value is
    /// the encoding of its own fields together with its reserved bits.
    pub proof fn lemma_round_trip(transfer_data: bool, reset: bool, last_ent_fire_intr: bool, ioc_intr: bool, fifo_err_intr: bool, x: Self)
        ensures
            ({
                let s = RegBoxTransfer { bits: Self::layout(transfer_data, reset, last_ent_fire_intr, ioc_intr, fifo_err_intr) };
                s.spec_transfer_data() == transfer_data
                    && s.spec_reset() == reset
                    && s.spec_last_ent_fire_intr() == last_ent_fire_intr
                    && s.spec_ioc_intr() == ioc_intr
                    && s.spec_fifo_err_intr() == fifo_err_intr
                    && s.spec_reserved() == 0
            }),
            Self::layout(x.spec_transfer_data(), x.spec_reset(), x.spec_last_ent_fire_intr(), x.spec_ioc_intr(), x.spec_fifo_err_intr()) | x.spec_reserved() == x.bits,
    {
        let y = Self::layout(transfer_data, reset, last_ent_fire_intr, ioc_intr, fifo_err_intr);
        assert((y & 1 == 1) == transfer_data
            && ((y >> 1u8) & 1 == 1) == reset
            && ((y >> 2u8) & 1 == 1) == last_ent_fire_intr
            && ((y >> 3u8) & 1 == 1) == ioc_intr
            && ((y >> 4u8) & 1 == 1) == fifo_err_intr
            && y & 0xe0u8 == 0) by (bit_vector)
            requires
                y == (if transfer_data { 0x1u8 } else { 0u8 }) | (if reset { 0x2u8 } else { 0u8 }) | (if last_ent_fire_intr { 0x4u8 } else { 0u8 }) | (if ioc_intr { 0x8u8 } else { 0u8 }) | (if fifo_err_intr { 0x10u8 } else { 0u8 }),
        ;
        let b = x.bits;
        assert(((if (b & 1 == 1) { 0x1u8 } else { 0u8 })
            | (if ((b >> 1u8) & 1 == 1) { 0x2u8 } else { 0u8 })
            | (if ((b >> 2u8) & 1 == 1) { 0x4u8 } else { 0u8 })
            | (if ((b >> 3u8) & 1 == 1) { 0x8u8 } else { 0u8 })
            | (if ((b >> 4u8) & 1 == 1) { 0x10u8 } else { 0u8 }))
            | (b & 0xe0u8) == b) by (bit_vector);
    }
}

/// Transfer status register of an output box: halted-or-running, end of
/// transfer and three interrupt flags in bits 0..5; bits 5..16 are reserved.
#[derive(Clone, Copy, Debug, PartialEq, Eq, Structural)]
pub struct RegBoxStatus {
    pub bits: u16,
}

impl RegBoxStatus {
    pub open spec fn spec_transfer_data(self) -> bool {
        self.bits & 1 == 1
    }

    pub open spec fn spec_end_of_transfer(self) -> bool {
        (self.bits >> 1u16) & 1 == 1
    }

    pub open spec fn spec_last_ent_fire_intr(self) -> bool {
        (self.bits >> 2u16) & 1 == 1
    }

    pub open spec fn spec_ioc_intr(self) -> bool {
        (self.bits >> 3u16) & 1 == 1
    }

    pub open spec fn spec_fifo_err_intr(self) -> bool {
        (self.bits >> 4u16) & 1 == 1
    }

    pub open spec fn spec_reserved(self) -> u16 {
        self.bits & 0xffe0u16
    }

    /// The raw value with the given fields (enumerated ones by code) and the
    /// reserved bits clear.
    pub open spec fn layout(transfer_data: bool, end_of_transfer: bool, last_ent_fire_intr: bool, ioc_intr: bool, fifo_err_intr: bool) -> u16 {
        (if transfer_data { 0x1u16 } else { 0u16 }) | (if end_of_transfer { 0x2u16 } else { 0u16 }) | (if last_ent_fire_intr { 0x4u16 } else { 0u16 }) | (if ioc_intr { 0x8u16 } else { 0u16 }) | (if fifo_err_intr { 0x10u16 } else { 0u16 })
    }

    /// A freshly made register: every bit clear, so every flag off, every
    /// number zero and every enumerated field at its default variant.
    pub fn new() -> (r: Self)
        ensures
            r.bits == 0,
            !r.spec_transfer_data(),
            !r.spec_end_of_transfer(),
            !r.spec_last_ent_fire_intr(),
            !r.spec_ioc_intr(),
            !r.spec_fifo_err_intr(),
            r.spec_reserved() == 0,
    {
        proof {
            lemma_zero_fields_u16(0, 0x1);
            lemma_zero_fields_u16(1, 0x1);
            lemma_zero_fields_u16(2, 0x1);
            lemma_zero_fields_u16(3, 0x1);
            lemma_zero_fields_u16(4, 0x1);
            lemma_zero_fields_u16(0, 0xffe0);
        }
        RegBoxStatus { bits: 0 }
    }

    pub fn from_bits(bits: u16) -> (r: Self)
        ensures
            r.bits == bits,
    {
        RegBoxStatus { bits }
    }

    pub fn into_bits(self) -> (r: u16)
        ensures
            r == self.bits,
    {
        self.bits
    }

    pub fn transfer_data(&self) -> (r: bool)
        ensures
            r == self.spec_transfer_data(),
    {
        self.bits & 1 == 1
    }

    pub fn end_of_transfer(&self) -> (r: bool)
        ensures
            r == self.spec_end_of_transfer(),
    {
        (self.bits >> 1u16) & 1 == 1
    }

    pub fn last_ent_fire_intr(&self) -> (r: bool)
        ensures
            r == self.spec_last_ent_fire_intr(),
    {
        (self.bits >> 2u16) & 1 == 1
    }

    pub fn ioc_intr(&self) -> (r: bool)
        ensures
            r == self.spec_ioc_intr(),
    {
        (self.bits >> 3u16) & 1 == 1
    }

    pub fn fifo_err_intr(&self) -> (r: bool)
        ensures
            r == self.spec_fifo_err_intr(),
    {
        (self.bits >> 4u16) & 1 == 1
    }

    pub fn with_transfer_data(self, v: bool) -> (r: Self)
        ensures
            r.spec_transfer_data() == v,
            r.spec_end_of_transfer() == self.spec_end_of_transfer(),
            r.spec_last_ent_fire_intr() == self.spec_last_ent_fire_intr(),
            r.spec_ioc_intr() == self.spec_ioc_intr(),
            r.spec_fifo_err_intr() == self.spec_fifo_err_intr(),
            r.spec_reserved() == self.spec_reserved(),
    {
        let x = self.bits;
        let m: u16 = if v { 0x1u16 } else { 0 };
        let b = (x & 0xfffeu16) | m;
        assert((b & 1 == 1) == (m == 0x1u16)
            && (b >> 1u16) & 1 == (x >> 1u16) & 1
            && (b >> 2u16) & 1 == (x >> 2u16) & 1
            && (b >> 3u16) & 1 == (x >> 3u16) & 1
            && (b >> 4u16) & 1 == (x >> 4u16) & 1
            && b & 0xffe0u16 == x & 0xffe0u16) by (bit_vector)
            requires
                b == (x & 0xfffeu16) | m,
                m == 0x1u16 || m == 0,
        ;
        RegBoxStatus { bits: b }
    }

    pub fn with_end_of_transfer(self, v: bool) -> (r: Self)
        ensures
            r.spec_end_of_transfer() == v,
            r.spec_transfer_data() == self.spec_transfer_data(),
            r.spec_last_ent_fire_intr() == self.spec_last_ent_fire_intr(),
            r.spec_ioc_intr() == self.spec_ioc_intr(),
            r.spec_fifo_err_intr() == self.spec_fifo_err_intr(),
            r.spec_reserved() == self.spec_reserved(),
    {
        let x = self.bits;
        let m: u16 = if v { 0x2u16 } else { 0 };
        let b = (x & 0xfffdu16) | m;
        assert(((b >> 1u16) & 1 == 1) == (m == 0x2u16)
            && b & 1 == x & 1
            && (b >> 2u16) & 1 == (x >> 2u16) & 1
            && (b >> 3u16) & 1 == (x >> 3u16) & 1
            && (b >> 4u16) & 1 == (x >> 4u16) & 1
            && b & 0xffe0u16 == x & 0xffe0u16) by (bit_vector)
            requires
                b == (x & 0xfffdu16) | m,
                m == 0x2u16 || m == 0,
        ;
        RegBoxStatus { bits: b }
    }

    pub fn with_last_ent_fire_intr(self, v: bool) -> (r: Self)
        ensures
            r.spec_last_ent_fire_intr() == v,
            r.spec_transfer_data() == self.spec_transfer_data(),
            r.spec_end_of_transfer() == self.spec_end_of_transfer(),
            r.spec_ioc_intr() == self.spec_ioc_intr(),
            r.spec_fifo_err_intr() == self.spec_fifo_err_intr(),
            r.spec_reserved() == self.spec_reserved(),
    {
        let x = self.bits;
        let m: u16 = if v { 0x4u16 } else { 0 };
        let b = (x & 0xfffbu16) | m;
        assert(((b >> 2u16) & 1 == 1) == (m == 0x4u16)
            && b & 1 == x & 1
            && (b >> 1u16) & 1 == (x >> 1u16) & 1
            && (b >> 3u16) & 1 == (x >> 3u16) & 1
            && (b >> 4u16) & 1 == (x >> 4u16) & 1
            && b & 0xffe0u16 == x & 0xffe0u16) by (bit_vector)
            requires
                b == (x & 0xfffbu16) | m,
                m == 0x4u16 || m == 0,
        ;
        RegBoxStatus { bits: b }
    }

    pub fn with_ioc_intr(self, v: bool) -> (r: Self)
        ensures
            r.spec_ioc_intr() == v,
            r.spec_transfer_data() == self.spec_transfer_data(),
            r.spec_end_of_transfer() == self.spec_end_of_transfer(),
            r.spec_last_ent_fire_intr() == self.spec_last_ent_fire_intr(),
            r.spec_fifo_err_intr() == self.spec_fifo_err_intr(),
            r.spec_reserved() == self.spec_reserved(),
    {
        let x = self.bits;
        let m: u16 = if v { 0x8u16 } else { 0 };
        let b = (x & 0xfff7u16) | m;
        assert(((b >> 3u16) & 1 == 1) == (m == 0x8u16)
            && b & 1 == x & 1
            && (b >> 1u16) & 1 == (x >> 1u16) & 1
            && (b >> 2u16) & 1 == (x >> 2u16) & 1
            && (b >> 4u16) & 1 == (x >> 4u16) & 1
            && b & 0xffe0u16 == x & 0xffe0u16) by (bit_vector)
            requires
                b == (x & 0xfff7u16) | m,
                m == 0x8u16 || m == 0,
        ;
        RegBoxStatus { bits: b }
    }

    pub fn with_fifo_err_intr(self, v: bool) -> (r: Self)
        ensures
            r.spec_fifo_err_intr() == v,
            r.spec_transfer_data() == self.spec_transfer_data(),
            r.spec_end_of_transfer() == self.spec_end_of_transfer(),
            r.spec_last_ent_fire_intr() == self.spec_last_ent_fire_intr(),
            r.spec_ioc_intr() == self.spec_ioc_intr(),
            r.spec_reserved() == self.spec_reserved(),
    {
        let x = self.bits;
        let m: u16 = if v { 0x10u16 } else { 0 };
        let b = (x & 0xffefu16) | m;
        assert(((b >> 4u16) & 1 == 1) == (m == 0x10u16)
            && b & 1 == x & 1
            && (b >> 1u16) & 1 == (x >> 1u16) & 1
            && (b >> 2u16) & 1 == (x >> 2u16) & 1
            && (b >> 3u16) & 1 == (x >> 3u16) & 1
            && b & 0xffe0u16 == x & 0xffe0u16) by (bit_vector)
            requires
                b == (x & 0xffefu16) | m,
                m == 0x10u16 || m == 0,
        ;
        RegBoxStatus { bits: b }
    }

    /// Encoding a set of field values and decoding the raw value gives the
    /// same values back, with the reserved bits clear; and any raw value is
    /// the encoding of its own fields together with its reserved bits.
    pub proof fn lemma_round_trip(transfer_data: bool, end_of_transfer: bool, last_ent_fire_intr: bool, ioc_intr: bool, fifo_err_intr: bool, x: Self)
        ensures
            ({
                let s = RegBoxStatus { bits: Self::layout(transfer_data, end_of_transfer, last_ent_fire_intr, ioc_intr, fifo_err_intr) };
                s.spec_transfer_data() == transfer_data
                    && s.spec_end_of_transfer() == end_of_transfer
                    && s.spec_last_ent_fire_intr() == last_ent_fire_intr
                    && s.spec_ioc_intr() == ioc_intr
                    && s.spec_fifo_err_intr() == fifo_err_intr
                    && s.spec_reserved() == 0
            }),
            Self::layout(x.spec_transfer_data(), x.spec_end_of_transfer(), x.spec_last_ent_fire_intr(), x.spec_ioc_intr(), x.spec_fifo_err_intr()) | x.spec_reserved() == x.bits,
    {
        let y = Self::layout(transfer_data, end_of_transfer, last_ent_fire_intr, ioc_intr, fifo_err_intr);
        assert((y & 1 == 1) == transfer_data
            && ((y >> 1u16) & 1 == 1) == end_of_transfer
            && ((y >> 2u16) & 1 == 1) == last_ent_fire_intr
            && ((y >> 3u16) & 1 == 1) == ioc_intr
            && ((y >> 4u16) & 1 == 1) == fifo_err_intr
            && y & 0xffe0u16 == 0) by (bit_vector)
            requires
                y == (if transfer_data { 0x1u16 } else { 0u16 }) | (if end_of_transfer { 0x2u16 } else { 0u16 }) | (if last_ent_fire_intr { 0x4u16 } else { 0u16 }) | (if ioc_intr { 0x8u16 } else { 0u16 }) | (if fifo_err_intr { 0x10u16 } else { 0u16 }),
        ;
        let b = x.bits;
        assert(((if (b & 1 == 1) { 0x1u16 } else { 0u16 })
            | (if ((b >> 1u16) & 1 == 1) { 0x2u16 } else { 0u16 })
            | (if ((b >> 2u16) & 1 == 1) { 0x4u16 } else { 0u16 })
            | (if ((b >> 3u16) & 1 == 1) { 0x8u16 } else { 0u16 })
            | (if ((b >> 4u16) & 1 == 1) { 0x10u16 } else { 0u16 }))
            | (b & 0xffe0u16) == b) by (bit_vector);
    }
}

/// Global control register: interrupt enable, cold reset, warm reset and
/// shut down in bits 0..4, channel count in bits 20..22, sample width in
/// bits 22..24; the other bits are reserved.
#[derive(Clone, Copy, Debug, PartialEq, Eq, Structural)]
pub struct GlobalControl {
    pub bits: u32,
}

impl GlobalControl {
    pub open spec fn spec_interrupts(self) -> bool {
        self.bits & 1 == 1
    }

    pub open spec fn spec_cold_reset(self) -> bool {
        (self.bits >> 1u32) & 1 == 1
    }

    pub open spec fn spec_warm_reset(self) -> bool {
        (self.bits >> 2u32) & 1 == 1
    }

    pub open spec fn spec_shut_down(self) -> bool {
        (self.bits >> 3u32) & 1 == 1
    }

    pub open spec fn spec_channels_code(self) -> u32 {
        (self.bits >> 20u32) & 0x3
    }

    pub open spec fn spec_channels(self) -> Option<PcmChannels> {
        PcmChannels::spec_from_code(self.spec_channels_code() as u32)
    }

    pub open spec fn spec_pcm_out_mode_code(self) -> u32 {
        (self.bits >> 22u32) & 0x3
    }

    pub open spec fn spec_pcm_out_mode(self) -> Option<PcmOutMode> {
        PcmOutMode::spec_from_code(self.spec_pcm_out_mode_code() as u32)
    }

    pub open spec fn spec_reserved(self) -> u32 {
        self.bits & 0xff0ffff0u32
    }

    /// The raw value with the given fields (enumerated ones by code) and the
    /// reserved bits clear.
    pub open spec fn layout(interrupts: bool, cold_reset: bool, warm_reset: bool, shut_down: bool, channels: u32, pcm_out_mode: u32) -> u32 {
        (if interrupts { 0x1u32 } else { 0u32 }) | (if cold_reset { 0x2u32 } else { 0u32 }) | (if warm_reset { 0x4u32 } else { 0u32 }) | (if shut_down { 0x8u32 } else { 0u32 }) | (channels << 20u32) | (pcm_out_mode << 22u32)
    }

    /// A freshly made register: every bit clear, so every flag off, every
    /// number zero and every enumerated field at its default variant.
    pub fn new() -> (r: Self)
        ensures
            r.bits == 0,
            !r.spec_interrupts(),
            !r.spec_cold_reset(),
            !r.spec_warm_reset(),
            !r.spec_shut_down(),
            r.spec_channels() == Some(PcmChannels::Two),
            r.spec_pcm_out_mode() == Some(PcmOutMode::SixteenSamples),
            r.spec_reserved() == 0,
    {
        proof {
            lemma_zero_fields_u32(0, 0x1);
            lemma_zero_fields_u32(1, 0x1);
            lemma_zero_fields_u32(2, 0x1);
            lemma_zero_fields_u32(3, 0x1);
            lemma_zero_fields_u32(20, 0x3);
            lemma_zero_fields_u32(22, 0x3);
            lemma_zero_fields_u32(0, 0xff0ffff0);
        }
        GlobalControl { bits: 0 }
    }

    pub fn from_bits(bits: u32) -> (r: Self)
        ensures
            r.bits == bits,
    {
        GlobalControl { bits }
    }

    pub fn into_bits(self) -> (r: u32)
        ensures
            r == self.bits,
    {
        self.bits
    }

    pub fn interrupts(&self) -> (r: bool)
        ensures
            r == self.spec_interrupts(),
    {
        self.bits & 1 == 1
    }

    pub fn cold_reset(&self) -> (r: bool)
        ensures
            r == self.spec_cold_reset(),
    {
        (self.bits >> 1u32) & 1 == 1
    }

    pub fn warm_reset(&self) -> (r: bool)
        ensures
            r == self.spec_warm_reset(),
    {
        (self.bits >> 2u32) & 1 == 1
    }

    pub fn shut_down(&self) -> (r: bool)
        ensures
            r == self.spec_shut_down(),
    {
        (self.bits >> 3u32) & 1 == 1
    }

    pub fn channels(&self) -> (r: Option<PcmChannels>)
        ensures
            r == self.spec_channels(),
    {
        PcmChannels::from_code((self.bits >> 20u32) & 0x3)
    }

    pub fn pcm_out_mode(&self) -> (r: Option<PcmOutMode>)
        ensures
            r == self.spec_pcm_out_mode(),
    {
        PcmOutMode::from_code((self.bits >> 22u32) & 0x3)
    }

    pub fn with_interrupts(self, v: bool) -> (r: Self)
        ensures
            r.spec_interrupts() == v,
            r.spec_cold_reset() == self.spec_cold_reset(),
            r.spec_warm_reset() == self.spec_warm_reset(),
            r.spec_shut_down() == self.spec_shut_down(),
            r.spec_channels_code() == self.spec_channels_code(),
            r.spec_pcm_out_mode_code() == self.spec_pcm_out_mode_code(),
            r.spec_reserved() == self.spec_reserved(),
    {
        let x = self.bits;
        let m: u32 = if v { 0x1u32 } else { 0 };
        let b = (x & 0xfffffffeu32) | m;
        assert((b & 1 == 1) == (m == 0x1u32)
            && (b >> 1u32) & 1 == (x >> 1u32) & 1
            && (b >> 2u32) & 1 == (x >> 2u32) & 1
            && (b >> 3u32) & 1 == (x >> 3u32) & 1
            && (b >> 20u32) & 0x3 == (x >> 20u32) & 0x3
            && (b >> 22u32) & 0x3 == (x >> 22u32) & 0x3
            && b & 0xff0ffff0u32 == x & 0xff0ffff0u32) by (bit_vector)
            requires
                b == (x & 0xfffffffeu32) | m,
                m == 0x1u32 || m == 0,
        ;
        GlobalControl { bits: b }
    }

    pub fn with_cold_reset(self, v: bool) -> (r: Self)
        ensures
            r.spec_cold_reset() == v,
            r.spec_interrupts() == self.spec_interrupts(),
            r.spec_warm_reset() == self.spec_warm_reset(),
            r.spec_shut_down() == self.spec_shut_down(),
            r.spec_channels_code() == self.spec_channels_code(),
            r.spec_pcm_out_mode_code() == self.spec_pcm_out_mode_code(),
            r.spec_reserved() == self.spec_reserved(),
    {
        let x = self.bits;
        let m: u32 = if v { 0x2u32 } else { 0 };
        let b = (x & 0xfffffffdu32) | m;
        assert(((b >> 1u32) & 1 == 1) == (m == 0x2u32)
            && b & 1 == x & 1
            && (b >> 2u32) & 1 == (x >> 2u32) & 1
            && (b >> 3u32) & 1 == (x >> 3u32) & 1
            && (b >> 20u32) & 0x3 == (x >> 20u32) & 0x3
            && (b >> 22u32) & 0x3 == (x >> 22u32) & 0x3
            && b & 0xff0ffff0u32 == x & 0xff0ffff0u32) by (bit_vector)
            requires
                b == (x & 0xfffffffdu32) | m,
                m == 0x2u32 || m == 0,
        ;
        GlobalControl { bits: b }
    }

    pub fn with_warm_reset(self, v: bool) -> (r: Self)
        ensures
            r.spec_warm_reset() == v,
            r.spec_interrupts() == self.spec_interrupts(),
            r.spec_cold_reset() == self.spec_cold_reset(),
            r.spec_shut_down() == self.spec_shut_down(),
            r.spec_channels_code() == self.spec_channels_code(),
            r.spec_pcm_out_mode_code() == self.spec_pcm_out_mode_code(),
            r.spec_reserved() == self.spec_reserved(),
    {
        let x = self.bits;
        let m: u32 = if v { 0x4u32 } else { 0 };
        let b = (x & 0xfffffffbu32) | m;
        assert(((b >> 2u32) & 1 == 1) == (m == 0x4u32)
            && b & 1 == x & 1
            && (b >> 1u32) & 1 == (x >> 1u32) & 1
            && (b >> 3u32) & 1 == (x >> 3u32) & 1
            && (b >> 20u32) & 0x3 == (x >> 20u32) & 0x3
            && (b >> 22u32) & 0x3 == (x >> 22u32) & 0x3
            && b & 0xff0ffff0u32 == x & 0xff0ffff0u32) by (bit_vector)
            requires
                b == (x & 0xfffffffbu32) | m,
                m == 0x4u32 || m == 0,
        ;
        GlobalControl { bits: b }
    }

    pub fn with_shut_down(self, v: bool) -> (r: Self)
        ensures
            r.spec_shut_down() == v,
            r.spec_interrupts() == self.spec_interrupts(),
            r.spec_cold_reset() == self.spec_cold_reset(),
            r.spec_warm_reset() == self.spec_warm_reset(),
            r.spec_channels_code() == self.spec_channels_code(),
            r.spec_pcm_out_mode_code() == self.spec_pcm_out_mode_code(),
            r.spec_reserved() == self.spec_reserved(),
    {
        let x = self.bits;
        let m: u32 = if v { 0x8u32 } else { 0 };
        let b = (x & 0xfffffff7u32) | m;
        assert(((b >> 3u32) & 1 == 1) == (m == 0x8u32)
            && b & 1 == x & 1
            && (b >> 1u32) & 1 == (x >> 1u32) & 1
            && (b >> 2u32) & 1 == (x >> 2u32) & 1
            && (b >> 20u32) & 0x3 == (x >> 20u32) & 0x3
            && (b >> 22u32) & 0x3 == (x >> 22u32) & 0x3
            && b & 0xff0ffff0u32 == x & 0xff0ffff0u32) by (bit_vector)
            requires
                b == (x & 0xfffffff7u32) | m,
                m == 0x8u32 || m == 0,
        ;
        GlobalControl { bits: b }
    }

    pub fn with_channels(self, v: PcmChannels) -> (r: Self)
        ensures
            r.spec_channels_code() == v.spec_code() as u32,
            r.spec_channels() == Some(v),
            r.spec_interrupts() == self.spec_interrupts(),
            r.spec_cold_reset() == self.spec_cold_reset(),
            r.spec_warm_reset() == self.spec_warm_reset(),
            r.spec_shut_down() == self.spec_shut_down(),
            r.spec_pcm_out_mode_code() == self.spec_pcm_out_mode_code(),
            r.spec_reserved() == self.spec_reserved(),
    {
        let x = self.bits;
        let f = v.code() as u32;
        let b = (x & 0xffcfffffu32) | (f << 20u32);
        assert((b >> 20u32) & 0x3 == f
            && b & 1 == x & 1
            && (b >> 1u32) & 1 == (x >> 1u32) & 1
            && (b >> 2u32) & 1 == (x >> 2u32) & 1
            && (b >> 3u32) & 1 == (x >> 3u32) & 1
            && (b >> 22u32) & 0x3 == (x >> 22u32) & 0x3
            && b & 0xff0ffff0u32 == x & 0xff0ffff0u32) by (bit_vector)
            requires
                b == (x & 0xffcfffffu32) | (f << 20u32),
                f <= 3,
        ;
        GlobalControl { bits: b }
    }

    pub fn with_pcm_out_mode(self, v: PcmOutMode) -> (r: Self)
        ensures
            r.spec_pcm_out_mode_code() == v.spec_code() as u32,
            r.spec_pcm_out_mode() == Some(v),
            r.spec_interrupts() == self.spec_interrupts(),
            r.spec_cold_reset() == self.spec_cold_reset(),
            r.spec_warm_reset() == self.spec_warm_reset(),
            r.spec_shut_down() == self.spec_shut_down(),
            r.spec_channels_code() == self.spec_channels_code(),
            r.spec_reserved() == self.spec_reserved(),
    {
        let x = self.bits;
        let f = v.code() as u32;
        let b = (x & 0xff3fffffu32) | (f << 22u32);
        assert((b >> 22u32) & 0x3 == f
            && b & 1 == x & 1
            && (b >> 1u32) & 1 == (x >> 1u32) & 1
            && (b >> 2u32) & 1 == (x >> 2u32) & 1
            && (b >> 3u32) & 1 == (x >> 3u32) & 1
            && (b >> 20u32) & 0x3 == (x >> 20u32) & 0x3
            && b & 0xff0ffff0u32 == x & 0xff0ffff0u32) by (bit_vector)
            requires
                b == (x & 0xff3fffffu32) | (f << 22u32),
                f <= 3,
        ;
        GlobalControl { bits: b }
    }

    /// Encoding a set of field values and decoding the raw value gives the
    /// same values back, with the reserved bits clear; and any raw value is
    /// the encoding of its own fields together with its reserved bits.
    pub proof fn lemma_round_trip(interrupts: bool, cold_reset: bool, warm_reset: bool, shut_down: bool, channels: PcmChannels, pcm_out_mode: PcmOutMode, x: Self)
        ensures
            ({
                let s = GlobalControl { bits: Self::layout(interrupts, cold_reset, warm_reset, shut_down, channels.spec_code() as u32, pcm_out_mode.spec_code() as u32) };
                s.spec_interrupts() == interrupts
                    && s.spec_cold_reset() == cold_reset
                    && s.spec_warm_reset() == warm_reset
                    && s.spec_shut_down() == shut_down
                    && s.spec_channels() == Some(channels)
                    && s.spec_pcm_out_mode() == Some(pcm_out_mode)
                    && s.spec_reserved() == 0
            }),
            Self::layout(x.spec_interrupts(), x.spec_cold_reset(), x.spec_warm_reset(), x.spec_shut_down(), x.spec_channels_code(), x.spec_pcm_out_mode_code()) | x.spec_reserved() == x.bits,
    {
        let c_channels = channels.spec_code() as u32;
        let c_pcm_out_mode = pcm_out_mode.spec_code() as u32;
        let y = Self::layout(interrupts, cold_reset, warm_reset, shut_down, c_channels, c_pcm_out_mode);
        assert((y & 1 == 1) == interrupts
            && ((y >> 1u32) & 1 == 1) == cold_reset
            && ((y >> 2u32) & 1 == 1) == warm_reset
            && ((y >> 3u32) & 1 == 1) == shut_down
            && (y >> 20u32) & 0x3 == c_channels
            && (y >> 22u32) & 0x3 == c_pcm_out_mode
            && y & 0xff0ffff0u32 == 0) by (bit_vector)
            requires
                y == (if interrupts { 0x1u32 } else { 0u32 }) | (if cold_reset { 0x2u32 } else { 0u32 }) | (if warm_reset { 0x4u32 } else { 0u32 }) | (if shut_down { 0x8u32 } else { 0u32 }) | (c_channels << 20u32) | (c_pcm_out_mode << 22u32),
                c_channels <= 3,
                c_pcm_out_mode <= 3,
        ;
        let b = x.bits;
        assert(((if (b & 1 == 1) { 0x1u32 } else { 0u32 })
            | (if ((b >> 1u32) & 1 == 1) { 0x2u32 } else { 0u32 })
            | (if ((b >> 2u32) & 1 == 1) { 0x4u32 } else { 0u32 })
            | (if ((b >> 3u32) & 1 == 1) { 0x8u32 } else { 0u32 })
            | (((b >> 20u32) & 0x3) << 20u32)
            | (((b >> 22u32) & 0x3) << 22u32))
            | (b & 0xff0ffff0u32) == b) by (bit_vector);
    }
}

/// Global status register: the channel counts the codec offers in bits
/// 20..22 (read only) and the sample widths in bits 22..24; the other bits
/// are reserved.
#[derive(Clone, Copy, Debug, PartialEq, Eq, Structural)]
pub struct GlobalStatus {
    pub bits: u32,
}

impl GlobalStatus {
    pub open spec fn spec_channel_caps_code(self) -> u32 {
        (self.bits >> 20u32) & 0x3
    }

    pub open spec fn spec_channel_caps(self) -> Option<PcmChannels> {
        PcmChannels::spec_from_code(self.spec_channel_caps_code() as u32)
    }

    pub open spec fn spec_sample_caps_code(self) -> u32 {
        (self.bits >> 22u32) & 0x3
    }

    pub open spec fn spec_sample_caps(self) -> Option<PcmOutMode> {
        PcmOutMode::spec_from_code(self.spec_sample_caps_code() as u32)
    }

    pub open spec fn spec_reserved(self) -> u32 {
        self.bits & 0xff0fffffu32
    }

    /// The raw value with the given fields (enumerated ones by code) and the
    /// reserved bits clear.
    pub open spec fn layout(channel_caps: u32, sample_caps: u32) -> u32 {
        (channel_caps << 20u32) | (sample_caps << 22u32)
    }

    /// A freshly made register: every bit clear, so every flag off, every
    /// number zero and every enumerated field at its default variant.
    pub fn new() -> (r: Self)
        ensures
            r.bits == 0,
            r.spec_channel_caps() == Some(PcmChannels::Two),
            r.spec_sample_caps() == Some(PcmOutMode::SixteenSamples),
            r.spec_reserved() == 0,
    {
        proof {
            lemma_zero_fields_u32(20, 0x3);
            lemma_zero_fields_u32(22, 0x3);
            lemma_zero_fields_u32(0, 0xff0fffff);
        }
        GlobalStatus { bits: 0 }
    }

    pub fn from_bits(bits: u32) -> (r: Self)
        ensures
            r.bits == bits,
    {
        GlobalStatus { bits }
    }

    pub fn into_bits(self) -> (r: u32)
        ensures
            r == self.bits,
    {
        self.bits
    }

    pub fn channel_caps(&self) -> (r: Option<PcmChannels>)
        ensures
            r == self.spec_channel_caps(),
    {
        PcmChannels::from_code((self.bits >> 20u32) & 0x3)
    }

    pub fn sample_caps(&self) -> (r: Option<PcmOutMode>)
        ensures
            r == self.spec_sample_caps(),
    {
        PcmOutMode::from_code((self.bits >> 22u32) & 0x3)
    }

    pub fn with_sample_caps(self, v: PcmOutMode) -> (r: Self)
        ensures
            r.spec_sample_caps_code() == v.spec_code() as u32,
            r.spec_sample_caps() == Some(v),
            r.spec_channel_caps_code() == self.spec_channel_caps_code(),
            r.spec_reserved() == self.spec_reserved(),
    {
        let x = self.bits;
        let f = v.code() as u32;
        let b = (x & 0xff3fffffu32) | (f << 22u32);
        assert((b >> 22u32) & 0x3 == f
            && (b >> 20u32) & 0x3 == (x >> 20u32) & 0x3
            && b & 0xff0fffffu32 == x & 0xff0fffffu32) by (bit_vector)
            requires
                b == (x & 0xff3fffffu32) | (f << 22u32),
                f <= 3,
        ;
        GlobalStatus { bits: b }
    }

    /// Encoding a set of field values and decoding the raw value gives the
    /// same values back, with the reserved bits clear; and any raw value is
    /// the encoding of its own fields together with its reserved bits.
    pub proof fn lemma_round_trip(channel_caps: PcmChannels, sample_caps: PcmOutMode, x: Self)
        ensures
            ({
                let s = GlobalStatus { bits: Self::layout(channel_caps.spec_code() as u32, sample_caps.spec_code() as u32) };
                s.spec_channel_caps() == Some(channel_caps)
                    && s.spec_sample_caps() == Some(sample_caps)
                    && s.spec_reserved() == 0
            }),
            Self::layout(x.spec_channel_caps_code(), x.spec_sample_caps_code()) | x.spec_reserved() == x.bits,
    {
        let c_channel_caps = channel_caps.spec_code() as u32;
        let c_sample_caps = sample_caps.spec_code() as u32;
        let y = Self::layout(c_channel_caps, c_sample_caps);
        assert((y >> 20u32) & 0x3 == c_channel_caps
            && (y >> 22u32) & 0x3 == c_sample_caps
            && y & 0xff0fffffu32 == 0) by (bit_vector)
            requires
                y == (c_channel_caps << 20u32) | (c_sample_caps << 22u32),
                c_channel_caps <= 3,
                c_sample_caps <= 3,
        ;
        let b = x.bits;
        assert(((((b >> 20u32) & 0x3) << 20u32)
            | (((b >> 22u32) & 0x3) << 22u32))
            | (b & 0xff0fffffu32) == b) by (bit_vector);
    }
}

/// Control word of a buffer descriptor: last entry in bit 14, interrupt on
/// completion in bit 15; bits 0..14 are reserved.
#[derive(Clone, Copy, Debug, PartialEq, Eq, Structural)]
pub struct BufferDescCtl {
    pub bits: u16,
}

impl BufferDescCtl {
    pub open spec fn spec_last(self) -> bool {
        (self.bits >> 14u16) & 1 == 1
    }

    pub open spec fn spec_fire_interrupt(self) -> bool {
        (self.bits >> 15u16) & 1 == 1
    }

    pub open spec fn spec_reserved(self) -> u16 {
        self.bits & 0x3fffu16
    }

    /// The raw value with the given fields (enumerated ones by code) and the
    /// reserved bits clear.
    pub open spec fn layout(last: bool, fire_interrupt: bool) -> u16 {
        (if last { 0x4000u16 } else { 0u16 }) | (if fire_interrupt { 0x8000u16 } else { 0u16 })
    }

    /// A freshly made register: every bit clear, so every flag off, every
    /// number zero and every enumerated field at its default variant.
    pub fn new() -> (r: Self)
        ensures
            r.bits == 0,
            !r.spec_last(),
            !r.spec_fire_interrupt(),
            r.spec_reserved() == 0,
    {
        proof {
            lemma_zero_fields_u16(14, 0x1);
            lemma_zero_fields_u16(15, 0x1);
            lemma_zero_fields_u16(0, 0x3fff);
        }
        BufferDescCtl { bits: 0 }
    }

    pub fn from_bits(bits: u16) -> (r: Self)
        ensures
            r.bits == bits,
    {
        BufferDescCtl { bits }
    }

    pub fn into_bits(self) -> (r: u16)
        ensures
            r == self.bits,
    {
        self.bits
    }

    pub fn last(&self) -> (r: bool)
        ensures
            r == self.spec_last(),
    {
        (self.bits >> 14u16) & 1 == 1
    }

    pub fn fire_interrupt(&self) -> (r: bool)
        ensures
            r == self.spec_fire_interrupt(),
    {
        (self.bits >> 15u16) & 1 == 1
    }

    pub fn with_last(self, v: bool) -> (r: Self)
        ensures
            r.spec_last() == v,
            r.spec_fire_interrupt() == self.spec_fire_interrupt(),
            r.spec_reserved() == self.spec_reserved(),
    {
        let x = self.bits;
        let m: u16 = if v { 0x4000u16 } else { 0 };
        let b = (x & 0xbfffu16) | m;
        assert(((b >> 14u16) & 1 == 1) == (m == 0x4000u16)
            && (b >> 15u16) & 1 == (x >> 15u16) & 1
            && b & 0x3fffu16 == x & 0x3fffu16) by (bit_vector)
            requires
                b == (x & 0xbfffu16) | m,
                m == 0x4000u16 || m == 0,
        ;
        BufferDescCtl { bits: b }
    }

    pub fn with_fire_interrupt(self, v: bool) -> (r: Self)
        ensures
            r.spec_fire_interrupt() == v,
            r.spec_last() == self.spec_last(),
            r.spec_reserved() == self.spec_reserved(),
    {
        let x = self.bits;
        let m: u16 = if v { 0x8000u16 } else { 0 };
        let b = (x & 0x7fffu16) | m;
        assert(((b >> 15u16) & 1 == 1) == (m == 0x8000u16)
            && (b >> 14u16) & 1 == (x >> 14u16) & 1
            && b & 0x3fffu16 == x & 0x3fffu16) by (bit_vector)
            requires
                b == (x & 0x7fffu16) | m,
                m == 0x8000u16 || m == 0,
        ;
        BufferDescCtl { bits: b }
    }

    /// Encoding a set of field values and decoding the raw value gives the
    /// same values back, with the reserved bits clear; and any raw value is
    /// the encoding of its own fields together with its reserved bits.
    pub proof fn lemma_round_trip(last: bool, fire_interrupt: bool, x: Self)
        ensures
            ({
                let s = BufferDescCtl { bits: Self::layout(last, fire_interrupt) };
                s.spec_last() == last
                    && s.spec_fire_interrupt() == fire_interrupt
                    && s.spec_reserved() == 0
            }),
            Self::layout(x.spec_last(), x.spec_fire_interrupt()) | x.spec_reserved() == x.bits,
    {
        let y = Self::layout(last, fire_interrupt);
        assert(((y >> 14u16) & 1 == 1) == last
            && ((y >> 15u16) & 1 == 1) == fire_interrupt
            && y & 0x3fffu16 == 0) by (bit_vector)
            requires
                y == (if last { 0x4000u16 } else { 0u16 }) | (if fire_interrupt { 0x8000u16 } else { 0u16 }),
        ;
        let b = x.bits;
        assert(((if ((b >> 14u16) & 1 == 1) { 0x4000u16 } else { 0u16 })
            | (if ((b >> 15u16) & 1 == 1) { 0x8000u16 } else { 0u16 }))
            | (b & 0x3fffu16) == b) by (bit_vector);
    }
}

impl From<u16> for MasterOutputVolume {
    fn from(bits: u16) -> (r: Self) {
        MasterOutputVolume { bits }
    }
}

impl vstd::std_specs::convert::FromSpecImpl<u16> for MasterOutputVolume {
    open spec fn obeys_from_spec() -> bool {
        true
    }

    open spec fn from_spec(bits: u16) -> Self {
        MasterOutputVolume { bits }
    }
}

impl From<MasterOutputVolume> for u16 {
    fn from(r: MasterOutputVolume) -> (bits: u16) {
        r.bits
    }
}

impl vstd::std_specs::convert::FromSpecImpl<MasterOutputVolume> for u16 {
    open spec fn obeys_from_spec() -> bool {
        true
    }

    open spec fn from_spec(r: MasterOutputVolume) -> u16 {
        r.bits
    }
}

impl From<u16> for PcmOutputVolume {
    fn from(bits: u16) -> (r: Self) {
        PcmOutputVolume { bits }
    }
}

impl vstd::std_specs::convert::FromSpecImpl<u16> for PcmOutputVolume {
    open spec fn obeys_from_spec() -> bool {
        true
    }

    open spec fn from_spec(bits: u16) -> Self {
        PcmOutputVolume { bits }
    }
}

impl From<PcmOutputVolume> for u16 {
    fn from(r: PcmOutputVolume) -> (bits: u16) {
        r.bits
    }
}

impl vstd::std_specs::convert::FromSpecImpl<PcmOutputVolume> for u16 {
    open spec fn obeys_from_spec() -> bool {
        true
    }

    open spec fn from_spec(r: PcmOutputVolume) -> u16 {
        r.bits
    }
}

impl From<u8> for RegBoxTransfer {
    fn from(bits: u8) -> (r: Self) {
        RegBoxTransfer { bits }
    }
}

impl vstd::std_specs::convert::FromSpecImpl<u8> for RegBoxTransfer {
    open spec fn obeys_from_spec() -> bool {
        true
    }

    open spec fn from_spec(bits: u8) -> Self {
        RegBoxTransfer { bits }
    }
}

impl From<RegBoxTransfer> for u8 {
    fn from(r: RegBoxTransfer) -> (bits: u8) {
        r.bits
    }
}

impl vstd::std_specs::convert::FromSpecImpl<RegBoxTransfer> for u8 {
    open spec fn obeys_from_spec() -> bool {
        true
    }

    open spec fn from_spec(r: RegBoxTransfer) -> u8 {
        r.bits
    }
}

impl From<u16> for RegBoxStatus {
    fn from(bits: u16) -> (r: Self) {
        RegBoxStatus { bits }
    }
}

impl vstd::std_specs::convert::FromSpecImpl<u16> for RegBoxStatus {
    open spec fn obeys_from_spec() -> bool {
        true
    }

    open spec fn from_spec(bits: u16) -> Self {
        RegBoxStatus { bits }
    }
}

impl From<RegBoxStatus> for u16 {
    fn from(r: RegBoxStatus) -> (bits: u16) {
        r.bits
    }
}

impl vstd::std_specs::convert::FromSpecImpl<RegBoxStatus> for u16 {
    open spec fn obeys_from_spec() -> bool {
        true
    }

    open spec fn from_spec(r: RegBoxStatus) -> u16 {
        r.bits
    }
}

impl From<u32> for GlobalControl {
    fn from(bits: u32) -> (r: Self) {
        GlobalControl { bits }
    }
}

impl vstd::std_specs::convert::FromSpecImpl<u32> for GlobalControl {
    open spec fn obeys_from_spec() -> bool {
        true
    }

    open spec fn from_spec(bits: u32) -> Self {
        GlobalControl { bits }
    }
}

impl From<GlobalControl> for u32 {
    fn from(r: GlobalControl) -> (bits: u32) {
        r.bits
    }
}

impl vstd::std_specs::convert::FromSpecImpl<GlobalControl> for u32 {
    open spec fn obeys_from_spec() -> bool {
        true
    }

    open spec fn from_spec(r: GlobalControl) -> u32 {
        r.bits
    }
}

impl From<u32> for GlobalStatus {
    fn from(bits: u32) -> (r: Self) {
        GlobalStatus { bits }
    }
}

impl vstd::std_specs::convert::FromSpecImpl<u32> for GlobalStatus {
    open spec fn obeys_from_spec() -> bool {
        true
    }

    open spec fn from_spec(bits: u32) -> Self {
        GlobalStatus { bits }
    }
}

impl From<GlobalStatus> for u32 {
    fn from(r: GlobalStatus) -> (bits: u32) {
        r.bits
    }
}

impl vstd::std_specs::convert::FromSpecImpl<GlobalStatus> for u32 {
    open spec fn obeys_from_spec() -> bool {
        true
    }

    open spec fn from_spec(r: GlobalStatus) -> u32 {
        r.bits
    }
}

impl From<u16> for BufferDescCtl {
    fn from(bits: u16) -> (r: Self) {
        BufferDescCtl { bits }
    }
}

impl vstd::std_specs::convert::FromSpecImpl<u16> for BufferDescCtl {
    open spec fn obeys_from_spec() -> bool {
        true
    }

    open spec fn from_spec(bits: u16) -> Self {
        BufferDescCtl { bits }
    }
}

impl From<BufferDescCtl> for u16 {
    fn from(r: BufferDescCtl) -> (bits: u16) {
        r.bits
    }
}

impl vstd::std_specs::convert::FromSpecImpl<BufferDescCtl> for u16 {
    open spec fn obeys_from_spec() -> bool {
        true
    }

    open spec fn from_spec(r: BufferDescCtl) -> u16 {
        r.bits
    }
}


} // verus!
