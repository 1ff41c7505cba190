//! Codec identifiers, coding formats and the two negotiation bit-sets.
//!
//! Everything here is a pure value: no operation keeps state, so all of them
//! may be called from any context.

use crate::status::HfpStatus;
use vstd::prelude::*;

verus! {

/// Identifier of a negotiated codec.
#[derive(Clone, Copy, Debug, PartialEq, Eq, Structural, PartialOrd)]
pub enum HfpCodecId {
    NONE,
    CVSD,
    MSBC,
    LC3,
}

impl HfpCodecId {
    /// The identifier's number on the wire.
    pub open spec fn number(self) -> u8 {
        match self {
            HfpCodecId::NONE => 0x00,
            HfpCodecId::CVSD => 0x01,
            HfpCodecId::MSBC => 0x02,
            HfpCodecId::LC3 => 0x03,
        }
    }

    /// The identifier with a given number, if there is one.
    pub fn from_u8(item: u8) -> (id: Option<HfpCodecId>)
        ensures
            item <= 0x03 <==> id is Some,
            id matches Some(c) ==> c.number() == item,
    {
        match item {
            0x00 => Some(HfpCodecId::NONE),
            0x01 => Some(HfpCodecId::CVSD),
            0x02 => Some(HfpCodecId::MSBC),
            0x03 => Some(HfpCodecId::LC3),
            _ => None,
        }
    }

    /// The identifier's number.
    pub fn to_u8(&self) -> (item: u8)
        ensures
            item == self.number(),
    {
        match self {
            HfpCodecId::NONE => 0x00,
            HfpCodecId::CVSD => 0x01,
            HfpCodecId::MSBC => 0x02,
            HfpCodecId::LC3 => 0x03,
        }
    }

    /// The negotiation bit that stands for this codec: no bit for `NONE`,
    /// else the bit whose position is one less than the codec's number.
    pub open spec fn bit(self) -> i32 {
        match self {
            HfpCodecId::NONE => BIT_NONE,
            HfpCodecId::CVSD => BIT_CVSD,
            HfpCodecId::MSBC => BIT_MSBC,
            HfpCodecId::LC3 => BIT_LC3,
        }
    }

    /// The negotiation bit-set that holds exactly this codec.
    pub fn to_bit_id(&self) -> (set: HfpCodecBitId)
        ensures
            set.bits() == self.bit(),
    {
        match self {
            HfpCodecId::NONE => HfpCodecBitId::none(),
            HfpCodecId::CVSD => HfpCodecBitId::cvsd(),
            HfpCodecId::MSBC => HfpCodecBitId::msbc(),
            HfpCodecId::LC3 => HfpCodecBitId::lc3(),
        }
    }
}

/// Coding format of a synchronous audio link.
#[derive(Clone, Copy, Debug, PartialEq, Eq, Structural, PartialOrd)]
pub enum EscoCodingFormat {
    ULAW,
    ALAW,
    CVSD,
    TRANSPARENT,
    LINEAR,
    MSBC,
    LC3,
    G729A,
    VENDOR,
}

impl EscoCodingFormat {
    /// The format's number on the wire.
    pub open spec fn number(self) -> u8 {
        match self {
            EscoCodingFormat::ULAW => 0x00,
            EscoCodingFormat::ALAW => 0x01,
            EscoCodingFormat::CVSD => 0x02,
            EscoCodingFormat::TRANSPARENT => 0x03,
            EscoCodingFormat::LINEAR => 0x04,
            EscoCodingFormat::MSBC => 0x05,
            EscoCodingFormat::LC3 => 0x06,
            EscoCodingFormat::G729A => 0x07,
            EscoCodingFormat::VENDOR => 0xff,
        }
    }

    /// Whether a number names a coding format.
    pub open spec fn is_number(item: u8) -> bool {
        item <= 0x07 || item == 0xff
    }

    /// The format with a given number, if there is one.
    pub fn from_u8(item: u8) -> (format: Option<EscoCodingFormat>)
        ensures
            Self::is_number(item) <==> format is Some,
            format matches Some(f) ==> f.number() == item,
    {
        match item {
            0x00 => Some(EscoCodingFormat::ULAW),
            0x01 => Some(EscoCodingFormat::ALAW),
            0x02 => Some(EscoCodingFormat::CVSD),
            0x03 => Some(EscoCodingFormat::TRANSPARENT),
            0x04 => Some(EscoCodingFormat::LINEAR),
            0x05 => Some(EscoCodingFormat::MSBC),
            0x06 => Some(EscoCodingFormat::LC3),
            0x07 => Some(EscoCodingFormat::G729A),
            0xff => Some(EscoCodingFormat::VENDOR),
            _ => None,
        }
    }

    /// The format with a given number, for a number that names one.
    pub fn from(item: u8) -> (format: EscoCodingFormat)
        requires
            Self::is_number(item),
        ensures
            format.number() == item,
    {
        match item {
            0x00 => EscoCodingFormat::ULAW,
            0x01 => EscoCodingFormat::ALAW,
            0x02 => EscoCodingFormat::CVSD,
            0x03 => EscoCodingFormat::TRANSPARENT,
            0x04 => EscoCodingFormat::LINEAR,
            0x05 => EscoCodingFormat::MSBC,
            0x06 => EscoCodingFormat::LC3,
            0x07 => EscoCodingFormat::G729A,
            _ => EscoCodingFormat::VENDOR,
        }
    }

    /// The format's number.
    pub fn to_u8(&self) -> (item: u8)
        ensures
            item == self.number(),
    {
        match self {
            EscoCodingFormat::ULAW => 0x00,
            EscoCodingFormat::ALAW => 0x01,
            EscoCodingFormat::CVSD => 0x02,
            EscoCodingFormat::TRANSPARENT => 0x03,
            EscoCodingFormat::LINEAR => 0x04,
            EscoCodingFormat::MSBC => 0x05,
            EscoCodingFormat::LC3 => 0x06,
            EscoCodingFormat::G729A => 0x07,
            EscoCodingFormat::VENDOR => 0xff,
        }
    }
}

impl From<EscoCodingFormat> for u8 {
    fn from(item: EscoCodingFormat) -> (number: u8) {
        item.to_u8()
    }
}

impl vstd::std_specs::convert::FromSpecImpl<EscoCodingFormat> for u8 {
    open spec fn obeys_from_spec() -> bool {
        true
    }

    open spec fn from_spec(item: EscoCodingFormat) -> u8 {
        item.number()
    }
}

/// No codec.
pub const BIT_NONE: i32 = 0b000;

/// Negotiation bit of the narrowband codec.
pub const BIT_CVSD: i32 = 0b001;

/// Negotiation bit of the wideband codec.
pub const BIT_MSBC: i32 = 0b010;

/// Negotiation bit of the super-wideband codec.
pub const BIT_LC3: i32 = 0b100;

/// All negotiation bits.
pub const BIT_ALL: i32 = 0b111;

/// No coding format.
pub const FORMAT_NONE: i32 = 0b0000;

/// Narrowband.
pub const FORMAT_CVSD: i32 = 0b0001;

/// Wideband over a transparent link.
pub const FORMAT_MSBC_TRANSPARENT: i32 = 0b0010;

/// Wideband.
pub const FORMAT_MSBC: i32 = 0b0100;

/// Super-wideband over a transparent link.
pub const FORMAT_LC3_TRANSPARENT: i32 = 0b1000;

/// All coding-format bits.
pub const FORMAT_ALL: i32 = 0b1111;

/// Whether every bit set in `raw` is also set in `known`.
pub open spec fn only_bits_of(raw: i32, known: i32) -> bool {
    raw & !known == 0
}

/// With the three negotiation bits known, the bit patterns without a foreign
/// bit are the numbers from 0 to 7.
pub proof fn lemma_bit_id_range(raw: i32)
    ensures
        only_bits_of(raw, BIT_ALL) <==> 0 <= raw <= 7,
{
    assert((raw & !0b111i32 == 0) <==> (0 <= raw <= 7)) by (bit_vector);
}

/// With the four coding-format bits known, the bit patterns without a foreign
/// bit are the numbers from 0 to 15.
pub proof fn lemma_format_range(raw: i32)
    ensures
        only_bits_of(raw, FORMAT_ALL) <==> 0 <= raw <= 15,
{
    assert((raw & !0b1111i32 == 0) <==> (0 <= raw <= 15)) by (bit_vector);
}

/// Set of codecs used in codec negotiation, one bit per codec. This is not a
/// set of coding formats: see `HfpCodecFormat`.
#[derive(Clone, Copy, Debug, PartialEq, Eq)]
pub struct HfpCodecBitId {
    bits: i32,
}

impl HfpCodecBitId {
    #[verifier::type_invariant]
    spec fn known(self) -> bool {
        0 <= self.bits <= 7
    }

    /// The set as an integer, one bit per member.
    pub closed spec fn bits(self) -> i32 {
        self.bits
    }

    /// The empty set.
    pub fn none() -> (set: HfpCodecBitId)
        ensures
            set.bits() == BIT_NONE,
    {
        HfpCodecBitId { bits: BIT_NONE }
    }

    /// The set that holds the narrowband codec alone.
    pub fn cvsd() -> (set: HfpCodecBitId)
        ensures
            set.bits() == BIT_CVSD,
    {
        HfpCodecBitId { bits: BIT_CVSD }
    }

    /// The set that holds the wideband codec alone.
    pub fn msbc() -> (set: HfpCodecBitId)
        ensures
            set.bits() == BIT_MSBC,
    {
        HfpCodecBitId { bits: BIT_MSBC }
    }

    /// The set that holds the super-wideband codec alone.
    pub fn lc3() -> (set: HfpCodecBitId)
        ensures
            set.bits() == BIT_LC3,
    {
        HfpCodecBitId { bits: BIT_LC3 }
    }

    /// The set with the given bits, unless a bit outside the three known
    /// positions is set.
    pub fn from_bits(val: i32) -> (set: Option<HfpCodecBitId>)
        ensures
            only_bits_of(val, BIT_ALL) <==> set is Some,
            set matches Some(s) ==> s.bits() == val,
            val == 0 ==> set is Some,
    {
        proof {
            lemma_bit_id_range(val);
        }
        if 0 <= val && val <= 7 {
            Some(HfpCodecBitId { bits: val })
        } else {
            None
        }
    }

    /// Validates an integer as a negotiation bit-set.
    pub fn try_from(val: i32) -> (set: Result<HfpCodecBitId, HfpStatus>)
        ensures
            only_bits_of(val, BIT_ALL) <==> set is Ok,
            set matches Ok(s) ==> s.bits() == val,
            set matches Err(e) ==> e == HfpStatus::InvalidCodec,
            val == 0 ==> set is Ok,
    {
        match Self::from_bits(val) {
            Some(s) => Ok(s),
            None => Err(HfpStatus::InvalidCodec),
        }
    }

    /// The set as an integer.
    pub fn to_i32(&self) -> (val: i32)
        ensures
            val == self.bits(),
            only_bits_of(val, BIT_ALL),
    {
        proof {
            use_type_invariant(self);
            lemma_bit_id_range(self.bits);
        }
        self.bits
    }

    /// The set as a byte; every valid set fits.
    pub fn to_u8(&self) -> (val: u8)
        ensures
            val == self.bits(),
    {
        proof {
            use_type_invariant(self);
        }
        self.bits as u8
    }

    /// Whether the set is empty.
    pub fn is_empty(&self) -> (empty: bool)
        ensures
            empty == (self.bits() == BIT_NONE),
    {
        self.bits == BIT_NONE
    }

    /// Whether every member of `other` is a member of this set.
    pub fn contains(&self, other: &HfpCodecBitId) -> (all: bool)
        ensures
            all == only_bits_of(other.bits(), self.bits()),
    {
        let a: i32 = self.bits;
        let b: i32 = other.bits;
        proof {
            assert((a & b == b) <==> (b & !a == 0)) by (bit_vector);
        }
        a & b == b
    }

    /// The set of the codecs that are in this set or in `other`. The empty set
    /// adds nothing.
    pub fn union(&self, other: &HfpCodecBitId) -> (both: HfpCodecBitId)
        ensures
            both.bits() == self.bits() | other.bits(),
            other.bits() == BIT_NONE ==> both.bits() == self.bits(),
            self.bits() == BIT_NONE ==> both.bits() == other.bits(),
    {
        let a: i32 = self.bits;
        let b: i32 = other.bits;
        proof {
            use_type_invariant(self);
            use_type_invariant(other);
            assert(0 <= a <= 7 && 0 <= b <= 7 ==> 0 <= (a | b) <= 7) by (bit_vector);
            assert(a | 0 == a && 0 | b == b) by (bit_vector);
        }
        HfpCodecBitId { bits: a | b }
    }
}

/// Set of coding formats, one bit per format.
#[derive(Clone, Copy, Debug, PartialEq, Eq)]
pub struct HfpCodecFormat {
    bits: i32,
}

impl HfpCodecFormat {
    #[verifier::type_invariant]
    spec fn known(self) -> bool {
        0 <= self.bits <= 15
    }

    /// The set as an integer, one bit per member.
    pub closed spec fn bits(self) -> i32 {
        self.bits
    }

    /// The empty set.
    pub fn none() -> (set: HfpCodecFormat)
        ensures
            set.bits() == FORMAT_NONE,
    {
        HfpCodecFormat { bits: FORMAT_NONE }
    }

    /// The set that holds the narrowband format alone.
    pub fn cvsd() -> (set: HfpCodecFormat)
        ensures
            set.bits() == FORMAT_CVSD,
    {
        HfpCodecFormat { bits: FORMAT_CVSD }
    }

    /// The set that holds the transparent wideband format alone.
    pub fn msbc_transparent() -> (set: HfpCodecFormat)
        ensures
            set.bits() == FORMAT_MSBC_TRANSPARENT,
    {
        HfpCodecFormat { bits: FORMAT_MSBC_TRANSPARENT }
    }

    /// The set that holds the wideband format alone.
    pub fn msbc() -> (set: HfpCodecFormat)
        ensures
            set.bits() == FORMAT_MSBC,
    {
        HfpCodecFormat { bits: FORMAT_MSBC }
    }

    /// The set that holds the transparent super-wideband format alone.
    pub fn lc3_transparent() -> (set: HfpCodecFormat)
        ensures
            set.bits() == FORMAT_LC3_TRANSPARENT,
    {
        HfpCodecFormat { bits: FORMAT_LC3_TRANSPARENT }
    }

    /// The set with the given bits, unless a bit outside the four known
    /// positions is set.
    pub fn from_bits(val: i32) -> (set: Option<HfpCodecFormat>)
        ensures
            only_bits_of(val, FORMAT_ALL) <==> set is Some,
            set matches Some(s) ==> s.bits() == val,
            val == 0 ==> set is Some,
    {
        proof {
            lemma_format_range(val);
        }
        if 0 <= val && val <= 15 {
            Some(HfpCodecFormat { bits: val })
        } else {
            None
        }
    }

    /// Validates an integer as a set of coding formats.
    pub fn try_from(val: i32) -> (set: Result<HfpCodecFormat, HfpStatus>)
        ensures
            only_bits_of(val, FORMAT_ALL) <==> set is Ok,
            set matches Ok(s) ==> s.bits() == val,
            set matches Err(e) ==> e == HfpStatus::InvalidCodec,
            val == 0 ==> set is Ok,
    {
        match Self::from_bits(val) {
            Some(s) => Ok(s),
            None => Err(HfpStatus::InvalidCodec),
        }
    }

    /// The set as an integer.
    pub fn to_i32(&self) -> (val: i32)
        ensures
            val == self.bits(),
            only_bits_of(val, FORMAT_ALL),
    {
        proof {
            use_type_invariant(self);
            lemma_format_range(self.bits);
        }
        self.bits
    }

    /// Whether the set is empty.
    pub fn is_empty(&self) -> (empty: bool)
        ensures
            empty == (self.bits() == FORMAT_NONE),
    {
        self.bits == FORMAT_NONE
    }

    /// Whether every member of `other` is a member of this set.
    pub fn contains(&self, other: &HfpCodecFormat) -> (all: bool)
        ensures
            all == only_bits_of(other.bits(), self.bits()),
    {
        let a: i32 = self.bits;
        let b: i32 = other.bits;
        proof {
            assert((a & b == b) <==> (b & !a == 0)) by (bit_vector);
        }
        a & b == b
    }

    /// The set of the formats that are in this set or in `other`. The empty
    /// set adds nothing.
    pub fn union(&self, other: &HfpCodecFormat) -> (both: HfpCodecFormat)
        ensures
            both.bits() == self.bits() | other.bits(),
            other.bits() == FORMAT_NONE ==> both.bits() == self.bits(),
            self.bits() == FORMAT_NONE ==> both.bits() == other.bits(),
    {
        let a: i32 = self.bits;
        let b: i32 = other.bits;
        proof {
            use_type_invariant(self);
            use_type_invariant(other);
            assert(0 <= a <= 15 && 0 <= b <= 15 ==> 0 <= (a | b) <= 15) by (bit_vector);
            assert(a | 0 == a && 0 | b == b) by (bit_vector);
        }
        HfpCodecFormat { bits: a | b }
    }

    /// The negotiation bits of a set of coding formats: the narrowband bit
    /// for the narrowband format, the wideband bit for either wideband
    /// format, the super-wideband bit for the super-wideband format.
    pub open spec fn negotiation_bits(formats: i32) -> i32 {
        (if formats & FORMAT_CVSD != 0 { BIT_CVSD } else { BIT_NONE })
        | (if formats & (FORMAT_MSBC | FORMAT_MSBC_TRANSPARENT) != 0 { BIT_MSBC } else { BIT_NONE })
        | (if formats & FORMAT_LC3_TRANSPARENT != 0 { BIT_LC3 } else { BIT_NONE })
    }

    /// The negotiation bit-set that stands for these coding formats.
    pub fn to_bit_id(&self) -> (set: HfpCodecBitId)
        ensures
            set.bits() == Self::negotiation_bits(self.bits()),
    {
        let formats: i32 = self.bits;
        let narrow = if formats & FORMAT_CVSD != 0 {
            HfpCodecBitId::cvsd()
        } else {
            HfpCodecBitId::none()
        };
        let wide = if formats & (FORMAT_MSBC | FORMAT_MSBC_TRANSPARENT) != 0 {
            HfpCodecBitId::msbc()
        } else {
            HfpCodecBitId::none()
        };
        let super_wide = if formats & FORMAT_LC3_TRANSPARENT != 0 {
            HfpCodecBitId::lc3()
        } else {
            HfpCodecBitId::none()
        };
        narrow.union(&wide).union(&super_wide)
    }
}

} // verus!
