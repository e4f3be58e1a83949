//! The `DATA_FORMAT` register: how the device presents axis data.

use vstd::prelude::*;
use vstd::std_specs::convert::FromSpecImpl;

verus! {

/// The g-range of a measurement, held in the two low bits of `DATA_FORMAT`.
#[allow(non_camel_case_types)]
#[derive(Copy, Clone, Debug, PartialEq, Eq, Structural)]
pub enum DataFormatRange {
    /// ±2g
    PLUSMINUS_2G,
    /// ±4g
    PLUSMINUS_4G,
    /// ±8g
    PLUSMINUS_8G,
    /// ±16g
    PLUSMINUS_16G,
}

/// The value of the `DATA_FORMAT` register. Every byte is a value of it.
///
/// "The DATA_FORMAT register controls the presentation of data to
/// Register 0x32 through Register 0x37. All data, except that for the
/// ±16 g range, must be clipped to avoid rollover."
#[derive(Copy, Clone, Debug, PartialEq, Eq, Structural)]
pub struct DataFormatFlags {
    bits: u8,
}

impl DataFormatRange {
    /// The two range bits that select this range, as a register byte.
    pub open spec fn code(self) -> u8 {
        match self {
            DataFormatRange::PLUSMINUS_2G => 0b00,
            DataFormatRange::PLUSMINUS_4G => 0b01,
            DataFormatRange::PLUSMINUS_8G => 0b10,
            DataFormatRange::PLUSMINUS_16G => 0b11,
        }
    }

    /// The largest acceleration of this range, in g.
    pub open spec fn full_scale(self) -> int {
        match self {
            DataFormatRange::PLUSMINUS_2G => 2,
            DataFormatRange::PLUSMINUS_4G => 4,
            DataFormatRange::PLUSMINUS_8G => 8,
            DataFormatRange::PLUSMINUS_16G => 16,
        }
    }

    /// Get `DataFormatFlags` representation
    pub fn bits(self) -> (flags: DataFormatFlags)
        ensures
            flags.bits() == self.code(),
    {
        match self {
            DataFormatRange::PLUSMINUS_2G => DataFormatFlags::empty(),
            DataFormatRange::PLUSMINUS_4G => DataFormatFlags::from_bits(DataFormatFlags::RANGE_LO),
            DataFormatRange::PLUSMINUS_8G => DataFormatFlags::from_bits(DataFormatFlags::RANGE_HI),
            DataFormatRange::PLUSMINUS_16G => {
                assert(0b10u8 | 0b01u8 == 0b11u8) by (bit_vector);
                DataFormatFlags::from_bits(DataFormatFlags::RANGE_HI).union(
                    DataFormatFlags::from_bits(DataFormatFlags::RANGE_LO),
                )
            },
        }
    }

    /// The full-scale acceleration of the range in g: 2, 4, 8 or 16.
    pub fn full_scale_g(self) -> (g: u8)
        ensures
            g == self.full_scale(),
    {
        match self {
            DataFormatRange::PLUSMINUS_2G => 2,
            DataFormatRange::PLUSMINUS_4G => 4,
            DataFormatRange::PLUSMINUS_8G => 8,
            DataFormatRange::PLUSMINUS_16G => 16,
        }
    }
}

impl DataFormatFlags {
    /// "A setting of 1 in the SELF_TEST bit applies a self-test force to
    /// the sensor, causing a shift in the output data."
    pub const SELF_TEST: u8 = 0b1000_0000;

    /// "A value of 1 in the SPI bit sets the device to 3-wire SPI mode,
    /// and a value of 0 sets the device to 4-wire SPI mode."
    pub const SPI: u8 = 0b0100_0000;

    /// "A value of 0 in the INT_INVERT bit sets the interrupts to active
    /// high, and a value of 1 sets the interrupts to active low."
    pub const INT_INVERT: u8 = 0b0010_0000;

    /// Full resolution mode: the output resolution grows with the g range
    /// to keep 4 mg/LSB. When clear, the device is in 10-bit mode.
    pub const FULL_RES: u8 = 0b0000_1000;

    /// "A setting of 1 in the justify bit selects left-justified (MSB)
    /// mode, and a setting of 0 selects right-justified mode with sign
    /// extension."
    pub const JUSTIFY: u8 = 0b0000_0100;

    /// Range high bit (see `DataFormatRange`)
    pub const RANGE_HI: u8 = 0b0000_0010;

    /// Range low bit (see `DataFormatRange`)
    pub const RANGE_LO: u8 = 0b0000_0001;

    /// The register byte that the value stands for.
    pub closed spec fn spec_bits(self) -> u8 {
        self.bits
    }

    /// The value that a register byte stands for.
    pub closed spec fn spec_from_bits(bits: u8) -> Self {
        DataFormatFlags { bits }
    }

    /// Whether every bit of `mask` is set.
    pub open spec fn has(self, mask: u8) -> bool {
        self.bits() & mask == mask
    }

    /// The range that the two range bits select: both give ±16g, the high
    /// bit alone ±8g, the low bit alone ±4g, neither ±2g.
    pub open spec fn spec_range(self) -> DataFormatRange {
        if self.has(Self::RANGE_HI) {
            if self.has(Self::RANGE_LO) {
                DataFormatRange::PLUSMINUS_16G
            } else {
                DataFormatRange::PLUSMINUS_8G
            }
        } else if self.has(Self::RANGE_LO) {
            DataFormatRange::PLUSMINUS_4G
        } else {
            DataFormatRange::PLUSMINUS_2G
        }
    }

    /// The value with all bits clear: self-test off, 4-wire SPI, active-high
    /// interrupts, 10-bit mode, right-justified, ±2g.
    pub fn empty() -> (flags: Self)
        ensures
            flags.bits() == 0,
    {
        DataFormatFlags { bits: 0 }
    }

    /// The value of a register byte. No bit is dropped.
    #[verifier::when_used_as_spec(spec_from_bits)]
    pub fn from_bits(bits: u8) -> (flags: Self)
        ensures
            flags == Self::spec_from_bits(bits),
            flags.bits() == bits,
    {
        DataFormatFlags { bits }
    }

    /// The register byte of the value.
    #[verifier::when_used_as_spec(spec_bits)]
    pub fn bits(self) -> (bits: u8)
        ensures
            bits == self.spec_bits(),
    {
        self.bits
    }

    /// Whether every bit that is set in `other` is set in `self`.
    pub fn contains(self, other: Self) -> (r: bool)
        ensures
            r == self.has(other.bits()),
    {
        self.bits & other.bits == other.bits
    }

    /// The value with the bits of both.
    pub fn union(self, other: Self) -> (flags: Self)
        ensures
            flags.bits() == self.bits() | other.bits(),
    {
        DataFormatFlags { bits: self.bits | other.bits }
    }

    /// The value with the range bits replaced by those of `range`, and every
    /// other bit as it was.
    pub fn with_range(self, range: DataFormatRange) -> (flags: Self)
        ensures
            flags.bits() == (self.bits() & !(Self::RANGE_HI | Self::RANGE_LO)) | range.code(),
            flags.spec_range() == range,
    {
        let old_bits: u8 = self.bits;
        let kept: u8 = old_bits & !(Self::RANGE_HI | Self::RANGE_LO);
        let code: u8 = range.bits().bits;
        assert((kept | code) & 0b10 == code & 0b10 && (kept | code) & 0b01 == code & 0b01)
            by (bit_vector)
            requires
                kept == old_bits & !(0b10u8 | 0b01u8),
        ;
        assert(0b00u8 & 0b10 != 0b10 && 0b00u8 & 0b01 != 0b01 && 0b01u8 & 0b10 != 0b10 && 0b01u8
            & 0b01 == 0b01 && 0b10u8 & 0b10 == 0b10 && 0b10u8 & 0b01 != 0b01 && 0b11u8 & 0b10
            == 0b10 && 0b11u8 & 0b01 == 0b01) by (bit_vector);
        DataFormatFlags { bits: kept | code }
    }

    /// Get the [`DataFormatRange`] from the flags
    pub fn range(self) -> (range: DataFormatRange)
        ensures
            range == self.spec_range(),
    {
        if self.contains(DataFormatFlags::from_bits(Self::RANGE_HI)) {
            if self.contains(DataFormatFlags::from_bits(Self::RANGE_LO)) {
                DataFormatRange::PLUSMINUS_16G
            } else {
                DataFormatRange::PLUSMINUS_8G
            }
        } else if self.contains(DataFormatFlags::from_bits(Self::RANGE_LO)) {
            DataFormatRange::PLUSMINUS_4G
        } else {
            DataFormatRange::PLUSMINUS_2G
        }
    }
}

/// Default `DATA_FORMAT` settings: every bit clear.
impl Default for DataFormatFlags {
    fn default() -> (flags: Self)
        ensures
            flags.bits() == 0,
    {
        DataFormatFlags::empty()
    }
}

impl From<DataFormatRange> for DataFormatFlags {
    fn from(range: DataFormatRange) -> (flags: DataFormatFlags)
        ensures
            flags.bits() == range.code(),
    {
        range.bits()
    }
}

impl FromSpecImpl<DataFormatRange> for DataFormatFlags {
    open spec fn obeys_from_spec() -> bool {
        true
    }

    open spec fn from_spec(range: DataFormatRange) -> DataFormatFlags {
        DataFormatFlags::spec_from_bits(range.code())
    }
}

/// A register byte survives the trip through `DataFormatFlags`, and a
/// `DataFormatFlags` the trip through its byte.
pub proof fn lemma_bits_round_trip(byte: u8, flags: DataFormatFlags)
    ensures
        DataFormatFlags::from_bits(byte).bits() == byte,
        DataFormatFlags::from_bits(flags.bits()) == flags,
{
}

/// With every bit clear, no flag is set and the range is ±2g.
pub proof fn lemma_all_clear(flags: DataFormatFlags)
    requires
        flags.bits() == 0,
    ensures
        forall|mask: u8| #[trigger] flags.has(mask) <==> mask == 0,
        flags.spec_range() == DataFormatRange::PLUSMINUS_2G,
{
    assert(forall|mask: u8| #[trigger] (0u8 & mask) == 0) by (bit_vector);
}

/// The range of a value depends on its two low bits alone, by the table:
/// `0b11` is ±16g, `0b10` is ±8g, `0b01` is ±4g, `0b00` is ±2g.
pub proof fn lemma_range_table(flags: DataFormatFlags)
    ensures
        flags.bits() & 0b11 == 0b11 <==> flags.spec_range() == DataFormatRange::PLUSMINUS_16G,
        flags.bits() & 0b11 == 0b10 <==> flags.spec_range() == DataFormatRange::PLUSMINUS_8G,
        flags.bits() & 0b11 == 0b01 <==> flags.spec_range() == DataFormatRange::PLUSMINUS_4G,
        flags.bits() & 0b11 == 0b00 <==> flags.spec_range() == DataFormatRange::PLUSMINUS_2G,
        flags.spec_range().code() == flags.bits() & 0b11,
{
    let b = flags.bits();
    assert((b & 0b11 == 0b11 <==> (b & 0b10 == 0b10 && b & 0b01 == 0b01)) && (b & 0b11 == 0b10
        <==> (b & 0b10 == 0b10 && b & 0b01 != 0b01)) && (b & 0b11 == 0b01 <==> (b & 0b10 != 0b10
        && b & 0b01 == 0b01)) && (b & 0b11 == 0b00 <==> (b & 0b10 != 0b10 && b & 0b01 != 0b01)))
        by (bit_vector);
}

/// The flags of a range give that range back, whatever other bits are set
/// beside them.
pub proof fn lemma_range_of_range_bits(range: DataFormatRange, others: DataFormatFlags)
    requires
        others.bits() & 0b11 == 0,
    ensures
        DataFormatFlags::from_bits(range.code()).spec_range() == range,
        DataFormatFlags::from_bits(others.bits() | range.code()).spec_range() == range,
{
    let o = others.bits();
    let c = range.code();
    assert(c <= 3);
    assert((o | c) & 0b11 == c && c & 0b11 == c) by (bit_vector)
        requires
            o & 0b11 == 0,
            c <= 3,
    ;
    lemma_range_table(DataFormatFlags::from_bits(c));
    lemma_range_table(DataFormatFlags::from_bits(o | c));
}

} // verus!
