//! The register map of the ADXL343 (data sheet, "Register Map").

use vstd::prelude::*;

verus! {

/// The registers of the device, by their data-sheet names.
#[allow(non_camel_case_types)]
#[derive(Copy, Clone, Debug, PartialEq, Eq, Structural)]
pub enum Register {
    /// Device ID (read only); holds the fixed code `0xE5`.
    DEVID,
    /// Tap threshold, 62.5 mg/LSB.
    THRESH_TAP,
    /// X-axis offset, twos complement, 15.6 mg/LSB.
    OFSX,
    /// Y-axis offset.
    OFSY,
    /// Z-axis offset.
    OFSZ,
    /// Tap duration, 625 us/LSB.
    DUR,
    /// Tap latency, 1.25 ms/LSB.
    LATENT,
    /// Tap window, 1.25 ms/LSB.
    WINDOW,
    /// Activity threshold, 62.5 mg/LSB.
    THRESH_ACT,
    /// Inactivity threshold, 62.5 mg/LSB.
    THRESH_INACT,
    /// Inactivity time, 1 s/LSB.
    TIME_INACT,
    /// Axis enable control for activity and inactivity detection.
    ACT_INACT_CTL,
    /// Free-fall threshold, 62.5 mg/LSB.
    THRESH_FF,
    /// Free-fall time, 5 ms/LSB.
    TIME_FF,
    /// Axis control for single and double tap.
    TAP_AXES,
    /// Source of single and double tap (read only).
    ACT_TAP_STATUS,
    /// Data rate and power mode control.
    BW_RATE,
    /// Power-saving features control; bit 3 enables measurement.
    POWER_CTL,
    /// Interrupt enable control.
    INT_ENABLE,
    /// Interrupt mapping control.
    INT_MAP,
    /// Source of interrupts (read only).
    INT_SOURCE,
    /// Data format control.
    DATA_FORMAT,
    /// X-axis data, least significant byte (read only).
    DATAX0,
    /// X-axis data, most significant byte (read only).
    DATAX1,
    /// Y-axis data, least significant byte (read only).
    DATAY0,
    /// Y-axis data, most significant byte (read only).
    DATAY1,
    /// Z-axis data, least significant byte (read only).
    DATAZ0,
    /// Z-axis data, most significant byte (read only).
    DATAZ1,
    /// FIFO control.
    FIFO_CTL,
    /// FIFO status (read only).
    FIFO_STATUS,
}

impl Register {
    /// The address of the register on the device.
    pub open spec fn address(self) -> u8 {
        match self {
            Register::DEVID => 0x00,
            Register::THRESH_TAP => 0x1D,
            Register::OFSX => 0x1E,
            Register::OFSY => 0x1F,
            Register::OFSZ => 0x20,
            Register::DUR => 0x21,
            Register::LATENT => 0x22,
            Register::WINDOW => 0x23,
            Register::THRESH_ACT => 0x24,
            Register::THRESH_INACT => 0x25,
            Register::TIME_INACT => 0x26,
            Register::ACT_INACT_CTL => 0x27,
            Register::THRESH_FF => 0x28,
            Register::TIME_FF => 0x29,
            Register::TAP_AXES => 0x2A,
            Register::ACT_TAP_STATUS => 0x2B,
            Register::BW_RATE => 0x2C,
            Register::POWER_CTL => 0x2D,
            Register::INT_ENABLE => 0x2E,
            Register::INT_MAP => 0x2F,
            Register::INT_SOURCE => 0x30,
            Register::DATA_FORMAT => 0x31,
            Register::DATAX0 => 0x32,
            Register::DATAX1 => 0x33,
            Register::DATAY0 => 0x34,
            Register::DATAY1 => 0x35,
            Register::DATAZ0 => 0x36,
            Register::DATAZ1 => 0x37,
            Register::FIFO_CTL => 0x38,
            Register::FIFO_STATUS => 0x39,
        }
    }

    /// Whether the device refuses writes to the register.
    pub open spec fn is_read_only(self) -> bool {
        self == Register::DEVID || self == Register::ACT_TAP_STATUS || self == Register::INT_SOURCE
            || self == Register::DATAX0 || self == Register::DATAX1 || self == Register::DATAY0
            || self == Register::DATAY1 || self == Register::DATAZ0 || self == Register::DATAZ1
            || self == Register::FIFO_STATUS
    }

    /// Get register address
    pub fn addr(self) -> (a: u8)
        ensures
            a == self.address(),
    {
        match self {
            Register::DEVID => 0x00,
            Register::THRESH_TAP => 0x1D,
            Register::OFSX => 0x1E,
            Register::OFSY => 0x1F,
            Register::OFSZ => 0x20,
            Register::DUR => 0x21,
            Register::LATENT => 0x22,
            Register::WINDOW => 0x23,
            Register::THRESH_ACT => 0x24,
            Register::THRESH_INACT => 0x25,
            Register::TIME_INACT => 0x26,
            Register::ACT_INACT_CTL => 0x27,
            Register::THRESH_FF => 0x28,
            Register::TIME_FF => 0x29,
            Register::TAP_AXES => 0x2A,
            Register::ACT_TAP_STATUS => 0x2B,
            Register::BW_RATE => 0x2C,
            Register::POWER_CTL => 0x2D,
            Register::INT_ENABLE => 0x2E,
            Register::INT_MAP => 0x2F,
            Register::INT_SOURCE => 0x30,
            Register::DATA_FORMAT => 0x31,
            Register::DATAX0 => 0x32,
            Register::DATAX1 => 0x33,
            Register::DATAY0 => 0x34,
            Register::DATAY1 => 0x35,
            Register::DATAZ0 => 0x36,
            Register::DATAZ1 => 0x37,
            Register::FIFO_CTL => 0x38,
            Register::FIFO_STATUS => 0x39,
        }
    }

    /// Is the register read-only?
    pub fn read_only(self) -> (r: bool)
        ensures
            r == self.is_read_only(),
    {
        match self {
            Register::DEVID
            | Register::ACT_TAP_STATUS
            | Register::INT_SOURCE
            | Register::DATAX0
            | Register::DATAX1
            | Register::DATAY0
            | Register::DATAY1
            | Register::DATAZ0
            | Register::DATAZ1
            | Register::FIFO_STATUS => true,
            _ => false,
        }
    }
}

/// No two registers share an address, and every address leaves bit 7
/// clear.
pub proof fn lemma_addresses_distinct(a: Register, b: Register)
    ensures
        a.address() == b.address() ==> a == b,
        a.address() <= 0x39,
{
}

/// The read-only registers are the identity, the two status registers, the
/// interrupt source and the six data registers.
pub proof fn lemma_read_only_addresses(register: Register)
    ensures
        register.is_read_only() <==> {
            ||| register.address() == 0x00
            ||| register.address() == 0x2B
            ||| register.address() == 0x30
            ||| 0x32 <= register.address() <= 0x37
            ||| register.address() == 0x39
        },
{
}

} // verus!
