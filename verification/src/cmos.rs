//! Registers of the battery-backed clock chip and the decoding of what it
//! reports. Reading and writing the chip's ports is left to the kernel.

use vstd::prelude::*;

verus! {

/// A register of the clock chip, selected by writing its number to the
/// chip's address port.
#[derive(Clone, Copy, PartialEq, Eq, Structural, Debug)]
pub enum CMOSRTCRegister {
    /// Seconds, 0 to 59.
    Seconds,
    /// Minutes, 0 to 59.
    Minutes,
    /// Hours, 0 to 23 on a 24 hour clock.
    Hours,
    /// Day of the week, 1 to 7.
    Weekday,
    /// Day of the month, 1 to 31.
    DayOfMonth,
    /// Month, 1 to 12.
    Month,
    /// The last two digits of the year.
    Year,
    /// Status register A.
    StatusA,
    /// Status register B: data format and clock mode.
    StatusB,
    /// Status register C.
    StatusC,
    /// Status register D.
    StatusD,
}

impl CMOSRTCRegister {
    /// The register's number on the chip.
    pub open spec fn number(self) -> u8 {
        match self {
            CMOSRTCRegister::Seconds => 0x00,
            CMOSRTCRegister::Minutes => 0x02,
            CMOSRTCRegister::Hours => 0x04,
            CMOSRTCRegister::Weekday => 0x06,
            CMOSRTCRegister::DayOfMonth => 0x07,
            CMOSRTCRegister::Month => 0x08,
            CMOSRTCRegister::Year => 0x09,
            CMOSRTCRegister::StatusA => 0x0a,
            CMOSRTCRegister::StatusB => 0x0b,
            CMOSRTCRegister::StatusC => 0x0c,
            CMOSRTCRegister::StatusD => 0x0d,
        }
    }

    /// The register's number on the chip.
    pub fn as_u8(self) -> (number: u8)
        ensures
            number == self.number(),
    {
        match self {
            CMOSRTCRegister::Seconds => 0x00,
            CMOSRTCRegister::Minutes => 0x02,
            CMOSRTCRegister::Hours => 0x04,
            CMOSRTCRegister::Weekday => 0x06,
            CMOSRTCRegister::DayOfMonth => 0x07,
            CMOSRTCRegister::Month => 0x08,
            CMOSRTCRegister::Year => 0x09,
            CMOSRTCRegister::StatusA => 0x0a,
            CMOSRTCRegister::StatusB => 0x0b,
            CMOSRTCRegister::StatusC => 0x0c,
            CMOSRTCRegister::StatusD => 0x0d,
        }
    }
}

/// The value of a byte that holds two decimal digits, one in each half:
/// ten times the high half plus the low half.
pub open spec fn bcd_value(byte: u8) -> int {
    (byte / 16) * 10 + byte % 16
}

/// Whether both halves of the byte are decimal digits.
pub open spec fn is_bcd(byte: u8) -> bool {
    byte / 16 <= 9 && byte % 16 <= 9
}

/// Converts a binary-coded decimal byte to the number it stands for.
pub fn bcd_to_binary(byte: u8) -> (value: u8)
    ensures
        value == bcd_value(byte),
        is_bcd(byte) ==> value <= 99 && value / 10 == byte / 16 && value % 10 == byte % 16,
{
    assert(byte & 0x0f == byte % 16) by (bit_vector);
    (byte & 0x0F) + ((byte / 16) * 10)
}

/// Whether the chip reports its values as binary-coded decimals: bit 2 of
/// status register B is clear.
pub fn is_bcd_mode(status_b: u8) -> (bcd: bool)
    ensures
        bcd == (status_b / 4 % 2 == 0),
{
    assert((status_b & 0x04 == 0) == (status_b / 4 % 2 == 0)) by (bit_vector);
    status_b & 0x04 == 0
}

/// What the kernel's clock code takes bit 1 of status register B to mean:
/// the hour format is reported as 24 hours where that bit is clear.
pub fn is_24_hour_format(status_b: u8) -> (full_day: bool)
    ensures
        full_day == (status_b / 2 % 2 == 0),
{
    assert((status_b & 0x02 == 0) == (status_b / 2 % 2 == 0)) by (bit_vector);
    status_b & 0x02 == 0
}

} // verus!
