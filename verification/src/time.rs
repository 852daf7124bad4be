//! Calendar time as the clock chip reports it.

use crate::cmos::{bcd_to_binary, bcd_value, CMOSRTCRegister};
use vstd::prelude::*;

verus! {

/// A point in time, to the second. The year holds its last two digits.
#[derive(Clone, Copy, PartialEq, Eq, Structural, Debug)]
pub struct DateTime {
    /// The last two digits of the year.
    pub year: u8,
    /// Month, 1 to 12.
    pub month: u8,
    /// Day of the month, 1 to 31.
    pub day: u8,
    /// Hour, 0 to 23.
    pub hour: u8,
    /// Minute, 0 to 59.
    pub minute: u8,
    /// Second, 0 to 59.
    pub second: u8,
}

impl DateTime {
    /// The time with the given fields.
    pub fn new(year: u8, month: u8, day: u8, hour: u8, minute: u8, second: u8) -> (time: Self)
        ensures
            time == (DateTime { year, month, day, hour, minute, second }),
    {
        Self { year, month, day, hour, minute, second }
    }

    /// The registers that hold the time, in the order the kernel reads
    /// them: seconds, minutes, hours, day of the month, month, year.
    pub open spec fn register_order() -> Seq<CMOSRTCRegister> {
        seq![
            CMOSRTCRegister::Seconds,
            CMOSRTCRegister::Minutes,
            CMOSRTCRegister::Hours,
            CMOSRTCRegister::DayOfMonth,
            CMOSRTCRegister::Month,
            CMOSRTCRegister::Year,
        ]
    }

    /// The registers that hold the time, in the order the kernel reads them.
    pub fn registers() -> (registers: [CMOSRTCRegister; 6])
        ensures
            registers@ == Self::register_order(),
    {
        let registers = [
            CMOSRTCRegister::Seconds,
            CMOSRTCRegister::Minutes,
            CMOSRTCRegister::Hours,
            CMOSRTCRegister::DayOfMonth,
            CMOSRTCRegister::Month,
            CMOSRTCRegister::Year,
        ];
        assert(registers@ =~= Self::register_order());
        registers
    }

    /// The time made of the values read from the registers of
    /// [`DateTime::registers`], in that order and as they are.
    pub fn from_values(values: &[u8; 6]) -> (time: DateTime)
        ensures
            time == (DateTime {
                second: values@[0],
                minute: values@[1],
                hour: values@[2],
                day: values@[3],
                month: values@[4],
                year: values@[5],
            }),
    {
        DateTime {
            second: values[0],
            minute: values[1],
            hour: values[2],
            day: values[3],
            month: values[4],
            year: values[5],
        }
    }

    /// What `raw` stands for where each field is a binary-coded decimal.
    pub open spec fn decoded(raw: DateTime) -> DateTime {
        DateTime {
            year: bcd_value(raw.year) as u8,
            month: bcd_value(raw.month) as u8,
            day: bcd_value(raw.day) as u8,
            hour: bcd_value(raw.hour) as u8,
            minute: bcd_value(raw.minute) as u8,
            second: bcd_value(raw.second) as u8,
        }
    }

    /// The current time, given the register values `raw` that the clock chip
    /// holds now. Where the chip is in binary-coded decimal mode every field
    /// is converted to binary; otherwise the values are taken as they are.
    pub fn now(raw: DateTime, bcd_mode: bool) -> (time: DateTime)
        ensures
            time == if bcd_mode {
                Self::decoded(raw)
            } else {
                raw
            },
    {
        if !bcd_mode {
            return raw;
        }
        DateTime {
            year: bcd_to_binary(raw.year),
            month: bcd_to_binary(raw.month),
            day: bcd_to_binary(raw.day),
            hour: bcd_to_binary(raw.hour),
            minute: bcd_to_binary(raw.minute),
            second: bcd_to_binary(raw.second),
        }
    }
}

} // verus!
