//! Decoding what the real-time clock's registers hold into a calendar time.

use vstd::prelude::*;
use crate::time::Time;

verus! {

/// The registers of the clock as read in one pass.
#[derive(Debug, Clone, Copy, PartialEq, Eq, Structural)]
pub struct RtcSnapshot {
    /// Register 0x00: seconds.
    pub sec: u8,
    /// Register 0x02: minutes.
    pub min: u8,
    /// Register 0x04: hours, with the PM flag in bit 7 in 12-hour mode.
    pub hour: u8,
    /// Register 0x07: day of the month.
    pub day: u8,
    /// Register 0x08: month.
    pub month: u8,
    /// Register 0x09: year within the century.
    pub year: u8,
}

/// The number that a byte of two decimal digits stands for: the high nibble
/// counts tens, the low nibble ones.
pub open spec fn bcd_value(value: u8) -> u8 {
    ((value / 16) * 10 + value % 16) as u8
}

/// What a register stands for in the mode of the clock.
pub open spec fn field_value(value: u8, binary: bool) -> u8 {
    if binary {
        value
    } else {
        bcd_value(value)
    }
}

/// The hour of the day between 0 and 23 that the hour register stands for.
/// In 12-hour mode bit 7 of the register says PM: 12 AM is hour 0, 12 PM is
/// hour 12, and any other PM hour is twelve later than the same AM hour.
pub open spec fn hour_value(raw: u8, binary: bool, is_24h: bool) -> u8 {
    let hour = field_value((raw % 128) as u8, binary);
    if is_24h {
        hour
    } else if raw >= 128 {
        if hour != 12 {
            ((hour + 12) % 256) as u8
        } else {
            hour
        }
    } else if hour == 12 {
        0
    } else {
        hour
    }
}

/// The full year: the century register times a hundred plus the year, or the
/// year in the century from 2000 where the century register holds 0 or 0xFF.
pub open spec fn year_value(year: u8, century: u8, binary: bool) -> u16 {
    if century != 0 && century != 0xFF {
        (field_value(century, binary) * 100 + field_value(year, binary)) as u16
    } else {
        (2000 + field_value(year, binary)) as u16
    }
}

/// Whether status register B says that the clock counts in binary.
pub open spec fn is_binary(reg_b: u8) -> bool {
    (reg_b / 4) % 2 == 1
}

/// Whether status register B says that the clock counts 24 hours.
pub open spec fn is_24_hour(reg_b: u8) -> bool {
    (reg_b / 2) % 2 == 1
}

/// Converts a byte of two binary-coded decimal digits to its number.
pub fn bcd_to_bin(value: u8) -> (bin: u8)
    ensures
        bin == bcd_value(value),
{
    assert(value >> 4 == value / 16) by (bit_vector);
    assert(value & 0x0F == value % 16) by (bit_vector);
    ((value >> 4) * 10) + (value & 0x0F)
}

/// Whether two passes over the registers read the same, so that no update
/// of the clock fell between them.
pub fn snapshots_agree(first: &RtcSnapshot, second: &RtcSnapshot) -> (same: bool)
    ensures
        same == (*first == *second),
{
    second.sec == first.sec && second.min == first.min && second.hour == first.hour && second.day
        == first.day && second.month == first.month && second.year == first.year
}

/// Turns a stable pass over the registers into a time, given status
/// register B and the century register.
pub fn decode(raw: RtcSnapshot, reg_b: u8, century: u8) -> (time: Time)
    ensures
        time.sec == field_value(raw.sec, is_binary(reg_b)),
        time.min == field_value(raw.min, is_binary(reg_b)),
        time.hour == hour_value(raw.hour, is_binary(reg_b), is_24_hour(reg_b)),
        time.day == field_value(raw.day, is_binary(reg_b)),
        time.month == field_value(raw.month, is_binary(reg_b)),
        time.year == year_value(raw.year, century, is_binary(reg_b)),
{
    let mut sec = raw.sec;
    let mut min = raw.min;
    let mut hour = raw.hour;
    let mut day = raw.day;
    let mut month = raw.month;
    let mut year = raw.year;

    let binary = (reg_b & 0x04) != 0;
    assert(((reg_b & 0x04) != 0) == ((reg_b / 4) % 2 == 1)) by (bit_vector);
    let raw_hour = raw.hour;
    assert(raw_hour & 0x7F == raw_hour % 128) by (bit_vector);
    assert(((raw_hour & 0x80) != 0) == (raw_hour >= 128)) by (bit_vector);

    if !binary {
        sec = bcd_to_bin(sec);
        min = bcd_to_bin(min);
        hour = bcd_to_bin(raw.hour & 0x7F);
        day = bcd_to_bin(day);
        month = bcd_to_bin(month);
        year = bcd_to_bin(year);
    } else {
        hour = raw.hour & 0x7F;
    }

    let is_24h = (reg_b & 0x02) != 0;
    assert(((reg_b & 0x02) != 0) == ((reg_b / 2) % 2 == 1)) by (bit_vector);
    if !is_24h {
        let pm = (raw.hour & 0x80) != 0;
        if pm {
            if hour != 12 {
                hour = hour.wrapping_add(12);
            }
        } else {
            if hour == 12 {
                hour = 0;
            }
        }
    }

    let full_year: u16 = if century != 0 && century != 0xFF {
        let cent: u16 = if !binary {
            bcd_to_bin(century) as u16
        } else {
            century as u16
        };
        cent * 100 + year as u16
    } else {
        2000 + year as u16
    };

    Time { sec, min, hour, day, month, year: full_year }
}

} // verus!
