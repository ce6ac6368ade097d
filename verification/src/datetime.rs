//! Date and time transfer.
//!
//! Reading and setting single calendar elements is deliberately not offered:
//! the chip latches all seven date-time registers during one burst transfer,
//! so only the all-at-once operations see a consistent instant. A reduced
//! [`Time`] write is available for clock-only applications that leave the
//! calendar registers untouched.

use vstd::prelude::*;

use crate::bus::{burst_written, Bus};
use crate::{
    bcd_decode_spec, bcd_encode_spec, decode_bcd, encode_bcd, with_bits_clear, with_bits_set,
    Error, PCF8563, CENTURY, CENTURY_MONTHS, DEVICE_ADDRESS, VL_SECONDS,
};

verus! {

/// Container to hold date and time components.
#[derive(Debug, Clone, Copy, PartialEq, Eq, Structural)]
pub struct DateTime {
    /// Year [0-99].
    pub year: u8,
    /// Month [1-12].
    pub month: u8,
    /// Weekday [0-6].
    pub weekday: u8,
    /// Days [1-31].
    pub day: u8,
    /// Hours [0-23].
    pub hours: u8,
    /// Minutes [0-59].
    pub minutes: u8,
    /// Seconds [0-59].
    pub seconds: u8,
}

/// Container to hold time components only (for clock applications without
/// calendar functions).
#[derive(Debug, Clone, Copy, PartialEq, Eq, Structural)]
pub struct Time {
    /// Hours [0-23].
    pub hours: u8,
    /// Minutes [0-59].
    pub minutes: u8,
    /// Seconds [0-59].
    pub seconds: u8,
}

/// Every date-time field within its documented range.
pub open spec fn datetime_valid(dt: DateTime) -> bool {
    &&& dt.year <= 99
    &&& 1 <= dt.month <= 12
    &&& dt.weekday <= 6
    &&& 1 <= dt.day <= 31
    &&& dt.hours <= 23
    &&& dt.minutes <= 59
    &&& dt.seconds <= 59
}

/// Every time field within its documented range.
pub open spec fn time_valid(t: Time) -> bool {
    &&& t.hours <= 23
    &&& t.minutes <= 59
    &&& t.seconds <= 59
}

/// The register file after a full date-time write: the seven calendar
/// registers hold the BCD encodings in ascending register order, and the
/// century flag on the month register is written as zero.
pub open spec fn datetime_written(regs: Seq<u8>, dt: DateTime) -> Seq<u8> {
    regs.update(2, bcd_encode_spec(dt.seconds)).update(3, bcd_encode_spec(dt.minutes)).update(
        4,
        bcd_encode_spec(dt.hours),
    ).update(5, bcd_encode_spec(dt.day)).update(6, bcd_encode_spec(dt.weekday)).update(
        7,
        bcd_encode_spec(dt.month),
    ).update(8, bcd_encode_spec(dt.year))
}

/// The register file after a time-only write: the three clock registers hold
/// the BCD encodings, the calendar registers keep their values.
pub open spec fn time_written(regs: Seq<u8>, t: Time) -> Seq<u8> {
    regs.update(2, bcd_encode_spec(t.seconds)).update(3, bcd_encode_spec(t.minutes)).update(
        4,
        bcd_encode_spec(t.hours),
    )
}

/// The date-time stored in a register file: each calendar register decoded,
/// with the flag bits the chip overloads onto a register masked off first
/// (voltage-low on seconds, century on months, and the unused high bits of
/// the other fields).
pub open spec fn datetime_of_regs(regs: Seq<u8>) -> DateTime {
    DateTime {
        year: bcd_decode_spec(regs[8]),
        month: bcd_decode_spec(regs[7] & 0x1f),
        weekday: bcd_decode_spec(regs[6] & 0x07),
        day: bcd_decode_spec(regs[5] & 0x3f),
        hours: bcd_decode_spec(regs[4] & 0x3f),
        minutes: bcd_decode_spec(regs[3] & 0x7f),
        seconds: bcd_decode_spec(regs[2]),
    }
}

/// A date-time written to the registers reads back as the same value, for
/// every valid date-time whose year is below 80. The tens digit of the year
/// is the one field that can exceed the three bits the decoder keeps, so
/// years 80 to 99 do not survive the trip.
pub proof fn lemma_datetime_round_trip(regs: Seq<u8>, dt: DateTime)
    requires
        regs.len() == 16,
        datetime_valid(dt),
        dt.year <= 79,
    ensures
        datetime_of_regs(datetime_written(regs, dt)) == dt,
{
    let s = dt.seconds;
    let mi = dt.minutes;
    let h = dt.hours;
    let d = dt.day;
    let w = dt.weekday;
    let mo = dt.month;
    let y = dt.year;
    assert(s <= 59 ==> bcd_decode_spec(bcd_encode_spec(s)) == s) by (bit_vector);
    assert(mi <= 59 ==> bcd_decode_spec(bcd_encode_spec(mi) & 0x7f) == mi) by (bit_vector);
    assert(h <= 23 ==> bcd_decode_spec(bcd_encode_spec(h) & 0x3f) == h) by (bit_vector);
    assert(d <= 31 ==> bcd_decode_spec(bcd_encode_spec(d) & 0x3f) == d) by (bit_vector);
    assert(w <= 6 ==> bcd_decode_spec(bcd_encode_spec(w) & 0x07) == w) by (bit_vector);
    assert(mo <= 12 ==> bcd_decode_spec(bcd_encode_spec(mo) & 0x1f) == mo) by (bit_vector);
    assert(y <= 79 ==> bcd_decode_spec(bcd_encode_spec(y)) == y) by (bit_vector);
}

impl<I2C: Bus> PCF8563<I2C> {
    /// Read date and time all at once, in one burst transaction, so the
    /// seven bytes represent one consistent instant.
    pub fn get_datetime(&mut self) -> (r: Result<DateTime, Error<I2C::Fault>>)
        requires
            old(self).inv(),
        ensures
            final(self).inv(),
            final(self).regs() == old(self).regs(),
            final(self).nwrites() == old(self).nwrites(),
            r matches Ok(dt) ==> dt == datetime_of_regs(old(self).regs()),
            r matches Err(e) ==> e is I2C,
    {
        match self.i2c.write_read(DEVICE_ADDRESS, VL_SECONDS, 7) {
            Ok(data) => Ok(
                DateTime {
                    year: decode_bcd(data[6]),
                    month: decode_bcd(data[5] & 0x1f),
                    weekday: decode_bcd(data[4] & 0x07),
                    day: decode_bcd(data[3] & 0x3f),
                    hours: decode_bcd(data[2] & 0x3f),
                    minutes: decode_bcd(data[1] & 0x7f),
                    seconds: decode_bcd(data[0]),
                },
            ),
            Err(e) => Err(Error::I2C(e)),
        }
    }

    /// Set date and time all at once, in one burst transaction.
    ///
    /// Returns `Error::InvalidInputData`, without touching the bus, if any
    /// field is out of range. The century flag is written as zero; use
    /// [`PCF8563::set_century_flag`] to set it.
    pub fn set_datetime(&mut self, datetime: &DateTime) -> (r: Result<(), Error<I2C::Fault>>)
        requires
            old(self).inv(),
        ensures
            final(self).inv(),
            old(self).nwrites() <= final(self).nwrites() <= old(self).nwrites() + 1,
            !datetime_valid(*datetime) ==> r == Err::<(), Error<I2C::Fault>>(
                Error::InvalidInputData,
            ) && *final(self) == *old(self),
            datetime_valid(*datetime) ==> (r matches Err(e) ==> e is I2C),
            r is Ok ==> final(self).regs() == datetime_written(old(self).regs(), *datetime)
                && final(self).nwrites() == old(self).nwrites() + 1,
    {
        if datetime.year > 99 || datetime.month < 1 || datetime.month > 12 || datetime.weekday > 6
            || datetime.day < 1 || datetime.day > 31 || datetime.hours > 23
            || datetime.minutes > 59 || datetime.seconds > 59 {
            return Err(Error::InvalidInputData);
        }
        let mut payload: Vec<u8> = Vec::new();
        payload.push(VL_SECONDS);  // first register
        payload.push(encode_bcd(datetime.seconds));
        payload.push(encode_bcd(datetime.minutes));
        payload.push(encode_bcd(datetime.hours));
        payload.push(encode_bcd(datetime.day));
        payload.push(encode_bcd(datetime.weekday));
        payload.push(encode_bcd(datetime.month));  // century bit set to 0
        payload.push(encode_bcd(datetime.year));
        match self.i2c.write(DEVICE_ADDRESS, payload.as_slice()) {
            Ok(()) => {
                proof {
                    assert(burst_written(old(self).regs(), payload@) =~= datetime_written(
                        old(self).regs(),
                        *datetime,
                    ));
                }
                Ok(())
            },
            Err(e) => Err(Error::I2C(e)),
        }
    }

    /// Set only the time; the calendar registers remain untouched, because
    /// the burst write stops after the three clock registers.
    ///
    /// Returns `Error::InvalidInputData`, without touching the bus, if any
    /// field is out of range.
    pub fn set_time(&mut self, datetime: &Time) -> (r: Result<(), Error<I2C::Fault>>)
        requires
            old(self).inv(),
        ensures
            final(self).inv(),
            old(self).nwrites() <= final(self).nwrites() <= old(self).nwrites() + 1,
            !time_valid(*datetime) ==> r == Err::<(), Error<I2C::Fault>>(Error::InvalidInputData)
                && *final(self) == *old(self),
            time_valid(*datetime) ==> (r matches Err(e) ==> e is I2C),
            r is Ok ==> final(self).regs() == time_written(old(self).regs(), *datetime)
                && final(self).nwrites() == old(self).nwrites() + 1,
    {
        if datetime.hours > 23 || datetime.minutes > 59 || datetime.seconds > 59 {
            return Err(Error::InvalidInputData);
        }
        let mut payload: Vec<u8> = Vec::new();
        payload.push(VL_SECONDS);  // first register
        payload.push(encode_bcd(datetime.seconds));
        payload.push(encode_bcd(datetime.minutes));
        payload.push(encode_bcd(datetime.hours));
        match self.i2c.write(DEVICE_ADDRESS, payload.as_slice()) {
            Ok(()) => {
                proof {
                    assert(burst_written(old(self).regs(), payload@) =~= time_written(
                        old(self).regs(),
                        *datetime,
                    ));
                }
                Ok(())
            },
            Err(e) => Err(Error::I2C(e)),
        }
    }

    /// Read the century flag (0: century N, 1: century N+1).
    pub fn get_century_flag(&mut self) -> (r: Result<u8, Error<I2C::Fault>>)
        requires
            old(self).inv(),
        ensures
            final(self).inv(),
            final(self).regs() == old(self).regs(),
            final(self).nwrites() == old(self).nwrites(),
            r matches Ok(c) ==> c == (if old(self).regs()[CENTURY_MONTHS as int] & CENTURY != 0 {
                1u8
            } else {
                0u8
            }),
            r matches Err(e) ==> e is I2C,
    {
        let flag = self.is_register_bit_flag_high(CENTURY_MONTHS, CENTURY)?;
        if flag {
            Ok(1)
        } else {
            Ok(0)
        }
    }

    /// Set the century flag (0: century N, 1: century N+1).
    ///
    /// Returns `Error::InvalidInputData`, without touching the bus, for any
    /// other value.
    pub fn set_century_flag(&mut self, century: u8) -> (r: Result<(), Error<I2C::Fault>>)
        requires
            old(self).inv(),
        ensures
            final(self).inv(),
            old(self).nwrites() <= final(self).nwrites() <= old(self).nwrites() + 1,
            century > 1 ==> r == Err::<(), Error<I2C::Fault>>(Error::InvalidInputData)
                && *final(self) == *old(self),
            century == 0 && r is Ok ==> final(self).regs() == with_bits_clear(
                old(self).regs(),
                CENTURY_MONTHS as int,
                CENTURY,
            ),
            century == 1 && r is Ok ==> final(self).regs() == with_bits_set(
                old(self).regs(),
                CENTURY_MONTHS as int,
                CENTURY,
            ),
            century <= 1 ==> (r matches Err(e) ==> e is I2C),
    {
        match century {
            0 => self.clear_register_bit_flag(CENTURY_MONTHS, CENTURY),
            1 => self.set_register_bit_flag(CENTURY_MONTHS, CENTURY),
            _ => Err(Error::InvalidInputData),
        }
    }
}

} // verus!
