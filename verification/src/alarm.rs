//! Alarm functions.
//!
//! Each alarm component (minutes, hours, day, weekday) has its own register,
//! whose bit 7 is the hardware *disable* bit `AE`: the component's alarm is
//! enabled when the bit is low. Enabling therefore clears the bit and
//! disabling sets it, and the status query inverts the raw bit back, so the
//! inversion lives here once and callers see plain enabled/disabled.
//!
//! Setting an alarm component keeps its `AE` bit unchanged.

use vstd::prelude::*;

use crate::bus::Bus;
use crate::{
    bcd_decode_spec, bcd_encode_spec, decode_bcd, encode_bcd, with_bits_clear, with_bits_set,
    Control, Error, PCF8563, AE, AF, AIE, CTRL_STATUS_2, DAY_ALARM, HOUR_ALARM, MINUTE_ALARM,
    WEEKDAY_ALARM,
};

verus! {

/// Whether the alarm component behind `addr` is enabled: the hardware bit is
/// a disable bit, so enabled means the bit is low.
pub open spec fn component_enabled(regs: Seq<u8>, addr: int) -> bool {
    regs[addr] & AE == 0
}

/// Enable/disable inversion: forcing the disable bit high leaves the
/// component disabled, and forcing it low leaves it enabled, whatever the
/// register held before.
pub proof fn lemma_enable_inversion(regs: Seq<u8>, addr: int)
    requires
        0 <= addr < regs.len(),
    ensures
        !component_enabled(with_bits_set(regs, addr, AE), addr),
        component_enabled(with_bits_clear(regs, addr, AE), addr),
{
    let v = regs[addr];
    assert((v | 0x80u8) & 0x80u8 != 0) by (bit_vector);
    assert((v & !0x80u8) & 0x80u8 == 0) by (bit_vector);
}

impl<I2C: Bus> PCF8563<I2C> {
    /// Set the alarm minutes [0-59], keeping the AE bit unchanged.
    pub fn set_alarm_minutes(&mut self, minutes: u8) -> (r: Result<(), Error<I2C::Fault>>)
        requires
            old(self).inv(),
        ensures
            final(self).inv(),
            old(self).nwrites() <= final(self).nwrites() <= old(self).nwrites() + 1,
            minutes > 59 ==> r == Err::<(), Error<I2C::Fault>>(Error::InvalidInputData)
                && *final(self) == *old(self),
            minutes <= 59 ==> (r matches Err(e) ==> e is I2C),
            r is Ok ==> final(self).regs() == old(self).regs().update(
                MINUTE_ALARM as int,
                (old(self).regs()[MINUTE_ALARM as int] & AE) | bcd_encode_spec(minutes),
            ) && final(self).nwrites() == old(self).nwrites() + 1,
    {
        if minutes > 59 {
            return Err(Error::InvalidInputData);
        }
        let data: u8 = self.read_register(MINUTE_ALARM)?;  // read current value
        let data: u8 = data & AE;  // keep the AE bit as is
        let setting: u8 = encode_bcd(minutes);
        let data: u8 = data | setting;
        self.write_register(MINUTE_ALARM, data)
    }

    /// Set the alarm hours [0-23], keeping the AE bit unchanged.
    pub fn set_alarm_hours(&mut self, hours: u8) -> (r: Result<(), Error<I2C::Fault>>)
        requires
            old(self).inv(),
        ensures
            final(self).inv(),
            old(self).nwrites() <= final(self).nwrites() <= old(self).nwrites() + 1,
            hours > 23 ==> r == Err::<(), Error<I2C::Fault>>(Error::InvalidInputData)
                && *final(self) == *old(self),
            hours <= 23 ==> (r matches Err(e) ==> e is I2C),
            r is Ok ==> final(self).regs() == old(self).regs().update(
                HOUR_ALARM as int,
                (old(self).regs()[HOUR_ALARM as int] & AE) | bcd_encode_spec(hours),
            ) && final(self).nwrites() == old(self).nwrites() + 1,
    {
        if hours > 23 {
            return Err(Error::InvalidInputData);
        }
        let data: u8 = self.read_register(HOUR_ALARM)?;  // read current value
        let data: u8 = data & AE;  // keep the AE bit as is
        let setting: u8 = encode_bcd(hours);
        let data: u8 = data | setting;
        self.write_register(HOUR_ALARM, data)
    }

    /// Set the alarm day [1-31], keeping the AE bit unchanged.
    pub fn set_alarm_day(&mut self, day: u8) -> (r: Result<(), Error<I2C::Fault>>)
        requires
            old(self).inv(),
        ensures
            final(self).inv(),
            old(self).nwrites() <= final(self).nwrites() <= old(self).nwrites() + 1,
            day < 1 || day > 31 ==> r == Err::<(), Error<I2C::Fault>>(Error::InvalidInputData)
                && *final(self) == *old(self),
            1 <= day <= 31 ==> (r matches Err(e) ==> e is I2C),
            r is Ok ==> final(self).regs() == old(self).regs().update(
                DAY_ALARM as int,
                (old(self).regs()[DAY_ALARM as int] & AE) | bcd_encode_spec(day),
            ) && final(self).nwrites() == old(self).nwrites() + 1,
    {
        if day < 1 || day > 31 {
            return Err(Error::InvalidInputData);
        }
        let data: u8 = self.read_register(DAY_ALARM)?;  // read current value
        let data: u8 = data & AE;  // keep the AE bit as is
        let setting: u8 = encode_bcd(day);
        let data: u8 = data | setting;
        self.write_register(DAY_ALARM, data)
    }

    /// Set the alarm weekday [0-6], keeping the AE bit unchanged.
    pub fn set_alarm_weekday(&mut self, weekday: u8) -> (r: Result<(), Error<I2C::Fault>>)
        requires
            old(self).inv(),
        ensures
            final(self).inv(),
            old(self).nwrites() <= final(self).nwrites() <= old(self).nwrites() + 1,
            weekday > 6 ==> r == Err::<(), Error<I2C::Fault>>(Error::InvalidInputData)
                && *final(self) == *old(self),
            weekday <= 6 ==> (r matches Err(e) ==> e is I2C),
            r is Ok ==> final(self).regs() == old(self).regs().update(
                WEEKDAY_ALARM as int,
                (old(self).regs()[WEEKDAY_ALARM as int] & AE) | bcd_encode_spec(weekday),
            ) && final(self).nwrites() == old(self).nwrites() + 1,
    {
        if weekday > 6 {
            return Err(Error::InvalidInputData);
        }
        let data: u8 = self.read_register(WEEKDAY_ALARM)?;  // read current value
        let data: u8 = data & AE;  // keep the AE bit as is
        let setting: u8 = encode_bcd(weekday);
        let data: u8 = data | setting;
        self.write_register(WEEKDAY_ALARM, data)
    }

    /// Control alarm minutes (On: alarm enabled, Off: alarm disabled).
    pub fn control_alarm_minutes(&mut self, status: Control) -> (r: Result<(), Error<I2C::Fault>>)
        requires
            old(self).inv(),
        ensures
            final(self).inv(),
            old(self).nwrites() <= final(self).nwrites() <= old(self).nwrites() + 1,
            r is Ok && status is On ==> final(self).regs() == with_bits_clear(
                old(self).regs(),
                MINUTE_ALARM as int,
                AE,
            ),
            r is Ok && status is Off ==> final(self).regs() == with_bits_set(
                old(self).regs(),
                MINUTE_ALARM as int,
                AE,
            ),
            r matches Err(e) ==> e is I2C,
    {
        match status {
            Control::Off => self.set_register_bit_flag(MINUTE_ALARM, AE),
            Control::On => self.clear_register_bit_flag(MINUTE_ALARM, AE),
        }
    }

    /// Is alarm minutes enabled?
    pub fn is_alarm_minutes_enabled(&mut self) -> (r: Result<bool, Error<I2C::Fault>>)
        requires
            old(self).inv(),
        ensures
            final(self).inv(),
            final(self).regs() == old(self).regs(),
            final(self).nwrites() == old(self).nwrites(),
            r matches Ok(b) ==> b == component_enabled(old(self).regs(), MINUTE_ALARM as int),
            r matches Err(e) ==> e is I2C,
    {
        let flag = self.is_register_bit_flag_high(MINUTE_ALARM, AE)?;
        let flag = flag ^ true;
        Ok(flag)
    }

    /// Control alarm hours (On: alarm enabled, Off: alarm disabled).
    pub fn control_alarm_hours(&mut self, status: Control) -> (r: Result<(), Error<I2C::Fault>>)
        requires
            old(self).inv(),
        ensures
            final(self).inv(),
            old(self).nwrites() <= final(self).nwrites() <= old(self).nwrites() + 1,
            r is Ok && status is On ==> final(self).regs() == with_bits_clear(
                old(self).regs(),
                HOUR_ALARM as int,
                AE,
            ),
            r is Ok && status is Off ==> final(self).regs() == with_bits_set(
                old(self).regs(),
                HOUR_ALARM as int,
                AE,
            ),
            r matches Err(e) ==> e is I2C,
    {
        match status {
            Control::Off => self.set_register_bit_flag(HOUR_ALARM, AE),
            Control::On => self.clear_register_bit_flag(HOUR_ALARM, AE),
        }
    }

    /// Is alarm hours enabled?
    pub fn is_alarm_hours_enabled(&mut self) -> (r: Result<bool, Error<I2C::Fault>>)
        requires
            old(self).inv(),
        ensures
            final(self).inv(),
            final(self).regs() == old(self).regs(),
            final(self).nwrites() == old(self).nwrites(),
            r matches Ok(b) ==> b == component_enabled(old(self).regs(), HOUR_ALARM as int),
            r matches Err(e) ==> e is I2C,
    {
        let flag = self.is_register_bit_flag_high(HOUR_ALARM, AE)?;
        let flag = flag ^ true;
        Ok(flag)
    }

    /// Control alarm day (On: alarm enabled, Off: alarm disabled).
    pub fn control_alarm_day(&mut self, status: Control) -> (r: Result<(), Error<I2C::Fault>>)
        requires
            old(self).inv(),
        ensures
            final(self).inv(),
            old(self).nwrites() <= final(self).nwrites() <= old(self).nwrites() + 1,
            r is Ok && status is On ==> final(self).regs() == with_bits_clear(
                old(self).regs(),
                DAY_ALARM as int,
                AE,
            ),
            r is Ok && status is Off ==> final(self).regs() == with_bits_set(
                old(self).regs(),
                DAY_ALARM as int,
                AE,
            ),
            r matches Err(e) ==> e is I2C,
    {
        match status {
            Control::Off => self.set_register_bit_flag(DAY_ALARM, AE),
            Control::On => self.clear_register_bit_flag(DAY_ALARM, AE),
        }
    }

    /// Is alarm day enabled?
    pub fn is_alarm_day_enabled(&mut self) -> (r: Result<bool, Error<I2C::Fault>>)
        requires
            old(self).inv(),
        ensures
            final(self).inv(),
            final(self).regs() == old(self).regs(),
            final(self).nwrites() == old(self).nwrites(),
            r matches Ok(b) ==> b == component_enabled(old(self).regs(), DAY_ALARM as int),
            r matches Err(e) ==> e is I2C,
    {
        let flag = self.is_register_bit_flag_high(DAY_ALARM, AE)?;
        let flag = flag ^ true;
        Ok(flag)
    }

    /// Control alarm weekday (On: alarm enabled, Off: alarm disabled).
    pub fn control_alarm_weekday(&mut self, status: Control) -> (r: Result<(), Error<I2C::Fault>>)
        requires
            old(self).inv(),
        ensures
            final(self).inv(),
            old(self).nwrites() <= final(self).nwrites() <= old(self).nwrites() + 1,
            r is Ok && status is On ==> final(self).regs() == with_bits_clear(
                old(self).regs(),
                WEEKDAY_ALARM as int,
                AE,
            ),
            r is Ok && status is Off ==> final(self).regs() == with_bits_set(
                old(self).regs(),
                WEEKDAY_ALARM as int,
                AE,
            ),
            r matches Err(e) ==> e is I2C,
    {
        match status {
            Control::Off => self.set_register_bit_flag(WEEKDAY_ALARM, AE),
            Control::On => self.clear_register_bit_flag(WEEKDAY_ALARM, AE),
        }
    }

    /// Is alarm weekday enabled?
    pub fn is_alarm_weekday_enabled(&mut self) -> (r: Result<bool, Error<I2C::Fault>>)
        requires
            old(self).inv(),
        ensures
            final(self).inv(),
            final(self).regs() == old(self).regs(),
            final(self).nwrites() == old(self).nwrites(),
            r matches Ok(b) ==> b == component_enabled(old(self).regs(), WEEKDAY_ALARM as int),
            r matches Err(e) ==> e is I2C,
    {
        let flag = self.is_register_bit_flag_high(WEEKDAY_ALARM, AE)?;
        let flag = flag ^ true;
        Ok(flag)
    }

    /// Enable or disable alarm interrupt. The interrupt enable bit is a true
    /// enable bit: no inversion here.
    pub fn control_alarm_interrupt(&mut self, status: Control) -> (r: Result<
        (),
        Error<I2C::Fault>,
    >)
        requires
            old(self).inv(),
        ensures
            final(self).inv(),
            old(self).nwrites() <= final(self).nwrites() <= old(self).nwrites() + 1,
            r is Ok && status is On ==> final(self).regs() == with_bits_set(
                old(self).regs(),
                CTRL_STATUS_2 as int,
                AIE,
            ),
            r is Ok && status is Off ==> final(self).regs() == with_bits_clear(
                old(self).regs(),
                CTRL_STATUS_2 as int,
                AIE,
            ),
            r matches Err(e) ==> e is I2C,
    {
        match status {
            Control::On => self.set_register_bit_flag(CTRL_STATUS_2, AIE),
            Control::Off => self.clear_register_bit_flag(CTRL_STATUS_2, AIE),
        }
    }

    /// Read the alarm minutes setting.
    pub fn get_alarm_minutes(&mut self) -> (r: Result<u8, Error<I2C::Fault>>)
        requires
            old(self).inv(),
        ensures
            final(self).inv(),
            final(self).regs() == old(self).regs(),
            final(self).nwrites() == old(self).nwrites(),
            r matches Ok(m) ==> m == bcd_decode_spec(old(self).regs()[MINUTE_ALARM as int]),
            r matches Err(e) ==> e is I2C,
    {
        let data = self.read_register(MINUTE_ALARM)?;
        Ok(decode_bcd(data))
    }

    /// Read the alarm hours setting.
    pub fn get_alarm_hours(&mut self) -> (r: Result<u8, Error<I2C::Fault>>)
        requires
            old(self).inv(),
        ensures
            final(self).inv(),
            final(self).regs() == old(self).regs(),
            final(self).nwrites() == old(self).nwrites(),
            r matches Ok(h) ==> h == bcd_decode_spec(old(self).regs()[HOUR_ALARM as int]),
            r matches Err(e) ==> e is I2C,
    {
        let data = self.read_register(HOUR_ALARM)?;
        Ok(decode_bcd(data))
    }

    /// Read the alarm day setting.
    pub fn get_alarm_day(&mut self) -> (r: Result<u8, Error<I2C::Fault>>)
        requires
            old(self).inv(),
        ensures
            final(self).inv(),
            final(self).regs() == old(self).regs(),
            final(self).nwrites() == old(self).nwrites(),
            r matches Ok(d) ==> d == bcd_decode_spec(old(self).regs()[DAY_ALARM as int]),
            r matches Err(e) ==> e is I2C,
    {
        let data = self.read_register(DAY_ALARM)?;
        Ok(decode_bcd(data))
    }

    /// Read the alarm weekday setting.
    pub fn get_alarm_weekday(&mut self) -> (r: Result<u8, Error<I2C::Fault>>)
        requires
            old(self).inv(),
        ensures
            final(self).inv(),
            final(self).regs() == old(self).regs(),
            final(self).nwrites() == old(self).nwrites(),
            r matches Ok(w) ==> w == bcd_decode_spec(old(self).regs()[WEEKDAY_ALARM as int]),
            r matches Err(e) ==> e is I2C,
    {
        let data = self.read_register(WEEKDAY_ALARM)?;
        Ok(decode_bcd(data))
    }

    /// Get the alarm flag (if true, alarm event happened).
    pub fn get_alarm_flag(&mut self) -> (r: Result<bool, Error<I2C::Fault>>)
        requires
            old(self).inv(),
        ensures
            final(self).inv(),
            final(self).regs() == old(self).regs(),
            final(self).nwrites() == old(self).nwrites(),
            r matches Ok(b) ==> b == ((old(self).regs()[CTRL_STATUS_2 as int] & AF) != 0),
            r matches Err(e) ==> e is I2C,
    {
        self.is_register_bit_flag_high(CTRL_STATUS_2, AF)
    }

    /// Clear the alarm flag.
    pub fn clear_alarm_flag(&mut self) -> (r: Result<(), Error<I2C::Fault>>)
        requires
            old(self).inv(),
        ensures
            final(self).inv(),
            old(self).nwrites() <= final(self).nwrites() <= old(self).nwrites() + 1,
            r is Ok ==> final(self).regs() == with_bits_clear(
                old(self).regs(),
                CTRL_STATUS_2 as int,
                AF,
            ),
            r matches Err(e) ==> e is I2C,
    {
        self.clear_register_bit_flag(CTRL_STATUS_2, AF)
    }

    /// Check if alarm interrupt is enabled.
    pub fn is_alarm_interrupt_enabled(&mut self) -> (r: Result<bool, Error<I2C::Fault>>)
        requires
            old(self).inv(),
        ensures
            final(self).inv(),
            final(self).regs() == old(self).regs(),
            final(self).nwrites() == old(self).nwrites(),
            r matches Ok(b) ==> b == ((old(self).regs()[CTRL_STATUS_2 as int] & AIE) != 0),
            r matches Err(e) ==> e is I2C,
    {
        self.is_register_bit_flag_high(CTRL_STATUS_2, AIE)
    }

    /// Shut off the alarms at once.
    pub fn disable_all_alarms(&mut self) -> (r: Result<(), Error<I2C::Fault>>)
        requires
            old(self).inv(),
        ensures
            final(self).inv(),
            old(self).nwrites() <= final(self).nwrites() <= old(self).nwrites() + 4,
            r is Ok ==> final(self).regs() == alarms_disabled(old(self).regs()),
            r matches Err(e) ==> e is I2C,
    {
        self.control_alarm_minutes(Control::Off)?;
        self.control_alarm_hours(Control::Off)?;
        self.control_alarm_day(Control::Off)?;
        self.control_alarm_weekday(Control::Off)?;
        Ok(())
    }
}

/// The register file after every alarm component's disable bit is set.
pub open spec fn alarms_disabled(regs: Seq<u8>) -> Seq<u8> {
    with_bits_set(
        with_bits_set(
            with_bits_set(with_bits_set(regs, MINUTE_ALARM as int, AE), HOUR_ALARM as int, AE),
            DAY_ALARM as int,
            AE,
        ),
        WEEKDAY_ALARM as int,
        AE,
    )
}

} // verus!
