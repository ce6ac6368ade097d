//! Control functions that are not specifically datetime-, timer-, alarm- or
//! clock-output-related: clock start/stop, test modes, the voltage-low flag,
//! and the one-call initialization sequence.

use vstd::prelude::*;

use crate::alarm::alarms_disabled;
use crate::bus::Bus;
use crate::timer::{timer_freq_bits, TimerFreq};
use crate::{
    with_bits_clear, with_bits_set, Control, Error, PCF8563, AE, CTRL_STATUS_1, CTRL_STATUS_2,
    STOP, TE, TEST1, TESTC, TIMER_CTRL, VL, VL_SECONDS,
};

verus! {

/// The register file after the initialization sequence: both control/status
/// registers zeroed, the voltage-low flag cleared, every alarm component
/// disabled, and the timer frequency set to its lowest (power-saving)
/// setting, in that order.
pub open spec fn rtc_initialized(regs: Seq<u8>) -> Seq<u8> {
    let cleared = regs.update(CTRL_STATUS_1 as int, 0u8).update(CTRL_STATUS_2 as int, 0u8);
    let no_vl = with_bits_clear(cleared, VL_SECONDS as int, VL);
    let no_alarms = alarms_disabled(no_vl);
    no_alarms.update(
        TIMER_CTRL as int,
        (no_alarms[TIMER_CTRL as int] & TE) | timer_freq_bits(TimerFreq::Timer_1_60Hz),
    )
}

/// What initialization leaves in each register: the control/status registers
/// are zero, the voltage-low flag is low, the four alarm disable bits are
/// high, the timer frequency bits select 1/60 Hz, and every other register
/// keeps its value.
pub proof fn lemma_rtc_initialized(regs: Seq<u8>)
    requires
        regs.len() == 16,
    ensures
        rtc_initialized(regs).len() == 16,
        rtc_initialized(regs)[0] == 0,
        rtc_initialized(regs)[1] == 0,
        rtc_initialized(regs)[2] == (regs[2] & !VL),
        forall|i: int| 9 <= i <= 12 ==> rtc_initialized(regs)[i] == (regs[i] | AE),
        rtc_initialized(regs)[14] == ((regs[14] & TE) | 0x03),
        forall|i: int|
            0 <= i < 16 && i != 0 && i != 1 && i != 2 && !(9 <= i <= 12) && i != 14
                ==> rtc_initialized(regs)[i] == regs[i],
{
}

impl<I2C: Bus> PCF8563<I2C> {
    /// Enable or disable external clock test mode.
    pub fn control_ext_clk_test_mode(&mut self, flag: Control) -> (r: Result<
        (),
        Error<I2C::Fault>,
    >)
        requires
            old(self).inv(),
        ensures
            final(self).inv(),
            old(self).nwrites() <= final(self).nwrites() <= old(self).nwrites() + 1,
            r is Ok && flag is On ==> final(self).regs() == with_bits_set(
                old(self).regs(),
                CTRL_STATUS_1 as int,
                TEST1,
            ),
            r is Ok && flag is Off ==> final(self).regs() == with_bits_clear(
                old(self).regs(),
                CTRL_STATUS_1 as int,
                TEST1,
            ),
            r matches Err(e) ==> e is I2C,
    {
        match flag {
            Control::On => self.set_register_bit_flag(CTRL_STATUS_1, TEST1),
            Control::Off => self.clear_register_bit_flag(CTRL_STATUS_1, TEST1),
        }
    }

    /// Is the external clock test mode enabled?
    pub fn is_ext_clk_mode_enabled(&mut self) -> (r: Result<bool, Error<I2C::Fault>>)
        requires
            old(self).inv(),
        ensures
            final(self).inv(),
            final(self).regs() == old(self).regs(),
            final(self).nwrites() == old(self).nwrites(),
            r matches Ok(b) ==> b == ((old(self).regs()[CTRL_STATUS_1 as int] & TEST1) != 0),
            r matches Err(e) ==> e is I2C,
    {
        self.is_register_bit_flag_high(CTRL_STATUS_1, TEST1)
    }

    /// Start or stop the internal clock. The hardware bit is a *stop* bit,
    /// so starting the clock clears it and stopping sets it.
    pub fn control_clock(&mut self, flag: Control) -> (r: Result<(), Error<I2C::Fault>>)
        requires
            old(self).inv(),
        ensures
            final(self).inv(),
            old(self).nwrites() <= final(self).nwrites() <= old(self).nwrites() + 1,
            r is Ok && flag is On ==> final(self).regs() == with_bits_clear(
                old(self).regs(),
                CTRL_STATUS_1 as int,
                STOP,
            ),
            r is Ok && flag is Off ==> final(self).regs() == with_bits_set(
                old(self).regs(),
                CTRL_STATUS_1 as int,
                STOP,
            ),
            r matches Err(e) ==> e is I2C,
    {
        match flag {
            Control::On => self.clear_register_bit_flag(CTRL_STATUS_1, STOP),
            Control::Off => self.set_register_bit_flag(CTRL_STATUS_1, STOP),
        }
    }

    /// Check if the internal clock is running: the inversion of the STOP
    /// bit.
    pub fn is_clock_running(&mut self) -> (r: Result<bool, Error<I2C::Fault>>)
        requires
            old(self).inv(),
        ensures
            final(self).inv(),
            final(self).regs() == old(self).regs(),
            final(self).nwrites() == old(self).nwrites(),
            r matches Ok(b) ==> b == ((old(self).regs()[CTRL_STATUS_1 as int] & STOP) == 0),
            r matches Err(e) ==> e is I2C,
    {
        let flag = self.is_register_bit_flag_high(CTRL_STATUS_1, STOP)?;
        let flag = flag ^ true;
        Ok(flag)
    }

    /// Enable or disable power-on-reset override facility.
    pub fn control_power_on_reset_override(&mut self, flag: Control) -> (r: Result<
        (),
        Error<I2C::Fault>,
    >)
        requires
            old(self).inv(),
        ensures
            final(self).inv(),
            old(self).nwrites() <= final(self).nwrites() <= old(self).nwrites() + 1,
            r is Ok && flag is On ==> final(self).regs() == with_bits_set(
                old(self).regs(),
                CTRL_STATUS_1 as int,
                TESTC,
            ),
            r is Ok && flag is Off ==> final(self).regs() == with_bits_clear(
                old(self).regs(),
                CTRL_STATUS_1 as int,
                TESTC,
            ),
            r matches Err(e) ==> e is I2C,
    {
        match flag {
            Control::On => self.set_register_bit_flag(CTRL_STATUS_1, TESTC),
            Control::Off => self.clear_register_bit_flag(CTRL_STATUS_1, TESTC),
        }
    }

    /// Check if power-on-reset override facility is enabled.
    pub fn is_power_on_reset_override_enabled(&mut self) -> (r: Result<bool, Error<I2C::Fault>>)
        requires
            old(self).inv(),
        ensures
            final(self).inv(),
            final(self).regs() == old(self).regs(),
            final(self).nwrites() == old(self).nwrites(),
            r matches Ok(b) ==> b == ((old(self).regs()[CTRL_STATUS_1 as int] & TESTC) != 0),
            r matches Err(e) ==> e is I2C,
    {
        self.is_register_bit_flag_high(CTRL_STATUS_1, TESTC)
    }

    /// Check the status of the voltage-low detector flag.
    pub fn get_voltage_low_flag(&mut self) -> (r: Result<bool, Error<I2C::Fault>>)
        requires
            old(self).inv(),
        ensures
            final(self).inv(),
            final(self).regs() == old(self).regs(),
            final(self).nwrites() == old(self).nwrites(),
            r matches Ok(b) ==> b == ((old(self).regs()[VL_SECONDS as int] & VL) != 0),
            r matches Err(e) ==> e is I2C,
    {
        self.is_register_bit_flag_high(VL_SECONDS, VL)
    }

    /// Clear the voltage-low detector flag.
    pub fn clear_voltage_low_flag(&mut self) -> (r: Result<(), Error<I2C::Fault>>)
        requires
            old(self).inv(),
        ensures
            final(self).inv(),
            old(self).nwrites() <= final(self).nwrites() <= old(self).nwrites() + 1,
            r is Ok ==> final(self).regs() == with_bits_clear(
                old(self).regs(),
                VL_SECONDS as int,
                VL,
            ),
            r matches Err(e) ==> e is I2C,
    {
        self.clear_register_bit_flag(VL_SECONDS, VL)
    }

    /// Initialize the RTC: zero both control/status registers, clear the
    /// voltage-low flag, disable every alarm component, and set the timer to
    /// its lowest frequency for power saving.
    pub fn rtc_init(&mut self) -> (r: Result<(), Error<I2C::Fault>>)
        requires
            old(self).inv(),
        ensures
            final(self).inv(),
            old(self).nwrites() <= final(self).nwrites() <= old(self).nwrites() + 8,
            r is Ok ==> final(self).regs() == rtc_initialized(old(self).regs()),
            r matches Err(e) ==> e is I2C,
    {
        self.write_register(CTRL_STATUS_1, 0)?;  // clear all the control bits
        self.write_register(CTRL_STATUS_2, 0)?;
        self.clear_voltage_low_flag()?;  // clear the low voltage flag
        self.disable_all_alarms()?;  // disable alarm for all the components
        self.set_timer_frequency(TimerFreq::Timer_1_60Hz)?;  // set the lowest frequency
        Ok(())
    }
}

} // verus!
