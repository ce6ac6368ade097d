//! Timer functions.
//!
//! The countdown timer counts down from a value up to 255 at one of four
//! clock frequencies. When the countdown ends the timer flag `TF` is set,
//! and the timer can drive the interrupt pin, continuously or pulsating.

use vstd::prelude::*;

use crate::bus::Bus;
use crate::{
    with_bits_clear, with_bits_set, Control, Error, PCF8563, CTRL_STATUS_2, TE, TF, TIE, TIMER,
    TIMER_CTRL, TI_TP,
};

verus! {

/// The four possible timer frequency settings.
#[allow(non_camel_case_types)]
#[derive(Copy, Clone, Debug, Eq, PartialEq, Structural)]
pub enum TimerFreq {
    /// 4096 Hz.
    Timer_4096Hz,
    /// 64 Hz.
    Timer_64Hz,
    /// 1 Hz.
    Timer_1Hz,
    /// 1/60 Hz - should be used when timer is off to limit energy usage.
    Timer_1_60Hz,
}

/// The two low control bits selecting a timer frequency.
pub open spec fn timer_freq_bits(f: TimerFreq) -> u8 {
    match f {
        TimerFreq::Timer_4096Hz => 0b0000_0000,
        TimerFreq::Timer_64Hz => 0b0000_0001,
        TimerFreq::Timer_1Hz => 0b0000_0010,
        TimerFreq::Timer_1_60Hz => 0b0000_0011,
    }
}

impl TimerFreq {
    /// Converts the TimerFreq to an unsigned 8-bit value.
    pub fn bits(self) -> (r: u8)
        ensures
            r == timer_freq_bits(self),
    {
        match self {
            TimerFreq::Timer_4096Hz => 0b0000_0000,
            TimerFreq::Timer_64Hz => 0b0000_0001,
            TimerFreq::Timer_1Hz => 0b0000_0010,
            TimerFreq::Timer_1_60Hz => 0b0000_0011,
        }
    }
}

/// The two possible timer interrupt output modes.
#[allow(non_camel_case_types)]
#[derive(Copy, Clone, Debug)]
pub enum InterruptOutput {
    /// Active when TF active.
    Continuous,
    /// Pulsating according to the datasheet.
    Pulsating,
}

impl<I2C: Bus> PCF8563<I2C> {
    /// Set the timer [0-255].
    pub fn set_timer(&mut self, time: u8) -> (r: Result<(), Error<I2C::Fault>>)
        requires
            old(self).inv(),
        ensures
            final(self).inv(),
            old(self).nwrites() <= final(self).nwrites() <= old(self).nwrites() + 1,
            r is Ok ==> final(self).regs() == old(self).regs().update(TIMER as int, time)
                && final(self).nwrites() == old(self).nwrites() + 1,
            r matches Err(e) ==> e is I2C,
    {
        self.write_register(TIMER, time)
    }

    /// Set timer frequency (does not alter the timer enabled/disabled bit).
    pub fn set_timer_frequency(&mut self, frequency: TimerFreq) -> (r: Result<
        (),
        Error<I2C::Fault>,
    >)
        requires
            old(self).inv(),
        ensures
            final(self).inv(),
            old(self).nwrites() <= final(self).nwrites() <= old(self).nwrites() + 1,
            r is Ok ==> final(self).regs() == old(self).regs().update(
                TIMER_CTRL as int,
                (old(self).regs()[TIMER_CTRL as int] & TE) | timer_freq_bits(frequency),
            ) && final(self).nwrites() == old(self).nwrites() + 1,
            r matches Err(e) ==> e is I2C,
    {
        let data = self.read_register(TIMER_CTRL)?;  // read current value
        let data = data & TE;  // keep the TE bit as is
        let data = data | frequency.bits();  // set the lowest two bits
        self.write_register(TIMER_CTRL, data)
    }

    /// Start or stop the timer.
    pub fn control_timer(&mut self, flag: Control) -> (r: Result<(), Error<I2C::Fault>>)
        requires
            old(self).inv(),
        ensures
            final(self).inv(),
            old(self).nwrites() <= final(self).nwrites() <= old(self).nwrites() + 1,
            r is Ok && flag is On ==> final(self).regs() == with_bits_set(
                old(self).regs(),
                TIMER_CTRL as int,
                TE,
            ),
            r is Ok && flag is Off ==> final(self).regs() == with_bits_clear(
                old(self).regs(),
                TIMER_CTRL as int,
                TE,
            ),
            r matches Err(e) ==> e is I2C,
    {
        match flag {
            Control::On => self.set_register_bit_flag(TIMER_CTRL, TE),
            Control::Off => self.clear_register_bit_flag(TIMER_CTRL, TE),
        }
    }

    /// Is timer enabled?
    pub fn is_timer_enabled(&mut self) -> (r: Result<bool, Error<I2C::Fault>>)
        requires
            old(self).inv(),
        ensures
            final(self).inv(),
            final(self).regs() == old(self).regs(),
            final(self).nwrites() == old(self).nwrites(),
            r matches Ok(b) ==> b == ((old(self).regs()[TIMER_CTRL as int] & TE) != 0),
            r matches Err(e) ==> e is I2C,
    {
        self.is_register_bit_flag_high(TIMER_CTRL, TE)
    }

    /// Control timer interrupt.
    pub fn control_timer_interrupt(&mut self, flag: Control) -> (r: Result<
        (),
        Error<I2C::Fault>,
    >)
        requires
            old(self).inv(),
        ensures
            final(self).inv(),
            old(self).nwrites() <= final(self).nwrites() <= old(self).nwrites() + 1,
            r is Ok && flag is On ==> final(self).regs() == with_bits_set(
                old(self).regs(),
                CTRL_STATUS_2 as int,
                TIE,
            ),
            r is Ok && flag is Off ==> final(self).regs() == with_bits_clear(
                old(self).regs(),
                CTRL_STATUS_2 as int,
                TIE,
            ),
            r matches Err(e) ==> e is I2C,
    {
        match flag {
            Control::On => self.set_register_bit_flag(CTRL_STATUS_2, TIE),
            Control::Off => self.clear_register_bit_flag(CTRL_STATUS_2, TIE),
        }
    }

    /// Is timer interrupt enabled?
    pub fn is_timer_interrupt_enabled(&mut self) -> (r: Result<bool, Error<I2C::Fault>>)
        requires
            old(self).inv(),
        ensures
            final(self).inv(),
            final(self).regs() == old(self).regs(),
            final(self).nwrites() == old(self).nwrites(),
            r matches Ok(b) ==> b == ((old(self).regs()[CTRL_STATUS_2 as int] & TIE) != 0),
            r matches Err(e) ==> e is I2C,
    {
        self.is_register_bit_flag_high(CTRL_STATUS_2, TIE)
    }

    /// Clear timer flag.
    pub fn clear_timer_flag(&mut self) -> (r: Result<(), Error<I2C::Fault>>)
        requires
            old(self).inv(),
        ensures
            final(self).inv(),
            old(self).nwrites() <= final(self).nwrites() <= old(self).nwrites() + 1,
            r is Ok ==> final(self).regs() == with_bits_clear(
                old(self).regs(),
                CTRL_STATUS_2 as int,
                TF,
            ),
            r matches Err(e) ==> e is I2C,
    {
        self.clear_register_bit_flag(CTRL_STATUS_2, TF)
    }

    /// Get the timer flag (if true, timer was triggered).
    pub fn get_timer_flag(&mut self) -> (r: Result<bool, Error<I2C::Fault>>)
        requires
            old(self).inv(),
        ensures
            final(self).inv(),
            final(self).regs() == old(self).regs(),
            final(self).nwrites() == old(self).nwrites(),
            r matches Ok(b) ==> b == ((old(self).regs()[CTRL_STATUS_2 as int] & TF) != 0),
            r matches Err(e) ==> e is I2C,
    {
        self.is_register_bit_flag_high(CTRL_STATUS_2, TF)
    }

    /// Interrupt output when TF is active (continuous or pulsating).
    pub fn timer_interrupt_output(&mut self, output: InterruptOutput) -> (r: Result<
        (),
        Error<I2C::Fault>,
    >)
        requires
            old(self).inv(),
        ensures
            final(self).inv(),
            old(self).nwrites() <= final(self).nwrites() <= old(self).nwrites() + 1,
            r is Ok && output is Pulsating ==> final(self).regs() == with_bits_set(
                old(self).regs(),
                CTRL_STATUS_2 as int,
                TI_TP,
            ),
            r is Ok && output is Continuous ==> final(self).regs() == with_bits_clear(
                old(self).regs(),
                CTRL_STATUS_2 as int,
                TI_TP,
            ),
            r matches Err(e) ==> e is I2C,
    {
        match output {
            InterruptOutput::Continuous => self.clear_register_bit_flag(CTRL_STATUS_2, TI_TP),
            InterruptOutput::Pulsating => self.set_register_bit_flag(CTRL_STATUS_2, TI_TP),
        }
    }

    /// Read the current timer value.
    pub fn get_timer(&mut self) -> (r: Result<u8, Error<I2C::Fault>>)
        requires
            old(self).inv(),
        ensures
            final(self).inv(),
            final(self).regs() == old(self).regs(),
            final(self).nwrites() == old(self).nwrites(),
            r matches Ok(v) ==> v == old(self).regs()[TIMER as int],
            r matches Err(e) ==> e is I2C,
    {
        self.read_register(TIMER)
    }
}

} // verus!
