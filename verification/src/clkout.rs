//! Clock output functions.
//!
//! The clock output is a square wave with 50% duty cycle on a dedicated
//! open-drain pin. It can be enabled or disabled, and its frequency chosen
//! from four settings; on reset it is enabled at 32768 Hz.

use vstd::prelude::*;

use crate::bus::Bus;
use crate::{with_bits_clear, with_bits_set, Control, Error, PCF8563, CLKOUT_CTRL, FE};

verus! {

/// The four possible clock output frequency settings.
#[allow(non_camel_case_types)]
#[derive(Copy, Clone, Debug, Eq, PartialEq, Structural)]
pub enum ClkoutFreq {
    /// 32768 Hz.
    Clkout_32kHz,
    /// 1024 Hz.
    Clkout_1kHz,
    /// 32 Hz.
    Clkout_32Hz,
    /// 1 Hz.
    Clkout_1Hz,
}

/// The two low control bits selecting a clock output frequency.
pub open spec fn clkout_freq_bits(f: ClkoutFreq) -> u8 {
    match f {
        ClkoutFreq::Clkout_32kHz => 0b0000_0000,
        ClkoutFreq::Clkout_1kHz => 0b0000_0001,
        ClkoutFreq::Clkout_32Hz => 0b0000_0010,
        ClkoutFreq::Clkout_1Hz => 0b0000_0011,
    }
}

impl ClkoutFreq {
    /// Converts the ClkoutFreq to an unsigned 8-bit value.
    pub fn bits(self) -> (r: u8)
        ensures
            r == clkout_freq_bits(self),
    {
        match self {
            ClkoutFreq::Clkout_32kHz => 0b0000_0000,
            ClkoutFreq::Clkout_1kHz => 0b0000_0001,
            ClkoutFreq::Clkout_32Hz => 0b0000_0010,
            ClkoutFreq::Clkout_1Hz => 0b0000_0011,
        }
    }
}

impl<I2C: Bus> PCF8563<I2C> {
    /// Set clock output frequency (does not alter the clkout
    /// enabled/disabled bit).
    pub fn set_clkout_frequency(&mut self, frequency: ClkoutFreq) -> (r: Result<
        (),
        Error<I2C::Fault>,
    >)
        requires
            old(self).inv(),
        ensures
            final(self).inv(),
            old(self).nwrites() <= final(self).nwrites() <= old(self).nwrites() + 1,
            r is Ok ==> final(self).regs() == old(self).regs().update(
                CLKOUT_CTRL as int,
                (old(self).regs()[CLKOUT_CTRL as int] & FE) | clkout_freq_bits(frequency),
            ) && final(self).nwrites() == old(self).nwrites() + 1,
            r matches Err(e) ==> e is I2C,
    {
        let data = self.read_register(CLKOUT_CTRL)?;  // read current value
        let data = data & FE;  // keep the FE bit as is
        let data = data | frequency.bits();  // set the lowest two bits
        self.write_register(CLKOUT_CTRL, data)
    }

    /// Enable or disable clock output. The FE bit is a true enable bit: no
    /// inversion here.
    pub fn control_clkout(&mut self, status: Control) -> (r: Result<(), Error<I2C::Fault>>)
        requires
            old(self).inv(),
        ensures
            final(self).inv(),
            old(self).nwrites() <= final(self).nwrites() <= old(self).nwrites() + 1,
            r is Ok && status is On ==> final(self).regs() == with_bits_set(
                old(self).regs(),
                CLKOUT_CTRL as int,
                FE,
            ),
            r is Ok && status is Off ==> final(self).regs() == with_bits_clear(
                old(self).regs(),
                CLKOUT_CTRL as int,
                FE,
            ),
            r matches Err(e) ==> e is I2C,
    {
        match status {
            Control::On => self.set_register_bit_flag(CLKOUT_CTRL, FE),
            Control::Off => self.clear_register_bit_flag(CLKOUT_CTRL, FE),
        }
    }
}

} // verus!
