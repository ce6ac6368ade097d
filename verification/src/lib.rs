//! Driver for the NXP PCF8563 real-time clock.
//!
//! The chip is a calendar/clock with alarm, countdown timer and programmable
//! clock output, addressed over a two-wire serial bus. Every value it stores
//! lives in one of sixteen byte-wide registers, encoded as packed
//! binary-coded decimal. This crate provides the register-access protocol:
//! the BCD codec, the read-modify-write bit-flag primitives, the atomic
//! seven-register date-time transfer, and the per-feature setters built from
//! those primitives.
//!
//! The bus itself is abstracted by the [`Bus`] trait: the driver is generic
//! over any blocking transport that can write a run of bytes to the device
//! and read a run of registers back. [`RegisterStore`] is an in-memory
//! implementation of that trait, which models the chip's register file and
//! lets every operation run without hardware.

use vstd::prelude::*;

mod alarm;
mod bus;
mod clkout;
mod control;
mod datetime;
mod timer;

pub use alarm::{alarms_disabled, component_enabled, lemma_enable_inversion};
pub use bus::{burst_written, Bus, NoFault, RegisterStore};
pub use clkout::{clkout_freq_bits, ClkoutFreq};
pub use control::{lemma_rtc_initialized, rtc_initialized};
pub use datetime::{
    datetime_of_regs, datetime_valid, datetime_written, lemma_datetime_round_trip, time_valid,
    time_written, DateTime, Time,
};
pub use timer::{timer_freq_bits, InterruptOutput, TimerFreq};

verus! {

/// The chip's fixed seven-bit bus address; it is not configurable.
pub const DEVICE_ADDRESS: u8 = 0x51;

// Register addresses. The chip has sixteen byte-wide registers; the register
// pointer auto-increments after each byte written or read.
/// First control/status register.
pub const CTRL_STATUS_1: u8 = 0x00;
/// Second control/status register (interrupt and flag bits).
pub const CTRL_STATUS_2: u8 = 0x01;
/// Seconds register, overloaded with the voltage-low flag in bit 7.
pub const VL_SECONDS: u8 = 0x02;
/// Months register, overloaded with the century flag in bit 7.
pub const CENTURY_MONTHS: u8 = 0x07;
/// Minute alarm register.
pub const MINUTE_ALARM: u8 = 0x09;
/// Hour alarm register.
pub const HOUR_ALARM: u8 = 0x0A;
/// Day alarm register.
pub const DAY_ALARM: u8 = 0x0B;
/// Weekday alarm register.
pub const WEEKDAY_ALARM: u8 = 0x0C;
/// Clock output control register.
pub const CLKOUT_CTRL: u8 = 0x0D;
/// Timer control register.
pub const TIMER_CTRL: u8 = 0x0E;
/// Timer value register.
pub const TIMER: u8 = 0x0F;

// Bit masks within the registers above.
/// External clock test mode bit in `CTRL_STATUS_1`.
pub const TEST1: u8 = 0b1000_0000;
/// Clock stop bit in `CTRL_STATUS_1`.
pub const STOP: u8 = 0b0010_0000;
/// Power-on-reset override bit in `CTRL_STATUS_1`.
pub const TESTC: u8 = 0b0000_1000;
/// Timer interrupt pulse mode bit in `CTRL_STATUS_2`.
pub const TI_TP: u8 = 0b0001_0000;
/// Alarm flag in `CTRL_STATUS_2`.
pub const AF: u8 = 0b0000_1000;
/// Timer flag in `CTRL_STATUS_2`.
pub const TF: u8 = 0b0000_0100;
/// Alarm interrupt enable bit in `CTRL_STATUS_2`.
pub const AIE: u8 = 0b0000_0010;
/// Timer interrupt enable bit in `CTRL_STATUS_2`.
pub const TIE: u8 = 0b0000_0001;
/// Alarm *disable* bit, present in all four alarm registers.
pub const AE: u8 = 0b1000_0000;
/// Timer enable bit in `TIMER_CTRL`.
pub const TE: u8 = 0b1000_0000;
/// Clock output enable bit in `CLKOUT_CTRL`.
pub const FE: u8 = 0b1000_0000;
/// Voltage-low detector flag in `VL_SECONDS`.
pub const VL: u8 = 0b1000_0000;
/// Century flag in `CENTURY_MONTHS`.
pub const CENTURY: u8 = 0b1000_0000;

/// All possible errors of a driver operation.
#[derive(Debug, Copy, Clone, Eq, PartialEq)]
pub enum Error<E> {
    /// A bus transaction failed; the transport's error, verbatim. The
    /// affected register range must be treated as unknown.
    I2C(E),
    /// A caller-supplied field was outside its valid range; the bus was not
    /// touched.
    InvalidInputData,
}

/// Two possible choices, used for various enable/disable bit flags.
#[derive(Copy, Clone, Debug)]
pub enum Control {
    /// Enable some feature, eg. timer.
    On,
    /// Disable some feature, eg. timer.
    Off,
}

/// A register file with the masked bits of one register forced high.
pub open spec fn with_bits_set(regs: Seq<u8>, addr: int, mask: u8) -> Seq<u8> {
    regs.update(addr, regs[addr] | mask)
}

/// A register file with the masked bits of one register forced low.
pub open spec fn with_bits_clear(regs: Seq<u8>, addr: int, mask: u8) -> Seq<u8> {
    regs.update(addr, regs[addr] & !mask)
}

/// Setting bits twice is the same as setting them once: the second call
/// finds the masked bits already high and changes nothing.
pub proof fn lemma_set_bits_idempotent(regs: Seq<u8>, addr: int, mask: u8)
    requires
        0 <= addr < regs.len(),
    ensures
        with_bits_set(with_bits_set(regs, addr, mask), addr, mask) == with_bits_set(
            regs,
            addr,
            mask,
        ),
{
    let v = regs[addr];
    assert((v | mask) | mask == v | mask) by (bit_vector);
    assert(with_bits_set(with_bits_set(regs, addr, mask), addr, mask) =~= with_bits_set(
        regs,
        addr,
        mask,
    ));
}

/// Clearing bits twice is the same as clearing them once: the second call
/// finds the masked bits already low and changes nothing.
pub proof fn lemma_clear_bits_idempotent(regs: Seq<u8>, addr: int, mask: u8)
    requires
        0 <= addr < regs.len(),
    ensures
        with_bits_clear(with_bits_clear(regs, addr, mask), addr, mask) == with_bits_clear(
            regs,
            addr,
            mask,
        ),
{
    let v = regs[addr];
    assert((v & !mask) & !mask == v & !mask) by (bit_vector);
    assert(with_bits_clear(with_bits_clear(regs, addr, mask), addr, mask) =~= with_bits_clear(
        regs,
        addr,
        mask,
    ));
}

/// PCF8563 driver: owns the bus connection exclusively; no other state.
#[derive(Debug, Default)]
pub struct PCF8563<I2C> {
    /// The concrete bus transport.
    pub i2c: I2C,
}

impl<I2C: Bus> PCF8563<I2C> {
    /// The chip's register file as seen through the owned transport.
    pub open spec fn regs(&self) -> Seq<u8> {
        self.i2c.regs()
    }

    /// How many write transactions this driver's transport has issued.
    pub open spec fn nwrites(&self) -> nat {
        self.i2c.nwrites()
    }

    /// The transport presents the chip's sixteen registers.
    pub open spec fn inv(&self) -> bool {
        self.i2c.regs().len() == 16
    }

    /// Create a new instance of the PCF8563 driver.
    pub fn new(i2c: I2C) -> (r: Self)
        ensures
            r.i2c == i2c,
    {
        PCF8563 { i2c }
    }

    /// Destroy driver instance, return the bus transport.
    pub fn destroy(self) -> (r: I2C)
        ensures
            r == self.i2c,
    {
        self.i2c
    }

    /// Write one byte to a register.
    pub fn write_register(&mut self, register: u8, data: u8) -> (r: Result<
        (),
        Error<I2C::Fault>,
    >)
        requires
            old(self).inv(),
            register < 16,
        ensures
            final(self).inv(),
            old(self).nwrites() <= final(self).nwrites() <= old(self).nwrites() + 1,
            r is Ok ==> final(self).nwrites() == old(self).nwrites() + 1,
            r is Ok ==> final(self).regs() == old(self).regs().update(register as int, data),
            r matches Err(e) ==> e is I2C,
    {
        let mut payload: Vec<u8> = Vec::new();
        payload.push(register);
        payload.push(data);
        match self.i2c.write(DEVICE_ADDRESS, payload.as_slice()) {
            Ok(()) => {
                proof {
                    assert(burst_written(old(self).regs(), payload@) =~= old(self).regs().update(
                        register as int,
                        data,
                    ));
                }
                Ok(())
            },
            Err(e) => Err(Error::I2C(e)),
        }
    }

    /// Read one byte from a register.
    pub fn read_register(&mut self, register: u8) -> (r: Result<u8, Error<I2C::Fault>>)
        requires
            old(self).inv(),
            register < 16,
        ensures
            final(self).inv(),
            final(self).regs() == old(self).regs(),
            final(self).nwrites() == old(self).nwrites(),
            r matches Ok(b) ==> b == old(self).regs()[register as int],
            r matches Err(e) ==> e is I2C,
    {
        match self.i2c.write_read(DEVICE_ADDRESS, register, 1) {
            Ok(data) => Ok(data[0]),
            Err(e) => Err(Error::I2C(e)),
        }
    }

    /// Check if any of the masked bits of a register are set.
    pub fn is_register_bit_flag_high(&mut self, address: u8, bitmask: u8) -> (r: Result<
        bool,
        Error<I2C::Fault>,
    >)
        requires
            old(self).inv(),
            address < 16,
        ensures
            final(self).inv(),
            final(self).regs() == old(self).regs(),
            final(self).nwrites() == old(self).nwrites(),
            r matches Ok(b) ==> b == ((old(self).regs()[address as int] & bitmask) != 0),
            r matches Err(e) ==> e is I2C,
    {
        let data = self.read_register(address)?;
        Ok((data & bitmask) != 0)
    }

    /// Set the masked bits of a register. If they are all set already, the
    /// call is a no-op and performs no bus write.
    pub fn set_register_bit_flag(&mut self, address: u8, bitmask: u8) -> (r: Result<
        (),
        Error<I2C::Fault>,
    >)
        requires
            old(self).inv(),
            address < 16,
        ensures
            final(self).inv(),
            old(self).nwrites() <= final(self).nwrites() <= old(self).nwrites() + 1,
            r is Ok ==> final(self).regs() == with_bits_set(
                old(self).regs(),
                address as int,
                bitmask,
            ),
            old(self).regs()[address as int] & bitmask == bitmask ==> final(self).regs()
                == old(self).regs() && final(self).nwrites() == old(self).nwrites(),
            r is Ok && old(self).regs()[address as int] & bitmask != bitmask
                ==> final(self).nwrites() == old(self).nwrites() + 1,
            r matches Err(e) ==> e is I2C,
    {
        let data = self.read_register(address)?;
        if (data & bitmask) != bitmask {
            self.write_register(address, data | bitmask)
        } else {
            proof {
                let v = old(self).regs()[address as int];
                assert(v & bitmask == bitmask ==> (v | bitmask) == v) by (bit_vector);
                assert(with_bits_set(old(self).regs(), address as int, bitmask)
                    =~= old(self).regs());
            }
            Ok(())
        }
    }

    /// Clear the masked bits of a register. If none of them is set, the call
    /// is a no-op and performs no bus write.
    pub fn clear_register_bit_flag(&mut self, address: u8, bitmask: u8) -> (r: Result<
        (),
        Error<I2C::Fault>,
    >)
        requires
            old(self).inv(),
            address < 16,
        ensures
            final(self).inv(),
            old(self).nwrites() <= final(self).nwrites() <= old(self).nwrites() + 1,
            r is Ok ==> final(self).regs() == with_bits_clear(
                old(self).regs(),
                address as int,
                bitmask,
            ),
            old(self).regs()[address as int] & bitmask == 0 ==> final(self).regs()
                == old(self).regs() && final(self).nwrites() == old(self).nwrites(),
            r is Ok && old(self).regs()[address as int] & bitmask != 0
                ==> final(self).nwrites() == old(self).nwrites() + 1,
            r matches Err(e) ==> e is I2C,
    {
        let data = self.read_register(address)?;
        if (data & bitmask) != 0 {
            self.write_register(address, data & !bitmask)
        } else {
            proof {
                let v = old(self).regs()[address as int];
                assert(v & bitmask == 0 ==> (v & !bitmask) == v) by (bit_vector);
                assert(with_bits_clear(old(self).regs(), address as int, bitmask)
                    =~= old(self).regs());
            }
            Ok(())
        }
    }
}

/// Interpretation of a packed BCD byte: the low nibble is the ones digit and
/// bits 6:4 are the tens digit. Bit 7 is ignored; the chip overloads it with
/// flag bits (voltage-low, century, alarm-enable) on several registers.
pub open spec fn bcd_decode_spec(b: u8) -> u8 {
    (10 * ((b >> 4) & 0x7) + (b & 0xf)) as u8
}

/// The packed BCD byte for a two-digit decimal value: the tens digit in the
/// high nibble and the ones digit in the low nibble.
pub open spec fn bcd_encode_spec(n: u8) -> u8 {
    (((n / 10) << 4) + (n % 10)) as u8
}

/// Convert the Binary Coded Decimal value to decimal (only the lowest 7 bits).
pub fn decode_bcd(input: u8) -> (r: u8)
    ensures
        r == bcd_decode_spec(input),
{
    proof {
        assert((input >> 4) & 0x7 <= 7) by (bit_vector);
        assert(input & 0xf <= 15) by (bit_vector);
    }
    let digits: u8 = input & 0xf;
    let tens: u8 = (input >> 4) & 0x7;
    10 * tens + digits
}

/// Convert the decimal value to Binary Coded Decimal.
///
/// Defined only for values up to 99: two decimal digits are all that fits in
/// one packed byte.
pub fn encode_bcd(input: u8) -> (r: u8)
    requires
        input <= 99,
    ensures
        r == bcd_encode_spec(input),
{
    proof {
        assert(input <= 99 ==> ((input / 10) << 4) <= 144) by (bit_vector);
    }
    let digits: u8 = input % 10;
    let tens: u8 = input / 10;
    let tens: u8 = tens << 4;
    tens + digits
}

/// Decoding inverts encoding on every value a time field can hold: for any
/// two-digit value up to 59, the packed byte reads back as the same value.
pub proof fn lemma_bcd_decode_encode(n: u8)
    requires
        n <= 59,
    ensures
        bcd_decode_spec(bcd_encode_spec(n)) == n,
{
    assert(bcd_decode_spec(bcd_encode_spec(n)) == n) by (bit_vector)
        requires
            n <= 59,
    ;
}

/// Encoding inverts decoding on every well-formed BCD byte: if the tens
/// digit is at most 5 and the ones digit at most 9, decoding and re-encoding
/// reproduces the byte.
pub proof fn lemma_bcd_encode_decode(b: u8)
    requires
        (b >> 4) <= 5,
        (b & 0xf) <= 9,
    ensures
        bcd_encode_spec(bcd_decode_spec(b)) == b,
{
    assert(bcd_encode_spec(bcd_decode_spec(b)) == b) by (bit_vector)
        requires
            (b >> 4) <= 5 && (b & 0xf) <= 9,
    ;
}

} // verus!
