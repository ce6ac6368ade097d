use pcf8563::{ClkoutFreq, Control, Error, InterruptOutput, RegisterStore, TimerFreq, PCF8563};

#[test]
fn timer_value_round_trip() {
    let mut rtc = PCF8563::new(RegisterStore::new());
    rtc.set_timer(30).unwrap();
    assert_eq!(rtc.get_timer().unwrap(), 30);
    // the timer value register holds the raw count, not BCD
    assert_eq!(rtc.i2c.regs[0x0F], 30);
    rtc.set_timer(255).unwrap();
    assert_eq!(rtc.get_timer().unwrap(), 255);
}

#[test]
fn timer_frequency_keeps_enable_bit() {
    let mut rtc = PCF8563::new(RegisterStore::new());
    rtc.control_timer(Control::On).unwrap();
    assert!(rtc.is_timer_enabled().unwrap());
    rtc.set_timer_frequency(TimerFreq::Timer_1Hz).unwrap();
    assert_eq!(rtc.i2c.regs[0x0E], 0x80 | 0x02);
    assert!(rtc.is_timer_enabled().unwrap());
    rtc.set_timer_frequency(TimerFreq::Timer_4096Hz).unwrap();
    assert_eq!(rtc.i2c.regs[0x0E], 0x80);
    rtc.control_timer(Control::Off).unwrap();
    assert!(!rtc.is_timer_enabled().unwrap());
    rtc.set_timer_frequency(TimerFreq::Timer_64Hz).unwrap();
    assert_eq!(rtc.i2c.regs[0x0E], 0x01);
}

#[test]
fn timer_freq_bits_encoding() {
    assert_eq!(TimerFreq::Timer_4096Hz.bits(), 0b0000_0000);
    assert_eq!(TimerFreq::Timer_64Hz.bits(), 0b0000_0001);
    assert_eq!(TimerFreq::Timer_1Hz.bits(), 0b0000_0010);
    assert_eq!(TimerFreq::Timer_1_60Hz.bits(), 0b0000_0011);
}

#[test]
fn timer_interrupt_and_flag_control() {
    let mut rtc = PCF8563::new(RegisterStore::new());
    rtc.control_timer_interrupt(Control::On).unwrap();
    assert!(rtc.is_timer_interrupt_enabled().unwrap());
    assert_eq!(rtc.i2c.regs[0x01] & 0x01, 0x01);
    rtc.control_timer_interrupt(Control::Off).unwrap();
    assert!(!rtc.is_timer_interrupt_enabled().unwrap());

    rtc.timer_interrupt_output(InterruptOutput::Pulsating).unwrap();
    assert_eq!(rtc.i2c.regs[0x01] & 0x10, 0x10);
    rtc.timer_interrupt_output(InterruptOutput::Continuous).unwrap();
    assert_eq!(rtc.i2c.regs[0x01] & 0x10, 0);
}

#[test]
fn timer_flag_set_by_hand_then_cleared() {
    let mut rtc = PCF8563::new(RegisterStore::with_registers(vec![
        0, 0x04, 0, 0, 0, 0, 0, 0, 0, 0, 0, 0, 0, 0, 0, 0,
    ]));
    assert!(rtc.get_timer_flag().unwrap());
    rtc.clear_timer_flag().unwrap();
    assert!(!rtc.get_timer_flag().unwrap());
    assert_eq!(rtc.i2c.regs[0x01], 0);
}

#[test]
fn clkout_frequency_keeps_enable_bit() {
    let mut rtc = PCF8563::new(RegisterStore::new());
    rtc.control_clkout(Control::On).unwrap();
    assert_eq!(rtc.i2c.regs[0x0D], 0x80);
    rtc.set_clkout_frequency(ClkoutFreq::Clkout_1kHz).unwrap();
    assert_eq!(rtc.i2c.regs[0x0D], 0x80 | 0x01);
    rtc.control_clkout(Control::Off).unwrap();
    assert_eq!(rtc.i2c.regs[0x0D], 0x01);
    rtc.set_clkout_frequency(ClkoutFreq::Clkout_1Hz).unwrap();
    assert_eq!(rtc.i2c.regs[0x0D], 0x03);
}

#[test]
fn clkout_freq_bits_encoding() {
    assert_eq!(ClkoutFreq::Clkout_32kHz.bits(), 0b0000_0000);
    assert_eq!(ClkoutFreq::Clkout_1kHz.bits(), 0b0000_0001);
    assert_eq!(ClkoutFreq::Clkout_32Hz.bits(), 0b0000_0010);
    assert_eq!(ClkoutFreq::Clkout_1Hz.bits(), 0b0000_0011);
}

#[test]
fn clock_and_test_mode_controls() {
    let mut rtc = PCF8563::new(RegisterStore::new());
    // fresh register: STOP bit low, clock running
    assert!(rtc.is_clock_running().unwrap());
    rtc.control_clock(Control::Off).unwrap();
    assert_eq!(rtc.i2c.regs[0x00] & 0x20, 0x20);
    assert!(!rtc.is_clock_running().unwrap());
    rtc.control_clock(Control::On).unwrap();
    assert!(rtc.is_clock_running().unwrap());

    assert!(!rtc.is_ext_clk_mode_enabled().unwrap());
    rtc.control_ext_clk_test_mode(Control::On).unwrap();
    assert!(rtc.is_ext_clk_mode_enabled().unwrap());
    assert_eq!(rtc.i2c.regs[0x00] & 0x80, 0x80);
    rtc.control_ext_clk_test_mode(Control::Off).unwrap();
    assert!(!rtc.is_ext_clk_mode_enabled().unwrap());

    assert!(!rtc.is_power_on_reset_override_enabled().unwrap());
    rtc.control_power_on_reset_override(Control::On).unwrap();
    assert!(rtc.is_power_on_reset_override_enabled().unwrap());
    assert_eq!(rtc.i2c.regs[0x00] & 0x08, 0x08);
    rtc.control_power_on_reset_override(Control::Off).unwrap();
    assert!(!rtc.is_power_on_reset_override_enabled().unwrap());
}

#[test]
fn voltage_low_flag_query_and_clear() {
    let mut rtc = PCF8563::new(RegisterStore::with_registers(vec![
        0, 0, 0x80 | 0x30, 0, 0, 0, 0, 0, 0, 0, 0, 0, 0, 0, 0, 0,
    ]));
    assert!(rtc.get_voltage_low_flag().unwrap());
    rtc.clear_voltage_low_flag().unwrap();
    assert!(!rtc.get_voltage_low_flag().unwrap());
    // the seconds part of the register survives
    assert_eq!(rtc.i2c.regs[0x02], 0x30);
}

#[test]
fn rtc_init_writes_the_exact_register_sequence() {
    let mut rtc = PCF8563::new(RegisterStore::with_registers(vec![
        0x55, 0xAA, 0xB3, 0x00, 0x00, 0x00, 0x00, 0x00, 0x00, 0x12, 0x34, 0x56, 0x78, 0x0F, 0xFF,
        0x42,
    ]));
    rtc.rtc_init().unwrap();
    let store = rtc.destroy();
    // final register state
    assert_eq!(store.regs[0x00], 0x00); // control/status 1 zeroed
    assert_eq!(store.regs[0x01], 0x00); // control/status 2 zeroed
    assert_eq!(store.regs[0x02], 0x33); // voltage-low flag cleared
    assert_eq!(store.regs[0x09], 0x92); // minute alarm disabled
    assert_eq!(store.regs[0x0A], 0xB4); // hour alarm disabled
    assert_eq!(store.regs[0x0B], 0xD6); // day alarm disabled
    assert_eq!(store.regs[0x0C], 0xF8); // weekday alarm disabled
    assert_eq!(store.regs[0x0D], 0x0F); // clkout control untouched
    assert_eq!(store.regs[0x0E], 0x83); // timer at 1/60 Hz, TE bit kept
    assert_eq!(store.regs[0x0F], 0x42); // timer value untouched
    // exact sequence of write transactions
    let expected: Vec<Vec<u8>> = vec![
        vec![0x00, 0x00],
        vec![0x01, 0x00],
        vec![0x02, 0x33],
        vec![0x09, 0x92],
        vec![0x0A, 0xB4],
        vec![0x0B, 0xD6],
        vec![0x0C, 0xF8],
        vec![0x0E, 0x83],
    ];
    assert_eq!(store.writes, expected);
}

#[test]
fn rtc_init_skips_writes_that_would_change_nothing() {
    // voltage-low flag already clear and all alarms already disabled: the
    // read-modify-write steps find nothing to do
    let mut rtc = PCF8563::new(RegisterStore::with_registers(vec![
        0x00, 0x00, 0x00, 0, 0, 0, 0, 0, 0, 0x80, 0x80, 0x80, 0x80, 0, 0x00, 0,
    ]));
    rtc.rtc_init().unwrap();
    let store = rtc.destroy();
    let expected: Vec<Vec<u8>> = vec![
        vec![0x00, 0x00],
        vec![0x01, 0x00],
        vec![0x0E, 0x03],
    ];
    assert_eq!(store.writes, expected);
}

struct BrokenBus;

impl pcf8563::Bus for BrokenBus {
    type Fault = u8;

    fn write(&mut self, _addr: u8, _bytes: &[u8]) -> Result<(), u8> {
        Err(7)
    }

    fn write_read(&mut self, _addr: u8, _reg: u8, _n: usize) -> Result<Vec<u8>, u8> {
        Err(9)
    }
}

#[test]
fn bus_faults_surface_as_i2c_errors() {
    let mut rtc = PCF8563::new(BrokenBus);
    assert_eq!(rtc.set_timer(5), Err(Error::I2C(7)));
    assert_eq!(rtc.get_timer(), Err(Error::I2C(9)));
    assert_eq!(rtc.get_datetime(), Err(Error::I2C(9)));
    assert_eq!(rtc.set_century_flag(1), Err(Error::I2C(9)));
}
