use pcf8563::{Control, DateTime, Error, RegisterStore, Time, PCF8563};

fn store_with(regs: [u8; 16]) -> RegisterStore {
    RegisterStore::with_registers(regs.to_vec())
}

#[test]
fn datetime_round_trip_through_register_store() {
    let mut rtc = PCF8563::new(RegisterStore::new());
    let now = DateTime {
        year: 21,
        month: 4,
        weekday: 0,
        day: 4,
        hours: 7,
        minutes: 15,
        seconds: 0,
    };
    rtc.set_datetime(&now).unwrap();
    assert_eq!(now, rtc.get_datetime().unwrap());
}

#[test]
fn datetime_round_trip_at_field_maxima() {
    let mut rtc = PCF8563::new(RegisterStore::new());
    let dt = DateTime {
        year: 79,
        month: 12,
        weekday: 6,
        day: 31,
        hours: 23,
        minutes: 59,
        seconds: 59,
    };
    rtc.set_datetime(&dt).unwrap();
    assert_eq!(dt, rtc.get_datetime().unwrap());
}

#[test]
fn set_datetime_writes_bcd_registers() {
    let mut rtc = PCF8563::new(RegisterStore::new());
    let dt = DateTime {
        year: 45,
        month: 12,
        weekday: 3,
        day: 31,
        hours: 23,
        minutes: 59,
        seconds: 8,
    };
    rtc.set_datetime(&dt).unwrap();
    let store = rtc.destroy();
    assert_eq!(store.regs[2], 0x08); // seconds
    assert_eq!(store.regs[3], 0x59); // minutes
    assert_eq!(store.regs[4], 0x23); // hours
    assert_eq!(store.regs[5], 0x31); // day
    assert_eq!(store.regs[6], 0x03); // weekday
    assert_eq!(store.regs[7], 0x12); // month, century bit zero
    assert_eq!(store.regs[8], 0x45); // year
    assert_eq!(store.writes.len(), 1);
    assert_eq!(
        store.writes[0],
        vec![0x02, 0x08, 0x59, 0x23, 0x31, 0x03, 0x12, 0x45]
    );
}

#[test]
fn set_datetime_out_of_range_fails_without_bus_traffic() {
    let mut rtc = PCF8563::new(RegisterStore::new());
    let mut dt = DateTime {
        year: 21,
        month: 13, // out of range
        weekday: 0,
        day: 4,
        hours: 7,
        minutes: 15,
        seconds: 0,
    };
    assert_eq!(rtc.set_datetime(&dt), Err(Error::InvalidInputData));
    dt.month = 12;
    dt.day = 32;
    assert_eq!(rtc.set_datetime(&dt), Err(Error::InvalidInputData));
    dt.day = 0;
    assert_eq!(rtc.set_datetime(&dt), Err(Error::InvalidInputData));
    dt.day = 4;
    dt.year = 100;
    assert_eq!(rtc.set_datetime(&dt), Err(Error::InvalidInputData));
    dt.year = 21;
    dt.weekday = 7;
    assert_eq!(rtc.set_datetime(&dt), Err(Error::InvalidInputData));
    dt.weekday = 0;
    dt.hours = 24;
    assert_eq!(rtc.set_datetime(&dt), Err(Error::InvalidInputData));
    dt.hours = 7;
    dt.minutes = 60;
    assert_eq!(rtc.set_datetime(&dt), Err(Error::InvalidInputData));
    dt.minutes = 15;
    dt.seconds = 60;
    assert_eq!(rtc.set_datetime(&dt), Err(Error::InvalidInputData));
    let store = rtc.destroy();
    assert_eq!(store.writes.len(), 0); // zero bus transactions
}

#[test]
fn get_datetime_masks_overloaded_flag_bits() {
    // Voltage-low flag on seconds, century flag on months, and the unused
    // high bits of the other fields must not leak into the decoded value.
    let mut rtc = PCF8563::new(store_with([
        0x00, 0x00, 0x80 | 0x30, 0x59, 0x23, 0x31, 0x06, 0x80 | 0x12, 0x45, 0, 0, 0, 0, 0, 0, 0,
    ]));
    let dt = rtc.get_datetime().unwrap();
    assert_eq!(dt.seconds, 30);
    assert_eq!(dt.minutes, 59);
    assert_eq!(dt.hours, 23);
    assert_eq!(dt.day, 31);
    assert_eq!(dt.weekday, 6);
    assert_eq!(dt.month, 12);
    assert_eq!(dt.year, 45);
    // reading changed nothing and issued no write transaction
    let store = rtc.destroy();
    assert_eq!(store.writes.len(), 0);
    assert_eq!(store.regs[2], 0x80 | 0x30);
}

#[test]
fn set_time_leaves_calendar_registers_untouched() {
    let mut rtc = PCF8563::new(store_with([
        0, 0, 0, 0, 0, 0x31, 0x06, 0x12, 0x45, 0, 0, 0, 0, 0, 0, 0,
    ]));
    let t = Time {
        hours: 7,
        minutes: 15,
        seconds: 30,
    };
    rtc.set_time(&t).unwrap();
    let store = rtc.destroy();
    assert_eq!(store.regs[2], 0x30);
    assert_eq!(store.regs[3], 0x15);
    assert_eq!(store.regs[4], 0x07);
    // calendar registers physically untouched
    assert_eq!(store.regs[5], 0x31);
    assert_eq!(store.regs[6], 0x06);
    assert_eq!(store.regs[7], 0x12);
    assert_eq!(store.regs[8], 0x45);
    assert_eq!(store.writes.len(), 1);
    assert_eq!(store.writes[0], vec![0x02, 0x30, 0x15, 0x07]);
}

#[test]
fn set_time_out_of_range_fails_without_bus_traffic() {
    let mut rtc = PCF8563::new(RegisterStore::new());
    let t = Time {
        hours: 24,
        minutes: 0,
        seconds: 0,
    };
    assert_eq!(rtc.set_time(&t), Err(Error::InvalidInputData));
    assert_eq!(rtc.i2c.writes.len(), 0);
}

#[test]
fn set_bit_is_idempotent_and_skips_redundant_writes() {
    let mut rtc = PCF8563::new(RegisterStore::new());
    rtc.set_register_bit_flag(0x0E, 0x80).unwrap();
    let after_once = rtc.i2c.regs.clone();
    assert_eq!(rtc.i2c.writes.len(), 1);
    rtc.set_register_bit_flag(0x0E, 0x80).unwrap();
    // same register value as after one call, and no second write
    assert_eq!(rtc.i2c.regs, after_once);
    assert_eq!(rtc.i2c.writes.len(), 1);
}

#[test]
fn clear_bit_is_idempotent_and_skips_redundant_writes() {
    let mut rtc = PCF8563::new(store_with([
        0, 0, 0, 0, 0, 0, 0, 0, 0, 0, 0, 0, 0, 0, 0xFF, 0,
    ]));
    rtc.clear_register_bit_flag(0x0E, 0x80).unwrap();
    let after_once = rtc.i2c.regs.clone();
    assert_eq!(rtc.i2c.writes.len(), 1);
    assert_eq!(rtc.i2c.regs[0x0E], 0x7F);
    rtc.clear_register_bit_flag(0x0E, 0x80).unwrap();
    assert_eq!(rtc.i2c.regs, after_once);
    assert_eq!(rtc.i2c.writes.len(), 1);
}

#[test]
fn alarm_enable_queries_invert_the_disable_bit() {
    let mut rtc = PCF8563::new(RegisterStore::new());
    // fresh register is zero: disable bit low, so the component reads enabled
    assert!(rtc.is_alarm_minutes_enabled().unwrap());
    // disabling sets the hardware bit, and the query reports disabled
    rtc.control_alarm_minutes(Control::Off).unwrap();
    assert_eq!(rtc.i2c.regs[0x09] & 0x80, 0x80);
    assert!(!rtc.is_alarm_minutes_enabled().unwrap());
    // enabling clears the hardware bit, and the query reports enabled
    rtc.control_alarm_minutes(Control::On).unwrap();
    assert_eq!(rtc.i2c.regs[0x09] & 0x80, 0);
    assert!(rtc.is_alarm_minutes_enabled().unwrap());
}

#[test]
fn alarm_setters_keep_the_disable_bit() {
    let mut rtc = PCF8563::new(RegisterStore::new());
    rtc.control_alarm_minutes(Control::Off).unwrap();
    rtc.set_alarm_minutes(45).unwrap();
    assert_eq!(rtc.i2c.regs[0x09], 0x80 | 0x45);
    assert_eq!(rtc.get_alarm_minutes().unwrap(), 45);
    assert!(!rtc.is_alarm_minutes_enabled().unwrap());

    rtc.set_alarm_hours(9).unwrap();
    assert_eq!(rtc.i2c.regs[0x0A], 0x09);
    assert_eq!(rtc.get_alarm_hours().unwrap(), 9);
    assert!(rtc.is_alarm_hours_enabled().unwrap());

    rtc.set_alarm_day(28).unwrap();
    assert_eq!(rtc.i2c.regs[0x0B], 0x28);
    assert_eq!(rtc.get_alarm_day().unwrap(), 28);

    rtc.set_alarm_weekday(6).unwrap();
    assert_eq!(rtc.i2c.regs[0x0C], 0x06);
    assert_eq!(rtc.get_alarm_weekday().unwrap(), 6);
}

#[test]
fn alarm_setters_reject_out_of_range_values() {
    let mut rtc = PCF8563::new(RegisterStore::new());
    assert_eq!(rtc.set_alarm_minutes(60), Err(Error::InvalidInputData));
    assert_eq!(rtc.set_alarm_hours(24), Err(Error::InvalidInputData));
    assert_eq!(rtc.set_alarm_day(0), Err(Error::InvalidInputData));
    assert_eq!(rtc.set_alarm_day(32), Err(Error::InvalidInputData));
    assert_eq!(rtc.set_alarm_weekday(7), Err(Error::InvalidInputData));
    assert_eq!(rtc.i2c.writes.len(), 0);
}

#[test]
fn alarm_flag_and_interrupt_control() {
    let mut rtc = PCF8563::new(store_with([
        0, 0x08, 0, 0, 0, 0, 0, 0, 0, 0, 0, 0, 0, 0, 0, 0,
    ]));
    assert!(rtc.get_alarm_flag().unwrap());
    rtc.clear_alarm_flag().unwrap();
    assert!(!rtc.get_alarm_flag().unwrap());

    assert!(!rtc.is_alarm_interrupt_enabled().unwrap());
    rtc.control_alarm_interrupt(Control::On).unwrap();
    assert!(rtc.is_alarm_interrupt_enabled().unwrap());
    rtc.control_alarm_interrupt(Control::Off).unwrap();
    assert!(!rtc.is_alarm_interrupt_enabled().unwrap());
}

#[test]
fn disable_all_alarms_sets_all_four_disable_bits() {
    let mut rtc = PCF8563::new(store_with([
        0, 0, 0, 0, 0, 0, 0, 0, 0, 0x12, 0x34, 0x56, 0x78, 0, 0, 0,
    ]));
    rtc.disable_all_alarms().unwrap();
    let store = rtc.destroy();
    assert_eq!(store.regs[0x09], 0x92);
    assert_eq!(store.regs[0x0A], 0xB4);
    assert_eq!(store.regs[0x0B], 0xD6);
    assert_eq!(store.regs[0x0C], 0xF8);
    assert_eq!(store.writes.len(), 4);
}

#[test]
fn century_flag_round_trip_and_validation() {
    let mut rtc = PCF8563::new(RegisterStore::new());
    assert_eq!(rtc.get_century_flag().unwrap(), 0);
    rtc.set_century_flag(1).unwrap();
    assert_eq!(rtc.get_century_flag().unwrap(), 1);
    assert_eq!(rtc.i2c.regs[0x07] & 0x80, 0x80);
    rtc.set_century_flag(0).unwrap();
    assert_eq!(rtc.get_century_flag().unwrap(), 0);
    assert_eq!(rtc.set_century_flag(2), Err(Error::InvalidInputData));
}
