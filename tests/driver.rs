use apds9960::{
    Apds9960, Error, Gesture, GestureDataThreshold, GestureGain, LedBoost, LedDrive, LightGain,
    ProximityGain, RegisterBus,
};

#[derive(Debug, Clone, Copy, PartialEq, Eq)]
struct BusFault;

#[derive(Debug, Clone, PartialEq, Eq)]
enum Op {
    Read(u8),
    Write(u8, u8),
    BulkWrite(u8, Vec<u8>),
    BulkRead(u8, usize),
}

/// A register file with a gesture FIFO behind it.
struct MockBus {
    registers: [u8; 256],
    fifo: Vec<u8>,
    level_override: Option<u8>,
    short_reads: bool,
    fail_at: Option<usize>,
    ops: Vec<Op>,
}

impl MockBus {
    fn new() -> Self {
        MockBus {
            registers: [0; 256],
            fifo: Vec::new(),
            level_override: None,
            short_reads: false,
            fail_at: None,
            ops: Vec::new(),
        }
    }

    fn with_fifo(bytes: &[u8]) -> Self {
        let mut bus = MockBus::new();
        bus.fifo = bytes.to_vec();
        bus
    }

    fn record(&mut self, op: Op) -> Result<(), BusFault> {
        let index = self.ops.len();
        self.ops.push(op);
        if self.fail_at == Some(index) {
            Err(BusFault)
        } else {
            Ok(())
        }
    }
}

impl RegisterBus for MockBus {
    type Error = BusFault;

    fn read_register(&mut self, address: u8) -> Result<u8, BusFault> {
        self.record(Op::Read(address))?;
        Ok(match address {
            0xAF => {
                if self.fifo.len() >= 4 {
                    self.registers[0xAF] | 0x01
                } else {
                    self.registers[0xAF] & !0x01
                }
            }
            0xAE => match self.level_override {
                Some(level) => level,
                None => (self.fifo.len() / 4) as u8,
            },
            _ => self.registers[address as usize],
        })
    }

    fn write_register(&mut self, address: u8, value: u8) -> Result<(), BusFault> {
        self.record(Op::Write(address, value))?;
        self.registers[address as usize] = value;
        Ok(())
    }

    fn bulk_write(&mut self, start: u8, values: &[u8]) -> Result<(), BusFault> {
        self.record(Op::BulkWrite(start, values.to_vec()))?;
        for (i, v) in values.iter().enumerate() {
            self.registers[start as usize + i] = *v;
        }
        Ok(())
    }

    fn bulk_read(&mut self, start: u8, max_len: usize) -> Result<Vec<u8>, BusFault> {
        self.record(Op::BulkRead(start, max_len))?;
        let mut n = max_len.min(self.fifo.len());
        if self.short_reads && n > 0 {
            n -= 1;
        }
        Ok(self.fifo.drain(..n).collect())
    }
}

fn fifo_bytes(samples: &[[u8; 4]]) -> Vec<u8> {
    samples.iter().flat_map(|s| s.iter().copied()).collect()
}

fn bulk_reads(ops: &[Op]) -> Vec<Op> {
    ops.iter().filter(|op| matches!(op, Op::BulkRead(..))).cloned().collect()
}

#[test]
fn new_driver_has_rotation_zero_and_issues_nothing() {
    let sensor = Apds9960::new(MockBus::new());
    assert_eq!(sensor.rotation(), 0);
    let bus = sensor.destroy();
    assert!(bus.ops.is_empty());
}

#[test]
fn decode_up_swipe() {
    let bytes = fifo_bytes(&[[100, 30, 60, 60], [30, 100, 60, 60]]);
    let mut sensor = Apds9960::new(MockBus::with_fifo(&bytes));
    let r = sensor.decode_gesture();
    assert!(matches!(r, Ok(Gesture::Up)));
}

#[test]
fn decode_with_rotation_90_turns_up_into_right() {
    let bytes = fifo_bytes(&[[100, 30, 60, 60], [30, 100, 60, 60]]);
    let mut sensor = Apds9960::new(MockBus::with_fifo(&bytes));
    assert!(sensor.set_rotation(90).is_ok());
    assert!(matches!(sensor.decode_gesture(), Ok(Gesture::Right)));
}

#[test]
fn decode_not_ready_reads_status_only() {
    let mut sensor = Apds9960::new(MockBus::new());
    let r = sensor.decode_gesture();
    assert!(matches!(r, Err(nb::Error::WouldBlock)));
    let bus = sensor.destroy();
    assert_eq!(bus.ops, vec![Op::Read(0xAF)]);
}

#[test]
fn decode_not_ready_leaves_fifo_untouched() {
    let mut bus = MockBus::with_fifo(&[1, 2, 3]);
    bus.registers[0xAF] = 0;
    let mut sensor = Apds9960::new(bus);
    assert!(matches!(sensor.decode_gesture(), Err(nb::Error::WouldBlock)));
    let bus = sensor.destroy();
    assert_eq!(bus.fifo, vec![1, 2, 3]);
}

#[test]
fn decode_with_one_accepted_sample_gives_no_gesture() {
    let bytes = fifo_bytes(&[[0, 0, 0, 0], [100, 30, 60, 60], [255, 255, 255, 255], [10, 90, 90, 90]]);
    let mut sensor = Apds9960::new(MockBus::with_fifo(&bytes));
    assert!(matches!(sensor.decode_gesture(), Ok(Gesture::NoGesture)));
}

#[test]
fn decode_drops_filtered_samples_between_first_and_last() {
    let bytes = fifo_bytes(&[
        [0, 0, 0, 0],
        [100, 30, 60, 60],
        [20, 200, 60, 60],
        [30, 100, 60, 60],
        [255, 255, 255, 255],
    ]);
    let mut sensor = Apds9960::new(MockBus::with_fifo(&bytes));
    assert!(matches!(sensor.decode_gesture(), Ok(Gesture::Up)));
}

#[test]
fn decode_caps_fifo_at_32_datasets() {
    let mut samples = vec![[100u8, 30, 60, 60]; 31];
    samples.push([30, 100, 60, 60]);
    samples.extend(vec![[60u8, 60, 100, 30]; 8]);
    let bytes = fifo_bytes(&samples);
    assert_eq!(bytes.len(), 160);
    let mut sensor = Apds9960::new(MockBus::with_fifo(&bytes));
    let r = sensor.decode_gesture();
    assert!(matches!(r, Ok(Gesture::Up)));
    let bus = sensor.destroy();
    assert_eq!(bulk_reads(&bus.ops), vec![Op::BulkRead(0xFC, 128)]);
    assert_eq!(bus.fifo.len(), 32);
}

#[test]
fn decode_reads_over_several_rounds() {
    let bytes = fifo_bytes(&[[100, 30, 60, 60], [90, 40, 60, 60], [30, 100, 60, 60]]);
    let mut bus = MockBus::with_fifo(&bytes);
    bus.level_override = Some(1);
    let mut sensor = Apds9960::new(bus);
    assert!(matches!(sensor.decode_gesture(), Ok(Gesture::Up)));
    let bus = sensor.destroy();
    assert_eq!(
        bulk_reads(&bus.ops),
        vec![Op::BulkRead(0xFC, 4), Op::BulkRead(0xFC, 4), Op::BulkRead(0xFC, 4)]
    );
}

#[test]
fn decode_stops_on_short_read() {
    let bytes = fifo_bytes(&[[100, 30, 60, 60], [30, 100, 60, 60]]);
    let mut bus = MockBus::with_fifo(&bytes);
    bus.short_reads = true;
    let mut sensor = Apds9960::new(bus);
    assert!(matches!(sensor.decode_gesture(), Ok(Gesture::NoGesture)));
}

#[test]
fn decode_stops_when_level_is_zero() {
    let bytes = fifo_bytes(&[[100, 30, 60, 60], [30, 100, 60, 60]]);
    let mut bus = MockBus::with_fifo(&bytes);
    bus.level_override = Some(0);
    let mut sensor = Apds9960::new(bus);
    assert!(matches!(sensor.decode_gesture(), Ok(Gesture::NoGesture)));
    let bus = sensor.destroy();
    assert!(bulk_reads(&bus.ops).is_empty());
}

#[test]
fn decode_bus_error_is_reported() {
    let bytes = fifo_bytes(&[[100, 30, 60, 60], [30, 100, 60, 60]]);
    let mut bus = MockBus::with_fifo(&bytes);
    bus.fail_at = Some(2);
    let mut sensor = Apds9960::new(bus);
    assert!(matches!(
        sensor.decode_gesture(),
        Err(nb::Error::Other(Error::I2C(BusFault)))
    ));
}

#[test]
fn set_rotation_accepts_valid_values() {
    let mut sensor = Apds9960::new(MockBus::new());
    for degrees in [90u16, 180, 270, 0] {
        assert!(sensor.set_rotation(degrees).is_ok());
        assert_eq!(sensor.rotation(), degrees);
    }
}

#[test]
fn set_rotation_rejects_45_and_keeps_previous() {
    let mut sensor = Apds9960::new(MockBus::new());
    assert!(sensor.set_rotation(180).is_ok());
    assert!(matches!(sensor.set_rotation(45), Err(Error::InvalidRotation)));
    assert_eq!(sensor.rotation(), 180);
    assert!(matches!(sensor.set_rotation(360), Err(Error::InvalidRotation)));
    assert_eq!(sensor.rotation(), 180);
}

#[test]
fn flags_build_on_the_cached_enable_value() {
    let mut sensor = Apds9960::new(MockBus::new());
    assert!(sensor.enable().is_ok());
    assert!(sensor.enable_proximity().is_ok());
    assert!(sensor.enable_gesture().is_ok());
    assert!(sensor.disable_proximity().is_ok());
    let bus = sensor.destroy();
    assert_eq!(
        bus.ops,
        vec![Op::Write(0x80, 0x01), Op::Write(0x80, 0x05), Op::Write(0x80, 0x45), Op::Write(0x80, 0x41)]
    );
}

#[test]
fn failed_write_leaves_cache_unchanged() {
    let mut bus = MockBus::new();
    bus.fail_at = Some(1);
    let mut sensor = Apds9960::new(bus);
    assert!(sensor.enable().is_ok());
    assert!(matches!(sensor.enable_gesture(), Err(Error::I2C(BusFault))));
    assert!(sensor.enable_proximity().is_ok());
    let bus = sensor.destroy();
    assert_eq!(bus.ops[2], Op::Write(0x80, 0x05));
}

#[test]
fn disable_clears_every_enable_flag() {
    let mut sensor = Apds9960::new(MockBus::new());
    assert!(sensor.enable_gesture().is_ok());
    assert!(sensor.disable().is_ok());
    let bus = sensor.destroy();
    assert_eq!(bus.ops[1], Op::Write(0x80, 0x00));
}

#[test]
fn wait_long_uses_config1_power_on_value() {
    let mut sensor = Apds9960::new(MockBus::new());
    assert!(sensor.enable_wait_long().is_ok());
    assert!(sensor.disable_wait_long().is_ok());
    let bus = sensor.destroy();
    assert_eq!(bus.ops, vec![Op::Write(0x8D, 0x42), Op::Write(0x8D, 0x40)]);
}

#[test]
fn saturation_interrupts_use_config2_cache() {
    let mut sensor = Apds9960::new(MockBus::new());
    assert!(sensor.enable_proximity_saturation_interrupts().is_ok());
    let bus = sensor.destroy();
    assert_eq!(bus.ops, vec![Op::Write(0x90, 0x81)]);
}

#[test]
fn read_modify_write_updates_the_cache() {
    let mut bus = MockBus::new();
    bus.registers[0x9F] = 0xFF;
    let mut sensor = Apds9960::new(bus);
    assert!(sensor.set_proximity_photodiode_mask(0x05).is_ok());
    assert!(sensor.disable_proximity_gain_compensation().is_ok());
    let bus = sensor.destroy();
    assert_eq!(bus.ops, vec![Op::Read(0x9F), Op::Write(0x9F, 0xF5), Op::Write(0x9F, 0xD5)]);
}

#[test]
fn init_writes_defaults_and_powers_on() {
    let mut sensor = Apds9960::new(MockBus::new());
    assert!(sensor.init().is_ok());
    let bus = sensor.destroy();
    assert_eq!(bus.ops.len(), 28);
    assert_eq!(bus.ops[0], Op::Read(0x92));
    assert_eq!(bus.ops[1], Op::Write(0x80, 0x00));
    assert_eq!(bus.ops[2], Op::Write(0x8E, 0x87));
    assert_eq!(bus.ops[8], Op::BulkWrite(0x84, vec![0xFF, 0xFF]));
    assert_eq!(bus.ops[9], Op::BulkWrite(0x86, vec![0x00, 0x00]));
    assert_eq!(bus.ops[26], Op::Write(0x8F, 0x09));
    assert_eq!(bus.ops[27], Op::Write(0x80, 0x01));
}

#[test]
fn init_stops_when_the_probe_fails() {
    let mut bus = MockBus::new();
    bus.fail_at = Some(0);
    let mut sensor = Apds9960::new(bus);
    assert!(matches!(sensor.init(), Err(Error::I2C(BusFault))));
    let bus = sensor.destroy();
    assert_eq!(bus.ops.len(), 1);
}

#[test]
fn init_stops_at_a_failed_write() {
    let mut bus = MockBus::new();
    bus.fail_at = Some(12);
    let mut sensor = Apds9960::new(bus);
    assert!(matches!(sensor.init(), Err(Error::I2C(BusFault))));
    let bus = sensor.destroy();
    assert_eq!(bus.ops.len(), 13);
}

#[test]
fn init_caches_its_configuration() {
    let mut sensor = Apds9960::new(MockBus::new());
    assert!(sensor.init().is_ok());
    assert!(sensor.enable_wait_long().is_ok());
    assert!(sensor.enable_gesture_mode().is_ok());
    let bus = sensor.destroy();
    assert_eq!(bus.ops[28], Op::Write(0x8D, 0x62));
    assert_eq!(bus.ops[29], Op::Write(0xAB, 0x01));
}

#[test]
fn enable_proximity_sensor_sequence() {
    let mut bus = MockBus::new();
    bus.registers[0x8F] = 0xFF;
    let mut sensor = Apds9960::new(bus);
    assert!(sensor.enable_proximity_sensor(true).is_ok());
    let bus = sensor.destroy();
    assert_eq!(
        bus.ops,
        vec![
            Op::Read(0x8F),
            Op::Write(0x8F, 0xFB),
            Op::Write(0x80, 0x20),
            Op::Write(0x80, 0x21),
            Op::Write(0x80, 0x25),
        ]
    );
}

#[test]
fn disable_proximity_sensor_sequence() {
    let mut sensor = Apds9960::new(MockBus::new());
    assert!(sensor.enable_proximity_sensor(true).is_ok());
    assert!(sensor.disable_proximity_sensor().is_ok());
    let bus = sensor.destroy();
    let n = bus.ops.len();
    assert_eq!(bus.ops[n - 2], Op::Write(0x80, 0x05));
    assert_eq!(bus.ops[n - 1], Op::Write(0x80, 0x01));
}

#[test]
fn set_mode_replaces_enable_register() {
    let mut bus = MockBus::new();
    bus.registers[0x80] = 0x7F;
    let mut sensor = Apds9960::new(bus);
    assert!(sensor.set_mode(0x05).is_ok());
    assert!(matches!(sensor.get_mode(), Ok(0x05)));
    assert!(sensor.enable_gesture().is_ok());
    let bus = sensor.destroy();
    assert_eq!(bus.ops[3], Op::Write(0x80, 0x45));
}

#[test]
fn gains_round_trip_through_control() {
    let mut sensor = Apds9960::new(MockBus::new());
    assert!(sensor.set_proximity_gain(ProximityGain::X8).is_ok());
    assert!(sensor.set_light_gain(LightGain::X16).is_ok());
    assert!(sensor.set_led_drive(LedDrive::Ma25).is_ok());
    assert!(matches!(sensor.get_proximity_gain(), Ok(ProximityGain::X8)));
    assert!(matches!(sensor.get_light_gain(), Ok(LightGain::X16)));
    assert!(matches!(sensor.get_led_drive(), Ok(LedDrive::Ma25)));
    let bus = sensor.destroy();
    assert_eq!(bus.registers[0x8F], 0b1000_1110);
}

#[test]
fn gesture_gain_drive_and_wait_share_gconf2() {
    let mut sensor = Apds9960::new(MockBus::new());
    assert!(sensor.set_gesture_gain(GestureGain::X4).is_ok());
    assert!(sensor.set_gesture_led_drive(LedDrive::Ma50).is_ok());
    assert!(sensor.set_gesture_wait_time(0x0B).is_ok());
    assert!(matches!(sensor.get_gesture_gain(), Ok(GestureGain::X4)));
    assert!(matches!(sensor.get_gesture_led_drive(), Ok(LedDrive::Ma50)));
    assert!(matches!(sensor.get_gesture_wait_time(), Ok(3)));
    let bus = sensor.destroy();
    assert_eq!(bus.registers[0xA3], 0b0100_1011);
}

#[test]
fn led_boost_round_trip() {
    let mut sensor = Apds9960::new(MockBus::new());
    assert!(sensor.set_led_boost(LedBoost::Percent300).is_ok());
    assert!(matches!(sensor.get_led_boost(), Ok(LedBoost::Percent300)));
    let bus = sensor.destroy();
    assert_eq!(bus.registers[0x90], 0x30);
}

#[test]
fn pulse_settings_are_packed() {
    let mut sensor = Apds9960::new(MockBus::new());
    assert!(sensor.set_proximity_pulse(0xFF, 2).is_ok());
    assert!(matches!(sensor.get_proximity_pulse(), Ok((0x3F, 2))));
    assert!(sensor.set_gesture_pulse(9, 3).is_ok());
    let bus = sensor.destroy();
    assert_eq!(bus.registers[0x8E], 0xBF);
    assert_eq!(bus.registers[0xA6], 0xC9);
}

#[test]
fn proximity_thresholds_and_persistence() {
    let mut bus = MockBus::new();
    bus.registers[0x8C] = 0x0F;
    let mut sensor = Apds9960::new(bus);
    assert!(sensor.set_proximity_low_threshold(10).is_ok());
    assert!(sensor.set_proximity_high_threshold(200).is_ok());
    assert!(matches!(sensor.get_proximity_low_threshold(), Ok(10)));
    assert!(matches!(sensor.get_proximity_high_threshold(), Ok(200)));
    assert!(sensor.set_proximity_interrupt_persistence(0x1A).is_ok());
    assert!(matches!(sensor.get_proximity_interrupt_persistence(), Ok(0x0A)));
    let bus = sensor.destroy();
    assert_eq!(bus.registers[0x8C], 0xAF);
}

#[test]
fn proximity_offsets_and_mask() {
    let mut sensor = Apds9960::new(MockBus::new());
    assert!(sensor.set_proximity_up_right_offset(-1).is_ok());
    assert!(sensor.set_proximity_down_left_offset(5).is_ok());
    assert!(sensor.set_proximity_offsets(-2, 3).is_ok());
    assert!(sensor.enable_proximity_gain_compensation().is_ok());
    assert!(matches!(sensor.get_proximity_gain_compensation(), Ok(1)));
    assert!(sensor.set_proximity_photodiode_mask(0x1C).is_ok());
    assert!(matches!(sensor.get_proximity_photodiode_mask(), Ok(0x0C)));
    let bus = sensor.destroy();
    assert_eq!(bus.ops[0], Op::Write(0x9D, 0xFF));
    assert_eq!(bus.ops[1], Op::Write(0x9E, 0x05));
    assert_eq!(bus.ops[2], Op::BulkWrite(0x9D, vec![0xFE, 0x03]));
}

#[test]
fn read_proximity_waits_for_valid_data() {
    let mut bus = MockBus::new();
    bus.registers[0x9C] = 77;
    let mut sensor = Apds9960::new(bus);
    assert!(matches!(sensor.read_proximity(), Err(nb::Error::WouldBlock)));
    let mut bus = sensor.destroy();
    bus.registers[0x93] = 0x02;
    let mut sensor = Apds9960::new(bus);
    assert!(matches!(sensor.is_proximity_data_valid(), Ok(true)));
    assert!(matches!(sensor.read_proximity(), Ok(77)));
}

#[test]
fn interrupt_commands_send_only_the_address() {
    let mut sensor = Apds9960::new(MockBus::new());
    assert!(sensor.force_interrupt().is_ok());
    assert!(sensor.clear_interrupts().is_ok());
    assert!(sensor.clear_proximity_interrupt().is_ok());
    let bus = sensor.destroy();
    assert_eq!(
        bus.ops,
        vec![
            Op::BulkWrite(0xE4, vec![]),
            Op::BulkWrite(0xE7, vec![]),
            Op::BulkWrite(0xE5, vec![]),
        ]
    );
}

#[test]
fn gesture_data_level_threshold_bits() {
    let mut sensor = Apds9960::new(MockBus::new());
    assert!(sensor.set_gesture_data_level_threshold(GestureDataThreshold::Th8).is_ok());
    assert!(sensor.set_gesture_data_level_threshold(GestureDataThreshold::Th16).is_ok());
    assert!(sensor.set_gesture_data_level_threshold(GestureDataThreshold::Th4).is_ok());
    assert!(sensor.set_gesture_data_level_threshold(GestureDataThreshold::Th1).is_ok());
    let bus = sensor.destroy();
    assert_eq!(
        bus.ops,
        vec![Op::Write(0xA2, 0x80), Op::Write(0xA2, 0xC0), Op::Write(0xA2, 0x40), Op::Write(0xA2, 0x00)]
    );
}

#[test]
fn gesture_offsets_single_and_together() {
    let mut sensor = Apds9960::new(MockBus::new());
    assert!(sensor.set_gesture_up_offset(1).is_ok());
    assert!(sensor.set_gesture_down_offset(-1).is_ok());
    assert!(sensor.set_gesture_left_offset(2).is_ok());
    assert!(sensor.set_gesture_right_offset(-2).is_ok());
    assert!(sensor.set_gesture_offsets(1, 2, 3, 4).is_ok());
    let bus = sensor.destroy();
    assert_eq!(bus.ops[0], Op::Write(0xA4, 1));
    assert_eq!(bus.ops[1], Op::Write(0xA5, 0xFF));
    assert_eq!(bus.ops[2], Op::Write(0xA7, 2));
    assert_eq!(bus.ops[3], Op::Write(0xA9, 0xFE));
    assert_eq!(bus.ops[4], Op::BulkWrite(0xA4, vec![1, 2, 0xA6, 3, 0, 4]));
}

#[test]
fn gesture_thresholds_and_photodiodes() {
    let mut sensor = Apds9960::new(MockBus::new());
    assert!(sensor.set_gesture_proximity_entry_threshold(40).is_ok());
    assert!(sensor.set_gesture_proximity_exit_threshold(30).is_ok());
    assert!(matches!(sensor.get_gesture_proximity_entry_threshold(), Ok(40)));
    assert!(matches!(sensor.get_gesture_proximity_exit_threshold(), Ok(30)));
    assert!(sensor.set_gesture_dimensions(false, true).is_ok());
    assert!(sensor.set_gesture_dimensions(true, false).is_ok());
    assert!(sensor.enable_all_gesture_photodiodes().is_ok());
    let bus = sensor.destroy();
    assert_eq!(bus.ops[4], Op::Write(0xAA, 0x03));
    assert_eq!(bus.ops[5], Op::Write(0xAA, 0x0C));
    assert_eq!(bus.ops[6], Op::Write(0xAA, 0x00));
}

#[test]
fn gesture_exit_persistence_and_mask() {
    let mut bus = MockBus::new();
    bus.registers[0xA2] = 0xFF;
    let mut sensor = Apds9960::new(bus);
    assert!(sensor.set_gesture_exit_persistence(4).is_ok());
    assert!(sensor.set_gesture_exit_persistence(5).is_ok());
    assert!(sensor.set_gesture_exit_mask(0x06).is_ok());
    let bus = sensor.destroy();
    assert_eq!(bus.ops[1], Op::Write(0xA2, 0xDF));
    assert_eq!(bus.ops[3], Op::Write(0xA2, 0xBF));
    assert_eq!(bus.ops[5], Op::Write(0xA2, 0xB7));
}

#[test]
fn gesture_mode_and_interrupt_flags() {
    let mut sensor = Apds9960::new(MockBus::new());
    assert!(sensor.enable_gesture_mode().is_ok());
    assert!(sensor.enable_gesture_interrupts().is_ok());
    assert!(sensor.disable_gesture_mode().is_ok());
    assert!(sensor.disable_gesture_interrupts().is_ok());
    assert!(sensor.disable_gesture().is_ok());
    let bus = sensor.destroy();
    assert_eq!(
        bus.ops,
        vec![
            Op::Write(0xAB, 0x01),
            Op::Write(0xAB, 0x03),
            Op::Write(0xAB, 0x02),
            Op::Write(0xAB, 0x00),
            Op::Write(0x80, 0x00),
        ]
    );
}

#[test]
fn wait_settings() {
    let mut sensor = Apds9960::new(MockBus::new());
    assert!(sensor.enable_wait().is_ok());
    assert!(sensor.set_wait_time(0xF6).is_ok());
    assert!(sensor.disable_wait().is_ok());
    assert!(sensor.enable_power().is_ok());
    assert!(sensor.disable_power().is_ok());
    let bus = sensor.destroy();
    assert_eq!(
        bus.ops,
        vec![
            Op::Write(0x80, 0x08),
            Op::Write(0x83, 0xF6),
            Op::Write(0x80, 0x00),
            Op::Write(0x80, 0x01),
            Op::Write(0x80, 0x00),
        ]
    );
}

#[test]
fn getter_reports_bus_error() {
    let mut bus = MockBus::new();
    bus.fail_at = Some(0);
    let mut sensor = Apds9960::new(bus);
    assert!(matches!(sensor.get_gesture_gain(), Err(Error::I2C(BusFault))));
}

#[test]
fn gesture_status_and_level() {
    let bytes = fifo_bytes(&[[100, 30, 60, 60], [30, 100, 60, 60]]);
    let mut sensor = Apds9960::new(MockBus::with_fifo(&bytes));
    assert!(matches!(sensor.is_gesture_data_valid(), Ok(true)));
    assert!(matches!(sensor.read_gesture_data_level(), Ok(2)));
    assert!(matches!(sensor.read_device_id(), Ok(0)));
}

#[test]
fn trailing_rejected_dataset_does_not_change_the_gesture() {
    let kept = fifo_bytes(&[[100, 30, 60, 60], [30, 100, 60, 60]]);
    let with_rejected = fifo_bytes(&[[100, 30, 60, 60], [30, 100, 60, 60], [29, 200, 200, 200]]);
    let mut a = Apds9960::new(MockBus::with_fifo(&kept));
    let mut b = Apds9960::new(MockBus::with_fifo(&with_rejected));
    assert!(matches!(a.decode_gesture(), Ok(Gesture::Up)));
    assert!(matches!(b.decode_gesture(), Ok(Gesture::Up)));
}

#[test]
fn rejected_datasets_do_not_use_up_the_buffer() {
    let mut samples = vec![[10u8, 10, 10, 10]; 32];
    samples.push([100, 30, 60, 60]);
    samples.push([30, 100, 60, 60]);
    let bytes = fifo_bytes(&samples);
    let mut sensor = Apds9960::new(MockBus::with_fifo(&bytes));
    assert!(matches!(sensor.decode_gesture(), Ok(Gesture::Up)));
    let bus = sensor.destroy();
    assert_eq!(
        bulk_reads(&bus.ops),
        vec![Op::BulkRead(0xFC, 128), Op::BulkRead(0xFC, 8)]
    );
    assert!(bus.fifo.is_empty());
}

#[test]
fn reads_ask_only_for_the_room_left() {
    let mut samples = vec![[0u8, 0, 0, 0]; 2];
    samples.extend(vec![[100u8, 30, 60, 60]; 30]);
    samples.push([30, 100, 60, 60]);
    samples.push([30, 100, 60, 60]);
    samples.push([60, 60, 100, 30]);
    let bytes = fifo_bytes(&samples);
    let mut sensor = Apds9960::new(MockBus::with_fifo(&bytes));
    assert!(matches!(sensor.decode_gesture(), Ok(Gesture::Up)));
    let bus = sensor.destroy();
    assert_eq!(
        bulk_reads(&bus.ops),
        vec![Op::BulkRead(0xFC, 128), Op::BulkRead(0xFC, 8)]
    );
    assert_eq!(bus.fifo.len(), 4);
}
