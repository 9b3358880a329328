use linecar::ldc::data::AutoScanSequence;
use linecar::ldc::data::Channel;
use linecar::ldc::data::ClockDividers;
use linecar::ldc::data::Config;
use linecar::ldc::data::Deglitch;
use linecar::ldc::data::ErrorConfig;
use linecar::ldc::data::MuxConfig;
use linecar::ldc::data::Status;
use linecar::ldc::Error;
use linecar::ldc::I2cBus;
use linecar::ldc::Ldc;

/// An in-memory bus: records every write and answers reads from a fixed map
/// of register values, failing when asked to.
struct FakeBus {
    writes: Vec<(u8, [u8; 3])>,
    registers: Vec<(u8, u16)>,
    fail: bool,
}

impl FakeBus {
    fn new() -> Self {
        FakeBus { writes: Vec::new(), registers: Vec::new(), fail: false }
    }

    fn with_register(mut self, reg: u8, value: u16) -> Self {
        self.registers.push((reg, value));
        self
    }
}

impl I2cBus for FakeBus {
    type BusError = &'static str;

    fn write(&mut self, address: u8, bytes: [u8; 3]) -> Result<(), &'static str> {
        if self.fail {
            return Err("bus write failed");
        }
        self.writes.push((address, bytes));
        Ok(())
    }

    fn write_read(&mut self, address: u8, reg: u8) -> Result<[u8; 2], &'static str> {
        if self.fail {
            return Err("bus read failed");
        }
        let _ = address;
        for (r, v) in &self.registers {
            if *r == reg {
                return Ok([(v >> 8) as u8, (v & 0xff) as u8]);
            }
        }
        Ok([0, 0])
    }
}

#[test]
fn status_bits_decode() {
    let status = Status(0x2000);
    assert!(status.conversion_under_range_error());
    assert!(!status.conversion_over_range_error());
    let status = Status(0x1000);
    assert!(status.conversion_over_range_error());
    let status = Status(0x0800);
    assert!(status.watchdog_timeout_error());
    let status = Status(0x0400);
    assert!(status.sensor_amplitude_high_error());
    let status = Status(0x0200);
    assert!(status.sensor_amplitude_low_error());
    let status = Status(0x0100);
    assert!(status.zero_count_error());
    let status = Status(0x0040);
    assert!(status.data_ready());
    let status = Status(0x000F);
    assert!(status.channel_0_unread());
    assert!(status.channel_1_unread());
    assert!(status.channel_2_unread());
    assert!(status.channel_3_unread());
    assert!(!Status(0).data_ready());
}

#[test]
fn status_error_channel_uses_top_bits() {
    assert_eq!(Status(0x0000).error_channel(), Channel::Zero);
    assert_eq!(Status(0x4000).error_channel(), Channel::One);
    assert_eq!(Status(0x8000).error_channel(), Channel::Two);
    assert_eq!(Status(0xC000).error_channel(), Channel::Three);
}

#[test]
fn error_config_round_trips() {
    let conf = ErrorConfig::default();
    assert_eq!(conf.0, 0);
    let conf = conf.with_under_range_error_to_data_register(true);
    assert_eq!(conf.0, 0x8000);
    assert!(conf.under_range_error_to_data_register());
    let conf = conf.with_over_range_error_to_data_register(true)
        .with_watchdog_timeout_error_to_data_register(true)
        .with_amplitude_high_error_to_data_register(true)
        .with_amplitude_low_error_to_data_register(true);
    assert_eq!(conf.0, 0xF800);
    let conf = conf.with_under_range_error_to_data_register(false);
    assert!(!conf.under_range_error_to_data_register());
    assert!(conf.over_range_error_to_data_register());
    assert!(conf.watchdog_timeout_error_to_data_register());
    assert!(conf.amplitude_high_error_to_data_register());
    assert!(conf.amplitude_low_error_to_data_register());

    let conf = ErrorConfig::default().with_under_range_error_to_interrupt(true)
        .with_over_range_error_to_interrupt(true)
        .with_watchdog_timeout_error_to_interrupt(true)
        .with_amplitude_high_error_to_interrupt(true)
        .with_amplitude_low_error_to_interrupt(true)
        .with_zero_count_error_to_interrupt(true)
        .with_data_ready_to_interrupt(true);
    assert_eq!(conf.0, 0x00FD);
    assert!(conf.under_range_error_to_interrupt());
    assert!(conf.over_range_error_to_interrupt());
    assert!(conf.watchdog_timeout_error_to_interrupt());
    assert!(conf.amplitude_high_error_to_interrupt());
    assert!(conf.amplitude_low_error_to_interrupt());
    assert!(conf.zero_count_error_to_interrupt());
    assert!(conf.data_ready_to_interrupt());
    let conf = conf.with_data_ready_to_interrupt(false);
    assert!(!conf.data_ready_to_interrupt());
    assert_eq!(conf.0, 0x00FC);
}

#[test]
fn config_round_trips() {
    let conf = Config::default();
    assert_eq!(conf.0, 0x1001);
    assert_eq!(conf.active_chan(), Channel::Zero);
    assert!(conf.sensor_rp_override());
    assert!(!conf.sleep_mode());

    let conf = conf.with_active_chan(Channel::Three);
    assert_eq!(conf.active_chan(), Channel::Three);
    assert_eq!(conf.0 & 0xC000, 0xC000);

    let conf = conf.with_sleep_mode(true);
    assert!(conf.sleep_mode());
    let conf = conf.with_sensor_activation_low_power(true);
    assert!(conf.sensor_activation_low_power());
    let conf = conf.with_reference_clock_external(true);
    assert!(conf.reference_clock_external());
    let conf = conf.with_high_current_sensor_drive(true);
    assert!(conf.high_current_sensor_drive());
    let conf = conf.with_sensor_rp_override(false);
    assert!(!conf.sensor_rp_override());
}

#[test]
fn config_inverted_fields() {
    let conf = Config::default();
    // the disable bits start clear, so both features read as on
    assert!(conf.automatic_sensor_amplitude_correction());
    assert!(conf.interrupt_on_status_update());

    let conf = conf.with_automatic_sensor_amplitude_correction(false);
    assert!(!conf.automatic_sensor_amplitude_correction());
    assert_eq!(conf.0 & 0x0400, 0x0400);
    let conf = conf.with_automatic_sensor_amplitude_correction(true);
    assert!(conf.automatic_sensor_amplitude_correction());

    let conf = conf.with_interrupt_on_status_update(false);
    assert!(!conf.interrupt_on_status_update());
    assert_eq!(conf.0 & 0x0080, 0x0080);
    let conf = conf.with_interrupt_on_status_update(true);
    assert!(conf.interrupt_on_status_update());
}

#[test]
fn mux_config_round_trips() {
    let conf = MuxConfig::default();
    assert_eq!(conf.0, 0b0100_0001_111);
    assert_eq!(conf.deglitch_filter_bandwidth(), Ok(Deglitch::ThirtyThreeMHz));
    assert!(!conf.auto_scan());

    let conf = conf.with_auto_scan(true);
    assert!(conf.auto_scan());

    let conf = conf.with_auto_scan_sequence(AutoScanSequence::ZeroOneTwoThree);
    assert_eq!(conf.auto_scan_sequence(), AutoScanSequence::ZeroOneTwoThree);
    let conf = conf.with_auto_scan_sequence(AutoScanSequence::ZeroOneTwo);
    assert_eq!(conf.auto_scan_sequence(), AutoScanSequence::ZeroOneTwo);

    let conf = conf.with_deglitch_filter_bandwidth(Deglitch::OneMHz);
    assert_eq!(conf.deglitch_filter_bandwidth(), Ok(Deglitch::OneMHz));
    let conf = conf.with_deglitch_filter_bandwidth(Deglitch::TenMHz);
    assert_eq!(conf.deglitch_filter_bandwidth(), Ok(Deglitch::TenMHz));
    let conf = conf.with_deglitch_filter_bandwidth(Deglitch::ThreePointThreeMHz);
    assert_eq!(conf.deglitch_filter_bandwidth(), Ok(Deglitch::ThreePointThreeMHz));
}

#[test]
fn mux_reserved_encodings() {
    // the reserved scan encoding reads as the two-channel sequence
    assert_eq!(MuxConfig(0x6000).auto_scan_sequence(), AutoScanSequence::ZeroOne);
    assert_eq!(MuxConfig(0x0000).auto_scan_sequence(), AutoScanSequence::ZeroOne);
    // a reserved deglitch encoding comes back raw
    assert_eq!(MuxConfig(0x0006).deglitch_filter_bandwidth(), Err(6));
    assert_eq!(MuxConfig(0x0000).deglitch_filter_bandwidth(), Err(0));
}

#[test]
fn clock_dividers_replace_fref() {
    let divs = ClockDividers { fin_div: 3, fref_div: 100 };
    let divs = divs.with_fref_div(7);
    assert_eq!(divs.fin_div, 3);
    assert_eq!(divs.fref_div, 7);
}

#[test]
fn write_reg_puts_word_high_byte_first() {
    let mut ldc = Ldc::new(FakeBus::new(), 0x2A);
    ldc.write_reg(0x19, 0xABCD).unwrap();
    let writes = ldc.into_bus().writes;
    assert_eq!(writes, vec![(0x2A, [0x19, 0xAB, 0xCD])]);
}

#[test]
fn read_reg_joins_bytes_high_first() {
    let bus = FakeBus::new().with_register(0x18, 0x1234);
    let mut ldc = Ldc::new(bus, 0x2A);
    assert_eq!(ldc.read_reg(0x18).unwrap(), 0x1234);
}

#[test]
fn read_data_12bit_reports_flags_as_errors() {
    let bus = FakeBus::new()
        .with_register(0x00, 0x8123)
        .with_register(0x02, 0x4123)
        .with_register(0x04, 0x2123)
        .with_register(0x06, 0x1123);
    let mut ldc = Ldc::new(bus, 0x2A);
    assert!(matches!(ldc.read_data_12bit(Channel::Zero), Err(Error::ConversionUnderRange)));
    assert!(matches!(ldc.read_data_12bit(Channel::One), Err(Error::ConversionOverRange)));
    assert!(matches!(ldc.read_data_12bit(Channel::Two), Err(Error::ConversionWatchdogTimeout)));
    assert!(matches!(ldc.read_data_12bit(Channel::Three), Err(Error::ConversionAmplitude)));
}

#[test]
fn read_data_12bit_masks_result() {
    let bus = FakeBus::new().with_register(0x02, 0x0ABC);
    let mut ldc = Ldc::new(bus, 0x2A);
    assert_eq!(ldc.read_data_12bit(Channel::One).unwrap(), 0x0ABC);
}

#[test]
fn read_data_24bit_joins_words() {
    let bus = FakeBus::new().with_register(0x00, 0x0123).with_register(0x01, 0x4567);
    let mut ldc = Ldc::new(bus, 0x2A);
    assert_eq!(ldc.read_data_24bit(Channel::Zero).unwrap(), 0x01234567);
}

#[test]
fn setters_hit_their_registers() {
    let mut ldc = Ldc::new(FakeBus::new(), 0x2B);
    ldc.set_ref_count_conv_interval(Channel::Two, 0x5AA5).unwrap();
    ldc.set_conv_settling_time(Channel::One, 0x0102).unwrap();
    ldc.set_clock_dividers(Channel::Zero, ClockDividers { fin_div: 2, fref_div: 0x345 }).unwrap();
    ldc.set_error_config(ErrorConfig(0x8001)).unwrap();
    ldc.set_config(Config(0x1001)).unwrap();
    ldc.set_mux_config(MuxConfig(0x020F)).unwrap();
    ldc.reset().unwrap();
    ldc.set_sensor_drive_current(Channel::One, 0b11111).unwrap();
    let writes = ldc.into_bus().writes;
    assert_eq!(writes[0], (0x2B, [0x0A, 0x5A, 0xA5]));
    assert_eq!(writes[1], (0x2B, [0x11, 0x01, 0x02]));
    assert_eq!(writes[2], (0x2B, [0x14, 0x23, 0x45]));
    assert_eq!(writes[3], (0x2B, [0x19, 0x80, 0x01]));
    assert_eq!(writes[4], (0x2B, [0x1A, 0x10, 0x01]));
    assert_eq!(writes[5], (0x2B, [0x1B, 0x02, 0x0F]));
    assert_eq!(writes[6], (0x2B, [0x1C, 0x80, 0x00]));
    assert_eq!(writes[7], (0x2B, [0x1F, 0xF8, 0x00]));
}

#[test]
fn bus_failures_surface_as_bus_errors() {
    let mut failing = FakeBus::new();
    failing.fail = true;
    let mut ldc = Ldc::new(failing, 0x2A);
    assert!(matches!(ldc.write_reg(0x19, 0), Err(Error::Bus("bus write failed"))));
    assert!(matches!(ldc.read_reg(0x18), Err(Error::Bus("bus read failed"))));
    assert!(matches!(ldc.read_data_12bit(Channel::Zero), Err(Error::Bus(_))));
}
