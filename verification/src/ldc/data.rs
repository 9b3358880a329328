//! Register-level data types of a TI LDC1x1x inductance-to-digital
//! converter: the status word, the error, device and channel-multiplexing
//! configuration words, and the clock-divider pair, each with its bit fields
//! as the data sheet lays them out.

use vstd::prelude::*;

verus! {

/// Clock dividers of one channel: the sensor-frequency divider and the
/// reference divider, packed into one register by the driver.
#[derive(Clone, Copy, Debug, PartialEq, Eq, Structural)]
pub struct ClockDividers {
    /// Divider applied to the sensor frequency (a 4-bit register field).
    pub fin_div: u16,
    /// Divider applied to the reference clock (a 12-bit register field).
    pub fref_div: u16,
}

impl ClockDividers {
    /// The same dividers with the reference divider replaced.
    pub fn with_fref_div(self, div: u8) -> (c: Self)
        ensures
            c.fin_div == self.fin_div,
            c.fref_div == div as u16,
    {
        Self { fin_div: self.fin_div, fref_div: div as u16 }
    }
}

/// One of the four conversion channels.
#[derive(Clone, Copy, Debug, PartialEq, Eq, Structural)]
pub enum Channel {
    /// Channel 0.
    Zero,
    /// Channel 1.
    One,
    /// Channel 2.
    Two,
    /// Channel 3.
    Three,
}

/// The channel's number as register addresses and fields encode it.
pub open spec fn spec_channel_index(ch: Channel) -> u8 {
    match ch {
        Channel::Zero => 0,
        Channel::One => 1,
        Channel::Two => 2,
        Channel::Three => 3,
    }
}

impl Channel {
    /// The channel's number as register addresses and fields encode it.
    pub fn index(self) -> (n: u8)
        ensures
            n == spec_channel_index(self),
            n < 4,
    {
        match self {
            Channel::Zero => 0,
            Channel::One => 1,
            Channel::Two => 2,
            Channel::Three => 3,
        }
    }
}

/// The device's status register word.
#[derive(Clone, Copy, Debug, PartialEq, Eq, Structural)]
pub struct Status(pub u16);

impl Status {
    /// The channel the reported error refers to.
    pub fn error_channel(&self) -> (ch: Channel)
        ensures
            spec_channel_index(ch) as u16 == self.0 >> 14,
    {
        let w = self.0;
        let sel = w >> 14u16;
        proof {
            assert(w >> 14u16 < 4) by (bit_vector);
        }
        if sel == 0 {
            Channel::Zero
        } else if sel == 1 {
            Channel::One
        } else if sel == 2 {
            Channel::Two
        } else {
            Channel::Three
        }
    }

    /// A conversion was under range.
    pub fn conversion_under_range_error(&self) -> (r: bool)
        ensures
            r == (self.0 & 0x2000u16 != 0),
    {
        self.0 & 0x2000u16 != 0
    }

    /// A conversion was over range.
    pub fn conversion_over_range_error(&self) -> (r: bool)
        ensures
            r == (self.0 & 0x1000u16 != 0),
    {
        self.0 & 0x1000u16 != 0
    }

    /// The conversion watchdog timed out.
    pub fn watchdog_timeout_error(&self) -> (r: bool)
        ensures
            r == (self.0 & 0x0800u16 != 0),
    {
        self.0 & 0x0800u16 != 0
    }

    /// The sensor amplitude was too high.
    pub fn sensor_amplitude_high_error(&self) -> (r: bool)
        ensures
            r == (self.0 & 0x0400u16 != 0),
    {
        self.0 & 0x0400u16 != 0
    }

    /// The sensor amplitude was too low.
    pub fn sensor_amplitude_low_error(&self) -> (r: bool)
        ensures
            r == (self.0 & 0x0200u16 != 0),
    {
        self.0 & 0x0200u16 != 0
    }

    /// A conversion counted to zero.
    pub fn zero_count_error(&self) -> (r: bool)
        ensures
            r == (self.0 & 0x0100u16 != 0),
    {
        self.0 & 0x0100u16 != 0
    }

    /// A conversion result is ready.
    pub fn data_ready(&self) -> (r: bool)
        ensures
            r == (self.0 & 0x0040u16 != 0),
    {
        self.0 & 0x0040u16 != 0
    }

    /// Channel 0 holds an unread conversion.
    pub fn channel_0_unread(&self) -> (r: bool)
        ensures
            r == (self.0 & 0x0008u16 != 0),
    {
        self.0 & 0x0008u16 != 0
    }

    /// Channel 1 holds an unread conversion.
    pub fn channel_1_unread(&self) -> (r: bool)
        ensures
            r == (self.0 & 0x0004u16 != 0),
    {
        self.0 & 0x0004u16 != 0
    }

    /// Channel 2 holds an unread conversion.
    pub fn channel_2_unread(&self) -> (r: bool)
        ensures
            r == (self.0 & 0x0002u16 != 0),
    {
        self.0 & 0x0002u16 != 0
    }

    /// Channel 3 holds an unread conversion.
    pub fn channel_3_unread(&self) -> (r: bool)
        ensures
            r == (self.0 & 0x0001u16 != 0),
    {
        self.0 & 0x0001u16 != 0
    }

}

/// The error-configuration register word: which error conditions are routed
/// to the data registers and which raise the interrupt line.
#[derive(Clone, Copy, Debug, PartialEq, Eq, Structural)]
pub struct ErrorConfig(pub u16);

impl Default for ErrorConfig {
    /// Nothing routed anywhere.
    fn default() -> (c: Self)
        ensures
            c.0 == 0,
    {
        Self(0)
    }
}

impl ErrorConfig {
    /// Route under-range errors to the data register.
    pub fn under_range_error_to_data_register(&self) -> (r: bool)
        ensures
            r == (self.0 & 0x8000u16 != 0),
    {
        self.0 & 0x8000u16 != 0
    }

    /// Route under-range errors to the data register.
    pub fn with_under_range_error_to_data_register(self, val: bool) -> (c: Self)
        ensures
            c.0 == self.0 & !0x8000u16 | (if val { 0x8000u16 } else { 0u16 }),
    {
        Self(self.0 & !0x8000u16 | (if val { 0x8000u16 } else { 0u16 }))
    }

    /// Route over-range errors to the data register.
    pub fn over_range_error_to_data_register(&self) -> (r: bool)
        ensures
            r == (self.0 & 0x4000u16 != 0),
    {
        self.0 & 0x4000u16 != 0
    }

    /// Route over-range errors to the data register.
    pub fn with_over_range_error_to_data_register(self, val: bool) -> (c: Self)
        ensures
            c.0 == self.0 & !0x4000u16 | (if val { 0x4000u16 } else { 0u16 }),
    {
        Self(self.0 & !0x4000u16 | (if val { 0x4000u16 } else { 0u16 }))
    }

    /// Route watchdog-timeout errors to the data register.
    pub fn watchdog_timeout_error_to_data_register(&self) -> (r: bool)
        ensures
            r == (self.0 & 0x2000u16 != 0),
    {
        self.0 & 0x2000u16 != 0
    }

    /// Route watchdog-timeout errors to the data register.
    pub fn with_watchdog_timeout_error_to_data_register(self, val: bool) -> (c: Self)
        ensures
            c.0 == self.0 & !0x2000u16 | (if val { 0x2000u16 } else { 0u16 }),
    {
        Self(self.0 & !0x2000u16 | (if val { 0x2000u16 } else { 0u16 }))
    }

    /// Route amplitude-high errors to the data register.
    pub fn amplitude_high_error_to_data_register(&self) -> (r: bool)
        ensures
            r == (self.0 & 0x1000u16 != 0),
    {
        self.0 & 0x1000u16 != 0
    }

    /// Route amplitude-high errors to the data register.
    pub fn with_amplitude_high_error_to_data_register(self, val: bool) -> (c: Self)
        ensures
            c.0 == self.0 & !0x1000u16 | (if val { 0x1000u16 } else { 0u16 }),
    {
        Self(self.0 & !0x1000u16 | (if val { 0x1000u16 } else { 0u16 }))
    }

    /// Route amplitude-low errors to the data register.
    pub fn amplitude_low_error_to_data_register(&self) -> (r: bool)
        ensures
            r == (self.0 & 0x0800u16 != 0),
    {
        self.0 & 0x0800u16 != 0
    }

    /// Route amplitude-low errors to the data register.
    pub fn with_amplitude_low_error_to_data_register(self, val: bool) -> (c: Self)
        ensures
            c.0 == self.0 & !0x0800u16 | (if val { 0x0800u16 } else { 0u16 }),
    {
        Self(self.0 & !0x0800u16 | (if val { 0x0800u16 } else { 0u16 }))
    }

    /// Raise the interrupt line on under-range errors.
    pub fn under_range_error_to_interrupt(&self) -> (r: bool)
        ensures
            r == (self.0 & 0x0080u16 != 0),
    {
        self.0 & 0x0080u16 != 0
    }

    /// Raise the interrupt line on under-range errors.
    pub fn with_under_range_error_to_interrupt(self, val: bool) -> (c: Self)
        ensures
            c.0 == self.0 & !0x0080u16 | (if val { 0x0080u16 } else { 0u16 }),
    {
        Self(self.0 & !0x0080u16 | (if val { 0x0080u16 } else { 0u16 }))
    }

    /// Raise the interrupt line on over-range errors.
    pub fn over_range_error_to_interrupt(&self) -> (r: bool)
        ensures
            r == (self.0 & 0x0040u16 != 0),
    {
        self.0 & 0x0040u16 != 0
    }

    /// Raise the interrupt line on over-range errors.
    pub fn with_over_range_error_to_interrupt(self, val: bool) -> (c: Self)
        ensures
            c.0 == self.0 & !0x0040u16 | (if val { 0x0040u16 } else { 0u16 }),
    {
        Self(self.0 & !0x0040u16 | (if val { 0x0040u16 } else { 0u16 }))
    }

    /// Raise the interrupt line on watchdog-timeout errors.
    pub fn watchdog_timeout_error_to_interrupt(&self) -> (r: bool)
        ensures
            r == (self.0 & 0x0020u16 != 0),
    {
        self.0 & 0x0020u16 != 0
    }

    /// Raise the interrupt line on watchdog-timeout errors.
    pub fn with_watchdog_timeout_error_to_interrupt(self, val: bool) -> (c: Self)
        ensures
            c.0 == self.0 & !0x0020u16 | (if val { 0x0020u16 } else { 0u16 }),
    {
        Self(self.0 & !0x0020u16 | (if val { 0x0020u16 } else { 0u16 }))
    }

    /// Raise the interrupt line on amplitude-high errors.
    pub fn amplitude_high_error_to_interrupt(&self) -> (r: bool)
        ensures
            r == (self.0 & 0x0010u16 != 0),
    {
        self.0 & 0x0010u16 != 0
    }

    /// Raise the interrupt line on amplitude-high errors.
    pub fn with_amplitude_high_error_to_interrupt(self, val: bool) -> (c: Self)
        ensures
            c.0 == self.0 & !0x0010u16 | (if val { 0x0010u16 } else { 0u16 }),
    {
        Self(self.0 & !0x0010u16 | (if val { 0x0010u16 } else { 0u16 }))
    }

    /// Raise the interrupt line on amplitude-low errors.
    pub fn amplitude_low_error_to_interrupt(&self) -> (r: bool)
        ensures
            r == (self.0 & 0x0008u16 != 0),
    {
        self.0 & 0x0008u16 != 0
    }

    /// Raise the interrupt line on amplitude-low errors.
    pub fn with_amplitude_low_error_to_interrupt(self, val: bool) -> (c: Self)
        ensures
            c.0 == self.0 & !0x0008u16 | (if val { 0x0008u16 } else { 0u16 }),
    {
        Self(self.0 & !0x0008u16 | (if val { 0x0008u16 } else { 0u16 }))
    }

    /// Raise the interrupt line on zero-count errors.
    pub fn zero_count_error_to_interrupt(&self) -> (r: bool)
        ensures
            r == (self.0 & 0x0004u16 != 0),
    {
        self.0 & 0x0004u16 != 0
    }

    /// Raise the interrupt line on zero-count errors.
    pub fn with_zero_count_error_to_interrupt(self, val: bool) -> (c: Self)
        ensures
            c.0 == self.0 & !0x0004u16 | (if val { 0x0004u16 } else { 0u16 }),
    {
        Self(self.0 & !0x0004u16 | (if val { 0x0004u16 } else { 0u16 }))
    }

    /// Raise the interrupt line when a conversion is ready.
    pub fn data_ready_to_interrupt(&self) -> (r: bool)
        ensures
            r == (self.0 & 0x0001u16 != 0),
    {
        self.0 & 0x0001u16 != 0
    }

    /// Raise the interrupt line when a conversion is ready.
    pub fn with_data_ready_to_interrupt(self, val: bool) -> (c: Self)
        ensures
            c.0 == self.0 & !0x0001u16 | (if val { 0x0001u16 } else { 0u16 }),
    {
        Self(self.0 & !0x0001u16 | (if val { 0x0001u16 } else { 0u16 }))
    }

}

/// The device-configuration register word.
#[derive(Clone, Copy, Debug, PartialEq, Eq, Structural)]
pub struct Config(pub u16);

impl Default for Config {
    /// Channel 0 active, only the Rp override set, and the reserved first
    /// bit at one, as the data sheet requires.
    fn default() -> (c: Self)
        ensures
            c.0 == 0x1001,
    {
        Self(0x1001)
    }
}

impl Config {
    /// The channel a single-channel conversion runs on.
    pub fn active_chan(&self) -> (ch: Channel)
        ensures
            spec_channel_index(ch) as u16 == self.0 >> 14,
    {
        let w = self.0;
        let sel = w >> 14u16;
        proof {
            assert(w >> 14u16 < 4) by (bit_vector);
        }
        if sel == 0 {
            Channel::Zero
        } else if sel == 1 {
            Channel::One
        } else if sel == 2 {
            Channel::Two
        } else {
            Channel::Three
        }
    }

    /// The same configuration with the active channel replaced.
    pub fn with_active_chan(self, ch: Channel) -> (c: Self)
        ensures
            c.0 == self.0 & !0xC000u16 | (spec_channel_index(ch) as u16) << 14u16,
    {
        Self(self.0 & !0xC000u16 | (ch.index() as u16) << 14u16)
    }

    /// Hold the device in sleep mode.
    pub fn sleep_mode(&self) -> (r: bool)
        ensures
            r == (self.0 & 0x2000u16 != 0),
    {
        self.0 & 0x2000u16 != 0
    }

    /// Hold the device in sleep mode.
    pub fn with_sleep_mode(self, val: bool) -> (c: Self)
        ensures
            c.0 == self.0 & !0x2000u16 | (if val { 0x2000u16 } else { 0u16 }),
    {
        Self(self.0 & !0x2000u16 | (if val { 0x2000u16 } else { 0u16 }))
    }

    /// Override the sensor Rp with the drive-current registers.
    pub fn sensor_rp_override(&self) -> (r: bool)
        ensures
            r == (self.0 & 0x1000u16 != 0),
    {
        self.0 & 0x1000u16 != 0
    }

    /// Override the sensor Rp with the drive-current registers.
    pub fn with_sensor_rp_override(self, val: bool) -> (c: Self)
        ensures
            c.0 == self.0 & !0x1000u16 | (if val { 0x1000u16 } else { 0u16 }),
    {
        Self(self.0 & !0x1000u16 | (if val { 0x1000u16 } else { 0u16 }))
    }

    /// Activate sensors in low-power mode.
    pub fn sensor_activation_low_power(&self) -> (r: bool)
        ensures
            r == (self.0 & 0x0800u16 != 0),
    {
        self.0 & 0x0800u16 != 0
    }

    /// Activate sensors in low-power mode.
    pub fn with_sensor_activation_low_power(self, val: bool) -> (c: Self)
        ensures
            c.0 == self.0 & !0x0800u16 | (if val { 0x0800u16 } else { 0u16 }),
    {
        Self(self.0 & !0x0800u16 | (if val { 0x0800u16 } else { 0u16 }))
    }

    /// Correct the sensor amplitude automatically. The register field is inverted ("disable").
    pub fn automatic_sensor_amplitude_correction(&self) -> (r: bool)
        ensures
            r == (self.0 & 0x0400u16 == 0),
    {
        self.0 & 0x0400u16 == 0
    }

    /// Correct the sensor amplitude automatically. The register field is inverted ("disable").
    pub fn with_automatic_sensor_amplitude_correction(self, val: bool) -> (c: Self)
        ensures
            c.0 == self.0 & !0x0400u16 | (if val { 0u16 } else { 0x0400u16 }),
    {
        Self(self.0 & !0x0400u16 | (if val { 0u16 } else { 0x0400u16 }))
    }

    /// Take the reference clock from the external pin.
    pub fn reference_clock_external(&self) -> (r: bool)
        ensures
            r == (self.0 & 0x0200u16 != 0),
    {
        self.0 & 0x0200u16 != 0
    }

    /// Take the reference clock from the external pin.
    pub fn with_reference_clock_external(self, val: bool) -> (c: Self)
        ensures
            c.0 == self.0 & !0x0200u16 | (if val { 0x0200u16 } else { 0u16 }),
    {
        Self(self.0 & !0x0200u16 | (if val { 0x0200u16 } else { 0u16 }))
    }

    /// Assert the interrupt pin on status updates. The register field is inverted ("disable").
    pub fn interrupt_on_status_update(&self) -> (r: bool)
        ensures
            r == (self.0 & 0x0080u16 == 0),
    {
        self.0 & 0x0080u16 == 0
    }

    /// Assert the interrupt pin on status updates. The register field is inverted ("disable").
    pub fn with_interrupt_on_status_update(self, val: bool) -> (c: Self)
        ensures
            c.0 == self.0 & !0x0080u16 | (if val { 0u16 } else { 0x0080u16 }),
    {
        Self(self.0 & !0x0080u16 | (if val { 0u16 } else { 0x0080u16 }))
    }

    /// Drive channel 0 with more than 1.5 mA.
    pub fn high_current_sensor_drive(&self) -> (r: bool)
        ensures
            r == (self.0 & 0x0040u16 != 0),
    {
        self.0 & 0x0040u16 != 0
    }

    /// Drive channel 0 with more than 1.5 mA.
    pub fn with_high_current_sensor_drive(self, val: bool) -> (c: Self)
        ensures
            c.0 == self.0 & !0x0040u16 | (if val { 0x0040u16 } else { 0u16 }),
    {
        Self(self.0 & !0x0040u16 | (if val { 0x0040u16 } else { 0u16 }))
    }

}

/// Which channels an automatic scan walks.
#[derive(Clone, Copy, Debug, PartialEq, Eq, Structural)]
pub enum AutoScanSequence {
    /// Channels 0 and 1.
    ZeroOne,
    /// Channels 0, 1 and 2.
    ZeroOneTwo,
    /// All four channels.
    ZeroOneTwoThree,
}

/// The sequence as the register field encodes it.
pub open spec fn spec_scan_bits(s: AutoScanSequence) -> u16 {
    match s {
        AutoScanSequence::ZeroOne => 0,
        AutoScanSequence::ZeroOneTwo => 1,
        AutoScanSequence::ZeroOneTwoThree => 2,
    }
}

impl AutoScanSequence {
    /// The sequence as the register field encodes it.
    pub fn bits(self) -> (b: u16)
        ensures
            b == spec_scan_bits(self),
    {
        match self {
            AutoScanSequence::ZeroOne => 0,
            AutoScanSequence::ZeroOneTwo => 1,
            AutoScanSequence::ZeroOneTwoThree => 2,
        }
    }
}

/// Bandwidth of the input deglitch filter.
#[derive(Clone, Copy, Debug, PartialEq, Eq, Structural)]
pub enum Deglitch {
    /// 1 MHz.
    OneMHz,
    /// 3.3 MHz.
    ThreePointThreeMHz,
    /// 10 MHz.
    TenMHz,
    /// 33 MHz.
    ThirtyThreeMHz,
}

/// The bandwidth as the register field encodes it.
pub open spec fn spec_deglitch_bits(d: Deglitch) -> u16 {
    match d {
        Deglitch::OneMHz => 1,
        Deglitch::ThreePointThreeMHz => 4,
        Deglitch::TenMHz => 5,
        Deglitch::ThirtyThreeMHz => 7,
    }
}

impl Deglitch {
    /// The bandwidth as the register field encodes it.
    pub fn bits(self) -> (b: u16)
        ensures
            b == spec_deglitch_bits(self),
    {
        match self {
            Deglitch::OneMHz => 1,
            Deglitch::ThreePointThreeMHz => 4,
            Deglitch::TenMHz => 5,
            Deglitch::ThirtyThreeMHz => 7,
        }
    }
}

/// The channel-multiplexing register word.
#[derive(Clone, Copy, Debug, PartialEq, Eq, Structural)]
pub struct MuxConfig(pub u16);

impl Default for MuxConfig {
    /// Reserved bits at their data-sheet values and the default 33 MHz
    /// deglitch bandwidth.
    fn default() -> (c: Self)
        ensures
            c.0 == 0b0100_0001_111,
    {
        Self(0b0100_0001_111)
    }
}

impl MuxConfig {
    /// Convert the scan-sequence channels automatically.
    pub fn auto_scan(&self) -> (r: bool)
        ensures
            r == (self.0 & 0x8000u16 != 0),
    {
        self.0 & 0x8000u16 != 0
    }

    /// Convert the scan-sequence channels automatically.
    pub fn with_auto_scan(self, val: bool) -> (c: Self)
        ensures
            c.0 == self.0 & !0x8000u16 | (if val { 0x8000u16 } else { 0u16 }),
    {
        Self(self.0 & !0x8000u16 | (if val { 0x8000u16 } else { 0u16 }))
    }

    /// The channels an automatic scan walks; the reserved encoding reads as
    /// the two-channel sequence.
    pub fn auto_scan_sequence(&self) -> (s: AutoScanSequence)
        ensures
            ({
                let f = (self.0 >> 13u16) & 3;
                &&& (f == 0 || f == 3 ==> s is ZeroOne)
                &&& (f == 1 ==> s is ZeroOneTwo)
                &&& (f == 2 ==> s is ZeroOneTwoThree)
            }),
    {
        let w = self.0;
        let sel = (w >> 13u16) & 3;
        proof {
            assert((w >> 13u16) & 3 < 4) by (bit_vector);
        }
        if sel == 1 {
            AutoScanSequence::ZeroOneTwo
        } else if sel == 2 {
            AutoScanSequence::ZeroOneTwoThree
        } else {
            AutoScanSequence::ZeroOne
        }
    }

    /// The same word with the scan sequence replaced.
    pub fn with_auto_scan_sequence(self, ch: AutoScanSequence) -> (c: Self)
        ensures
            c.0 == self.0 & !0x6000u16 | spec_scan_bits(ch) << 13u16,
    {
        Self(self.0 & !0x6000u16 | ch.bits() << 13u16)
    }

    /// The deglitch-filter bandwidth, or the raw field value when it holds a
    /// reserved encoding.
    pub fn deglitch_filter_bandwidth(&self) -> (r: Result<Deglitch, u8>)
        ensures
            ({
                let f = self.0 & 7;
                &&& (f == 1 ==> r == Ok::<Deglitch, u8>(Deglitch::OneMHz))
                &&& (f == 4 ==> r == Ok::<Deglitch, u8>(Deglitch::ThreePointThreeMHz))
                &&& (f == 5 ==> r == Ok::<Deglitch, u8>(Deglitch::TenMHz))
                &&& (f == 7 ==> r == Ok::<Deglitch, u8>(Deglitch::ThirtyThreeMHz))
                &&& (f != 1 && f != 4 && f != 5 && f != 7 ==> (r matches Err(x) && x as u16 == f))
            }),
    {
        let w = self.0;
        let sel = w & 7;
        proof {
            assert(w & 7 < 8) by (bit_vector);
        }
        if sel == 1 {
            Ok(Deglitch::OneMHz)
        } else if sel == 4 {
            Ok(Deglitch::ThreePointThreeMHz)
        } else if sel == 5 {
            Ok(Deglitch::TenMHz)
        } else if sel == 7 {
            Ok(Deglitch::ThirtyThreeMHz)
        } else {
            Err(sel as u8)
        }
    }

    /// The same word with the deglitch-filter bandwidth replaced.
    pub fn with_deglitch_filter_bandwidth(self, bw: Deglitch) -> (c: Self)
        ensures
            c.0 == self.0 & !7u16 | spec_deglitch_bits(bw),
    {
        Self(self.0 & !7u16 | bw.bits())
    }
}

} // verus!
