//! Driver logic for TI LDC1312/LDC1314 and LDC1612/LDC1614
//! inductance-to-digital converters on an I2C bus.
//!
//! The driver owns the register map: which register each setting lives in,
//! how a 16-bit word crosses the two-byte wire, and how the error flags of a
//! conversion result decode. The bus itself is a port: the embedding
//! implements [`I2cBus`] over whatever I2C peripheral it has, and the driver
//! calls through it.

pub mod data;

use vstd::prelude::*;

use crate::ldc::data::Channel;
use crate::ldc::data::ClockDividers;
use crate::ldc::data::Config;
use crate::ldc::data::ErrorConfig;
use crate::ldc::data::MuxConfig;

verus! {

/// The two I2C transactions the driver needs. The embedding implements this
/// port over its bus peripheral; the driver promises nothing about what a
/// transaction returns, only how it decodes whatever comes back.
pub trait I2cBus {
    /// The bus's own error type.
    type BusError;

    /// Write the three bytes to the device at `address`.
    fn write(&mut self, address: u8, bytes: [u8; 3]) -> Result<(), Self::BusError>;

    /// Write the register number to the device at `address`, then read the
    /// two bytes of that register back.
    fn write_read(&mut self, address: u8, reg: u8) -> Result<[u8; 2], Self::BusError>;
}

/// What can go wrong talking to the converter: a bus failure, or an error
/// flag set in a conversion result.
#[derive(Debug)]
pub enum Error<BE> {
    /// The underlying I2C transaction failed.
    Bus(BE),
    /// The conversion was under range.
    ConversionUnderRange,
    /// The conversion was over range.
    ConversionOverRange,
    /// The conversion watchdog timed out.
    ConversionWatchdogTimeout,
    /// The sensor amplitude was out of bounds.
    ConversionAmplitude,
}

/// The three bytes of a register write: the register number, then the word
/// high byte first.
pub fn reg_write_bytes(reg: u8, data: u16) -> (b: [u8; 3])
    ensures
        b[0] == reg,
        b[1] as int == data as int / 256,
        b[2] as int == data as int % 256,
{
    proof {
        assert(data >> 8u16 < 256 && data >> 8u16 == data / 256 && (data & 0xff) == data % 256)
            by (bit_vector);
    }
    [reg, (data >> 8u16) as u8, (data & 0xff) as u8]
}

/// The register word carried by two bytes, high byte first.
pub fn word_from_bytes(bytes: [u8; 2]) -> (w: u16)
    ensures
        w as int == bytes[0] as int * 256 + bytes[1] as int,
{
    let hi = bytes[0];
    let lo = bytes[1];
    proof {
        assert((hi as u16) << 8u16 | lo as u16 == hi as u16 * 256 + lo as u16) by (bit_vector);
    }
    (hi as u16) << 8u16 | lo as u16
}

/// Decode a 12-bit conversion word: the top four bits are error flags,
/// checked most severe first, and the low twelve bits are the result.
pub fn decode_data_12bit<BE>(w: u16) -> (r: Result<u16, Error<BE>>)
    ensures
        w & 0x8000 != 0 ==> (r matches Err(e) && e is ConversionUnderRange),
        w & 0x8000 == 0 && w & 0x4000 != 0 ==> (r matches Err(e) && e is ConversionOverRange),
        w & 0x8000 == 0 && w & 0x4000 == 0 && w & 0x2000 != 0 ==> (r matches Err(e)
            && e is ConversionWatchdogTimeout),
        w & 0x8000 == 0 && w & 0x4000 == 0 && w & 0x2000 == 0 && w & 0x1000 != 0 ==> (r matches
            Err(e) && e is ConversionAmplitude),
        w & 0x8000 == 0 && w & 0x4000 == 0 && w & 0x2000 == 0 && w & 0x1000 == 0 ==> r == Ok::<
            u16,
            Error<BE>,
        >(w & 0x0fff),
        r matches Ok(v) ==> v < 4096,
{
    if w & 0x8000 != 0 {
        return Err(Error::ConversionUnderRange);
    }
    if w & 0x4000 != 0 {
        return Err(Error::ConversionOverRange);
    }
    if w & 0x2000 != 0 {
        return Err(Error::ConversionWatchdogTimeout);
    }
    if w & 0x1000 != 0 {
        return Err(Error::ConversionAmplitude);
    }
    proof {
        assert(w & 0x0fff < 4096) by (bit_vector);
    }
    Ok(w & 0x0fff)
}

/// A converter on an I2C bus, at a fixed device address.
pub struct Ldc<I2c> {
    bus: I2c,
    adr: u8,
}

impl<I2c: I2cBus> Ldc<I2c> {
    /// The device address the driver talks to.
    pub closed spec fn address(&self) -> u8 {
        self.adr
    }

    /// A driver for the converter at `adr` on `bus`.
    pub fn new(bus: I2c, adr: u8) -> (d: Self)
        ensures
            d.address() == adr,
    {
        Ldc { bus, adr }
    }

    /// Give the bus back, consuming the driver.
    pub fn into_bus(self) -> I2c {
        self.bus
    }

    /// Write a register word; a failure is the bus's.
    pub fn write_reg(&mut self, reg: u8, data: u16) -> (r: Result<(), Error<I2c::BusError>>)
        ensures
            final(self).address() == old(self).address(),
            r matches Err(e) ==> e is Bus,
    {
        let bytes = reg_write_bytes(reg, data);
        match self.bus.write(self.adr, bytes) {
            Ok(_) => Ok(()),
            Err(e) => Err(Error::Bus(e)),
        }
    }

    /// Read a register word; a failure is the bus's.
    pub fn read_reg(&mut self, reg: u8) -> (r: Result<u16, Error<I2c::BusError>>)
        ensures
            final(self).address() == old(self).address(),
            r matches Err(e) ==> e is Bus,
    {
        match self.bus.write_read(self.adr, reg) {
            Ok(bytes) => Ok(word_from_bytes(bytes)),
            Err(e) => Err(Error::Bus(e)),
        }
    }

    /// Read the conversion result of a channel on a 12-bit device
    /// (LDC131x). Error flags in the result come back as errors; reading
    /// clears them on the device.
    pub fn read_data_12bit(&mut self, ch: Channel) -> (r: Result<u16, Error<I2c::BusError>>)
        ensures
            final(self).address() == old(self).address(),
            r matches Ok(v) ==> v < 4096,
    {
        let w = match self.read_reg(2 * ch.index()) {
            Ok(w) => w,
            Err(e) => { return Err(e) },
        };
        decode_data_12bit(w)
    }

    /// Read the conversion result of a channel on a 24-bit device
    /// (LDC161x): the 12-bit word carries the error flags and the high bits,
    /// the companion register the low 16 bits.
    pub fn read_data_24bit(&mut self, ch: Channel) -> (r: Result<u32, Error<I2c::BusError>>)
        ensures
            final(self).address() == old(self).address(),
            r matches Ok(v) ==> v < 0x10000000,
    {
        let hi = match self.read_data_12bit(ch) {
            Ok(v) => v,
            Err(e) => { return Err(e) },
        };
        let lo = match self.read_reg(1 + 2 * ch.index()) {
            Ok(w) => w,
            Err(e) => { return Err(e) },
        };
        proof {
            assert(hi < 4096 ==> ((hi as u32) << 16u32 | lo as u32) < 0x10000000) by (bit_vector);
        }
        Ok((hi as u32) << 16u32 | lo as u32)
    }

    /// Set how many reference-clock counts one conversion of the channel
    /// integrates over.
    pub fn set_ref_count_conv_interval(&mut self, ch: Channel, intv: u16) -> (r: Result<
        (),
        Error<I2c::BusError>,
    >)
        ensures
            final(self).address() == old(self).address(),
            r matches Err(e) ==> e is Bus,
    {
        self.write_reg(0x08 + ch.index(), intv)
    }

    /// Set the settling count the channel waits before converting.
    pub fn set_conv_settling_time(&mut self, ch: Channel, cnt: u16) -> (r: Result<
        (),
        Error<I2c::BusError>,
    >)
        ensures
            final(self).address() == old(self).address(),
            r matches Err(e) ==> e is Bus,
    {
        self.write_reg(0x10 + ch.index(), cnt)
    }

    /// Set the channel's clock dividers: the sensor divider in the high
    /// four bits, the reference divider in the low twelve.
    pub fn set_clock_dividers(&mut self, ch: Channel, divs: ClockDividers) -> (r: Result<
        (),
        Error<I2c::BusError>,
    >)
        ensures
            final(self).address() == old(self).address(),
            r matches Err(e) ==> e is Bus,
    {
        self.write_reg(0x14 + ch.index(), divs.fin_div << 12u16 | divs.fref_div)
    }

    /// Write the error-configuration register.
    pub fn set_error_config(&mut self, conf: ErrorConfig) -> (r: Result<(), Error<I2c::BusError>>)
        ensures
            final(self).address() == old(self).address(),
            r matches Err(e) ==> e is Bus,
    {
        self.write_reg(0x19, conf.0)
    }

    /// Write the device-configuration register.
    pub fn set_config(&mut self, conf: Config) -> (r: Result<(), Error<I2c::BusError>>)
        ensures
            final(self).address() == old(self).address(),
            r matches Err(e) ==> e is Bus,
    {
        self.write_reg(0x1A, conf.0)
    }

    /// Write the channel-multiplexing register.
    pub fn set_mux_config(&mut self, conf: MuxConfig) -> (r: Result<(), Error<I2c::BusError>>)
        ensures
            final(self).address() == old(self).address(),
            r matches Err(e) ==> e is Bus,
    {
        self.write_reg(0x1B, conf.0)
    }

    /// Reset the device.
    pub fn reset(&mut self) -> (r: Result<(), Error<I2c::BusError>>)
        ensures
            final(self).address() == old(self).address(),
            r matches Err(e) ==> e is Bus,
    {
        self.write_reg(0x1C, 0x8000)
    }

    /// Set the channel's sensor drive current (a five-bit register field in
    /// the top bits).
    pub fn set_sensor_drive_current(&mut self, ch: Channel, cur: u8) -> (r: Result<
        (),
        Error<I2c::BusError>,
    >)
        ensures
            final(self).address() == old(self).address(),
            r matches Err(e) ==> e is Bus,
    {
        self.write_reg(0x1E + ch.index(), (cur as u16) << 11u16)
    }
}

} // verus!
