//! Gain control and LED configuration types and methods.
use vstd::prelude::*;

use crate::register::Register;
use crate::{Apds9960, Error, RegisterBus};

verus! {
/// Proximity gain multiplier
#[derive(Debug, Clone, Copy, PartialEq, Eq, Structural)]
pub enum ProximityGain {
    /// 1x gain
    X1,
    /// 2x gain
    X2,
    /// 4x gain
    X4,
    /// 8x gain
    X8,
}

impl ProximityGain {
    /// The two-bit field value of this setting.
    pub open spec fn code(self) -> u8 {
        match self {
            ProximityGain::X1 => 0,
            ProximityGain::X2 => 1,
            ProximityGain::X4 => 2,
            ProximityGain::X8 => 3,
        }
    }

    /// The setting a two-bit field value stands for; only the low two bits count.
    pub open spec fn decoded(bits: u8) -> Self {
        let b = bits & 3;
        if b == 0 {
            ProximityGain::X1
        } else if b == 1 {
            ProximityGain::X2
        } else if b == 2 {
            ProximityGain::X4
        } else {
            ProximityGain::X8
        }
    }

    /// The two-bit field value of this setting.
    pub fn bits(self) -> (r: u8)
        ensures
            r == self.code(),
            r < 4,
    {
        match self {
            ProximityGain::X1 => 0,
            ProximityGain::X2 => 1,
            ProximityGain::X4 => 2,
            ProximityGain::X8 => 3,
        }
    }

    /// The setting that the low two bits of `bits` stand for.
    pub fn from_bits(bits: u8) -> (r: Self)
        ensures
            r == Self::decoded(bits),
    {
        let b = bits & 3;
        if b == 0 {
            ProximityGain::X1
        } else if b == 1 {
            ProximityGain::X2
        } else if b == 2 {
            ProximityGain::X4
        } else {
            ProximityGain::X8
        }
    }
}

/// Ambient light/color gain multiplier
#[derive(Debug, Clone, Copy, PartialEq, Eq, Structural)]
pub enum LightGain {
    /// 1x gain
    X1,
    /// 4x gain
    X4,
    /// 16x gain
    X16,
    /// 64x gain
    X64,
}

impl LightGain {
    /// The two-bit field value of this setting.
    pub open spec fn code(self) -> u8 {
        match self {
            LightGain::X1 => 0,
            LightGain::X4 => 1,
            LightGain::X16 => 2,
            LightGain::X64 => 3,
        }
    }

    /// The setting a two-bit field value stands for; only the low two bits count.
    pub open spec fn decoded(bits: u8) -> Self {
        let b = bits & 3;
        if b == 0 {
            LightGain::X1
        } else if b == 1 {
            LightGain::X4
        } else if b == 2 {
            LightGain::X16
        } else {
            LightGain::X64
        }
    }

    /// The two-bit field value of this setting.
    pub fn bits(self) -> (r: u8)
        ensures
            r == self.code(),
            r < 4,
    {
        match self {
            LightGain::X1 => 0,
            LightGain::X4 => 1,
            LightGain::X16 => 2,
            LightGain::X64 => 3,
        }
    }

    /// The setting that the low two bits of `bits` stand for.
    pub fn from_bits(bits: u8) -> (r: Self)
        ensures
            r == Self::decoded(bits),
    {
        let b = bits & 3;
        if b == 0 {
            LightGain::X1
        } else if b == 1 {
            LightGain::X4
        } else if b == 2 {
            LightGain::X16
        } else {
            LightGain::X64
        }
    }
}

/// Gesture gain multiplier
#[derive(Debug, Clone, Copy, PartialEq, Eq, Structural)]
pub enum GestureGain {
    /// 1x gain
    X1,
    /// 2x gain
    X2,
    /// 4x gain
    X4,
    /// 8x gain
    X8,
}

impl GestureGain {
    /// The two-bit field value of this setting.
    pub open spec fn code(self) -> u8 {
        match self {
            GestureGain::X1 => 0,
            GestureGain::X2 => 1,
            GestureGain::X4 => 2,
            GestureGain::X8 => 3,
        }
    }

    /// The setting a two-bit field value stands for; only the low two bits count.
    pub open spec fn decoded(bits: u8) -> Self {
        let b = bits & 3;
        if b == 0 {
            GestureGain::X1
        } else if b == 1 {
            GestureGain::X2
        } else if b == 2 {
            GestureGain::X4
        } else {
            GestureGain::X8
        }
    }

    /// The two-bit field value of this setting.
    pub fn bits(self) -> (r: u8)
        ensures
            r == self.code(),
            r < 4,
    {
        match self {
            GestureGain::X1 => 0,
            GestureGain::X2 => 1,
            GestureGain::X4 => 2,
            GestureGain::X8 => 3,
        }
    }

    /// The setting that the low two bits of `bits` stand for.
    pub fn from_bits(bits: u8) -> (r: Self)
        ensures
            r == Self::decoded(bits),
    {
        let b = bits & 3;
        if b == 0 {
            GestureGain::X1
        } else if b == 1 {
            GestureGain::X2
        } else if b == 2 {
            GestureGain::X4
        } else {
            GestureGain::X8
        }
    }
}

/// LED drive current
#[derive(Debug, Clone, Copy, PartialEq, Eq, Structural)]
pub enum LedDrive {
    /// 100 mA
    Ma100,
    /// 50 mA
    Ma50,
    /// 25 mA
    Ma25,
    /// 12.5 mA
    Ma12_5,
}

impl LedDrive {
    /// The two-bit field value of this setting.
    pub open spec fn code(self) -> u8 {
        match self {
            LedDrive::Ma100 => 0,
            LedDrive::Ma50 => 1,
            LedDrive::Ma25 => 2,
            LedDrive::Ma12_5 => 3,
        }
    }

    /// The setting a two-bit field value stands for; only the low two bits count.
    pub open spec fn decoded(bits: u8) -> Self {
        let b = bits & 3;
        if b == 0 {
            LedDrive::Ma100
        } else if b == 1 {
            LedDrive::Ma50
        } else if b == 2 {
            LedDrive::Ma25
        } else {
            LedDrive::Ma12_5
        }
    }

    /// The two-bit field value of this setting.
    pub fn bits(self) -> (r: u8)
        ensures
            r == self.code(),
            r < 4,
    {
        match self {
            LedDrive::Ma100 => 0,
            LedDrive::Ma50 => 1,
            LedDrive::Ma25 => 2,
            LedDrive::Ma12_5 => 3,
        }
    }

    /// The setting that the low two bits of `bits` stand for.
    pub fn from_bits(bits: u8) -> (r: Self)
        ensures
            r == Self::decoded(bits),
    {
        let b = bits & 3;
        if b == 0 {
            LedDrive::Ma100
        } else if b == 1 {
            LedDrive::Ma50
        } else if b == 2 {
            LedDrive::Ma25
        } else {
            LedDrive::Ma12_5
        }
    }
}

/// LED boost current
#[derive(Debug, Clone, Copy, PartialEq, Eq, Structural)]
pub enum LedBoost {
    /// 100%
    Percent100,
    /// 150%
    Percent150,
    /// 200%
    Percent200,
    /// 300%
    Percent300,
}

impl LedBoost {
    /// The two-bit field value of this setting.
    pub open spec fn code(self) -> u8 {
        match self {
            LedBoost::Percent100 => 0,
            LedBoost::Percent150 => 1,
            LedBoost::Percent200 => 2,
            LedBoost::Percent300 => 3,
        }
    }

    /// The setting a two-bit field value stands for; only the low two bits count.
    pub open spec fn decoded(bits: u8) -> Self {
        let b = bits & 3;
        if b == 0 {
            LedBoost::Percent100
        } else if b == 1 {
            LedBoost::Percent150
        } else if b == 2 {
            LedBoost::Percent200
        } else {
            LedBoost::Percent300
        }
    }

    /// The two-bit field value of this setting.
    pub fn bits(self) -> (r: u8)
        ensures
            r == self.code(),
            r < 4,
    {
        match self {
            LedBoost::Percent100 => 0,
            LedBoost::Percent150 => 1,
            LedBoost::Percent200 => 2,
            LedBoost::Percent300 => 3,
        }
    }

    /// The setting that the low two bits of `bits` stand for.
    pub fn from_bits(bits: u8) -> (r: Self)
        ensures
            r == Self::decoded(bits),
    {
        let b = bits & 3;
        if b == 0 {
            LedBoost::Percent100
        } else if b == 1 {
            LedBoost::Percent150
        } else if b == 2 {
            LedBoost::Percent200
        } else {
            LedBoost::Percent300
        }
    }
}

impl<I2C, E> Apds9960<I2C> where I2C: RegisterBus<Error = E> {
    /// Set proximity sensor gain: CONTROL bits 3:2.
    pub fn set_proximity_gain(&mut self, gain: ProximityGain) -> (r: Result<(), Error<E>>)
        ensures
            final(self).updated(
                old(self),
                Register::CONTROL,
                |c: u8| (c & 0xF3) | (gain.code() << 2u8),
                r is Ok,
            ),
            final(self).reports(r),
    {
        let control = self.read_register(Register::CONTROL)?;
        self.write_register(Register::CONTROL, (control & 0xF3) | (gain.bits() << 2u8))
    }

    /// Set ambient light/color sensor gain: CONTROL bits 1:0.
    pub fn set_light_gain(&mut self, gain: LightGain) -> (r: Result<(), Error<E>>)
        ensures
            final(self).updated(old(self), Register::CONTROL, |c: u8| (c & 0xFC) | gain.code(), r is Ok),
            final(self).reports(r),
    {
        let control = self.read_register(Register::CONTROL)?;
        self.write_register(Register::CONTROL, (control & 0xFC) | gain.bits())
    }

    /// Set gesture sensor gain: GCONF2 bits 6:5.
    pub fn set_gesture_gain(&mut self, gain: GestureGain) -> (r: Result<(), Error<E>>)
        ensures
            final(self).updated(
                old(self),
                Register::GCONF2,
                |c: u8| (c & 0x9F) | (gain.code() << 5u8),
                r is Ok,
            ),
            final(self).reports(r),
    {
        let gconf2 = self.read_register(Register::GCONF2)?;
        self.write_register(Register::GCONF2, (gconf2 & 0x9F) | (gain.bits() << 5u8))
    }

    /// Get gesture sensor gain.
    pub fn get_gesture_gain(&mut self) -> (r: Result<GestureGain, Error<E>>)
        ensures
            final(self).answered(old(self), Register::GCONF2, |c: u8| GestureGain::decoded(c >> 5u8), r),
    {
        let gconf2 = self.read_register(Register::GCONF2)?;
        Ok(GestureGain::from_bits(gconf2 >> 5u8))
    }

    /// Set LED drive current for proximity and ALS: CONTROL bits 7:6.
    pub fn set_led_drive(&mut self, drive: LedDrive) -> (r: Result<(), Error<E>>)
        ensures
            final(self).updated(
                old(self),
                Register::CONTROL,
                |c: u8| (c & 0x3F) | (drive.code() << 6u8),
                r is Ok,
            ),
            final(self).reports(r),
    {
        let control = self.read_register(Register::CONTROL)?;
        self.write_register(Register::CONTROL, (control & 0x3F) | (drive.bits() << 6u8))
    }

    /// Set gesture LED drive current: GCONF2 bits 4:3.
    pub fn set_gesture_led_drive(&mut self, drive: LedDrive) -> (r: Result<(), Error<E>>)
        ensures
            final(self).updated(
                old(self),
                Register::GCONF2,
                |c: u8| (c & 0xE7) | (drive.code() << 3u8),
                r is Ok,
            ),
            final(self).reports(r),
    {
        let gconf2 = self.read_register(Register::GCONF2)?;
        self.write_register(Register::GCONF2, (gconf2 & 0xE7) | (drive.bits() << 3u8))
    }

    /// Get gesture LED drive current.
    pub fn get_gesture_led_drive(&mut self) -> (r: Result<LedDrive, Error<E>>)
        ensures
            final(self).answered(old(self), Register::GCONF2, |c: u8| LedDrive::decoded(c >> 3u8), r),
    {
        let gconf2 = self.read_register(Register::GCONF2)?;
        Ok(LedDrive::from_bits(gconf2 >> 3u8))
    }

    /// Set LED boost current: CONFIG2 bits 5:4.
    pub fn set_led_boost(&mut self, boost: LedBoost) -> (r: Result<(), Error<E>>)
        ensures
            final(self).updated(
                old(self),
                Register::CONFIG2,
                |c: u8| (c & 0xCF) | (boost.code() << 4u8),
                r is Ok,
            ),
            final(self).reports(r),
    {
        let config2 = self.read_register(Register::CONFIG2)?;
        self.write_register(Register::CONFIG2, (config2 & 0xCF) | (boost.bits() << 4u8))
    }

    /// Set proximity pulse count and length.
    ///
    /// * `pulses`: number of pulses, 0 to 63 (the device sends one more)
    /// * `length`: pulse length (0 = 4 us, 1 = 8 us, 2 = 16 us, 3 = 32 us)
    pub fn set_proximity_pulse(&mut self, pulses: u8, length: u8) -> (r: Result<(), Error<E>>)
        ensures
            final(self).wrote(
                old(self),
                Register::PPULSE,
                ((length & 0x03) << 6u8) | (pulses & 0x3F),
                r is Ok,
            ),
            final(self).reports(r),
    {
        self.write_register(Register::PPULSE, ((length & 0x03) << 6u8) | (pulses & 0x3F))
    }

    /// Get proximity pulse count and length.
    pub fn get_proximity_pulse(&mut self) -> (r: Result<(u8, u8), Error<E>>)
        ensures
            final(self).answered(old(self), Register::PPULSE, |v: u8| (v & 0x3F, (v >> 6u8) & 0x03), r),
    {
        let value = self.read_register(Register::PPULSE)?;
        Ok((value & 0x3F, (value >> 6u8) & 0x03))
    }

    /// Set gesture pulse count and length.
    ///
    /// * `pulses`: number of pulses, 0 to 63 (the device sends one more)
    /// * `length`: pulse length (0 = 4 us, 1 = 8 us, 2 = 16 us, 3 = 32 us)
    pub fn set_gesture_pulse(&mut self, pulses: u8, length: u8) -> (r: Result<(), Error<E>>)
        ensures
            final(self).wrote(
                old(self),
                Register::GPULSE,
                ((length & 0x03) << 6u8) | (pulses & 0x3F),
                r is Ok,
            ),
            final(self).reports(r),
    {
        self.write_register(Register::GPULSE, ((length & 0x03) << 6u8) | (pulses & 0x3F))
    }

    /// Set gesture wait time between gesture detection cycles: GCONF2 bits
    /// 2:0 (0 = 0 ms, 1 = 2.8 ms, 2 = 5.6 ms, 3 = 8.4 ms, 4 = 14.0 ms,
    /// 5 = 22.4 ms, 6 = 30.8 ms, 7 = 39.2 ms).
    pub fn set_gesture_wait_time(&mut self, time: u8) -> (r: Result<(), Error<E>>)
        ensures
            final(self).updated(old(self), Register::GCONF2, |c: u8| (c & 0xF8) | (time & 0x07), r is Ok),
            final(self).reports(r),
    {
        let gconf2 = self.read_register(Register::GCONF2)?;
        self.write_register(Register::GCONF2, (gconf2 & 0xF8) | (time & 0x07))
    }

    /// Get gesture wait time between gesture detection cycles.
    pub fn get_gesture_wait_time(&mut self) -> (r: Result<u8, Error<E>>)
        ensures
            final(self).answered(old(self), Register::GCONF2, |c: u8| c & 0x07, r),
    {
        let gconf2 = self.read_register(Register::GCONF2)?;
        Ok(gconf2 & 0x07)
    }

    /// Get proximity sensor gain.
    pub fn get_proximity_gain(&mut self) -> (r: Result<ProximityGain, Error<E>>)
        ensures
            final(self).answered(old(self), Register::CONTROL, |c: u8| ProximityGain::decoded(c >> 2u8), r),
    {
        let control = self.read_register(Register::CONTROL)?;
        Ok(ProximityGain::from_bits(control >> 2u8))
    }

    /// Get ambient light/color sensor gain.
    pub fn get_light_gain(&mut self) -> (r: Result<LightGain, Error<E>>)
        ensures
            final(self).answered(old(self), Register::CONTROL, |c: u8| LightGain::decoded(c), r),
    {
        let control = self.read_register(Register::CONTROL)?;
        Ok(LightGain::from_bits(control))
    }

    /// Get LED drive current for proximity and ALS.
    pub fn get_led_drive(&mut self) -> (r: Result<LedDrive, Error<E>>)
        ensures
            final(self).answered(old(self), Register::CONTROL, |c: u8| LedDrive::decoded(c >> 6u8), r),
    {
        let control = self.read_register(Register::CONTROL)?;
        Ok(LedDrive::from_bits(control >> 6u8))
    }

    /// Get LED boost current.
    pub fn get_led_boost(&mut self) -> (r: Result<LedBoost, Error<E>>)
        ensures
            final(self).answered(old(self), Register::CONFIG2, |c: u8| LedBoost::decoded(c >> 4u8), r),
    {
        let config2 = self.read_register(Register::CONFIG2)?;
        Ok(LedBoost::from_bits(config2 >> 4u8))
    }
}

} // verus!
