//! Gesture engine configuration.
use vstd::prelude::*;

use crate::register::{flag_applied, with_flag, Enable, GConfig1, GConfig4, Register};
use crate::{is_cached_at, Apds9960, Error, GestureDataThreshold, RegisterBus, Transfer};

verus! {

/// The FIFO threshold bits (GFIFOTH1, GFIFOTH0) of a threshold.
pub open spec fn threshold_bits(threshold: GestureDataThreshold) -> (bool, bool) {
    match threshold {
        GestureDataThreshold::Th1 => (false, false),
        GestureDataThreshold::Th4 => (false, true),
        GestureDataThreshold::Th8 => (true, false),
        GestureDataThreshold::Th16 => (true, true),
    }
}

/// The GCONF3 value for the photodiode pairs to keep: bits 1:0 disable
/// up/down, bits 3:2 disable left/right.
pub open spec fn dimensions_value(up_down: bool, left_right: bool) -> u8 {
    (if up_down { 0u8 } else { 0b0000_0011u8 }) | (if left_right { 0u8 } else { 0b0000_1100u8 })
}

/// The two-bit exit persistence field for 1, 2, 4 or 7 occurrences; any
/// other count is taken as 2.
pub open spec fn exit_persistence_code(persistence: u8) -> u8 {
    if persistence == 1 {
        0
    } else if persistence == 4 {
        2
    } else if persistence == 7 {
        3
    } else {
        1
    }
}

impl<I2C, E> Apds9960<I2C> where I2C: RegisterBus<Error = E> {
    /// Enable gesture detection.
    pub fn enable_gesture(&mut self) -> (r: Result<(), Error<E>>)
        ensures
            final(self).flagged(old(self), Register::ENABLE, Enable::GEN, true, r is Ok),
            final(self).reports(r),
    {
        self.set_flag(Register::ENABLE, Enable::GEN, true)
    }

    /// Disable gesture detection.
    pub fn disable_gesture(&mut self) -> (r: Result<(), Error<E>>)
        ensures
            final(self).flagged(old(self), Register::ENABLE, Enable::GEN, false, r is Ok),
            final(self).reports(r),
    {
        self.set_flag(Register::ENABLE, Enable::GEN, false)
    }

    /// Enable gesture mode.
    ///
    /// The device also enters and leaves gesture mode by itself, depending
    /// on the proximity thresholds.
    pub fn enable_gesture_mode(&mut self) -> (r: Result<(), Error<E>>)
        ensures
            final(self).flagged(old(self), Register::GCONF4, GConfig4::GMODE, true, r is Ok),
            final(self).reports(r),
    {
        self.set_flag(Register::GCONF4, GConfig4::GMODE, true)
    }

    /// Disable gesture mode.
    pub fn disable_gesture_mode(&mut self) -> (r: Result<(), Error<E>>)
        ensures
            final(self).flagged(old(self), Register::GCONF4, GConfig4::GMODE, false, r is Ok),
            final(self).reports(r),
    {
        self.set_flag(Register::GCONF4, GConfig4::GMODE, false)
    }

    /// Enable gesture interrupt generation.
    pub fn enable_gesture_interrupts(&mut self) -> (r: Result<(), Error<E>>)
        ensures
            final(self).flagged(old(self), Register::GCONF4, GConfig4::GIEN, true, r is Ok),
            final(self).reports(r),
    {
        self.set_flag(Register::GCONF4, GConfig4::GIEN, true)
    }

    /// Disable gesture interrupt generation.
    pub fn disable_gesture_interrupts(&mut self) -> (r: Result<(), Error<E>>)
        ensures
            final(self).flagged(old(self), Register::GCONF4, GConfig4::GIEN, false, r is Ok),
            final(self).reports(r),
    {
        self.set_flag(Register::GCONF4, GConfig4::GIEN, false)
    }

    /// Set the threshold of amount of available data in the gesture FIFO.
    pub fn set_gesture_data_level_threshold(&mut self, threshold: GestureDataThreshold) -> (r: Result<
        (),
        Error<E>,
    >)
        ensures
            final(self).wrote(
                old(self),
                Register::GCONF1,
                flag_applied(
                    flag_applied(
                        old(self).cache()[Register::GCONF1],
                        GConfig1::GFIFOTH1,
                        threshold_bits(threshold).0,
                    ),
                    GConfig1::GFIFOTH0,
                    threshold_bits(threshold).1,
                ),
                r is Ok,
            ),
            final(self).reports(r),
    {
        let flags: (bool, bool) = match threshold {
            GestureDataThreshold::Th1 => (false, false),
            GestureDataThreshold::Th4 => (false, true),
            GestureDataThreshold::Th8 => (true, false),
            GestureDataThreshold::Th16 => (true, true),
        };
        let new = with_flag(
            with_flag(self.cached_value(Register::GCONF1), GConfig1::GFIFOTH1, flags.0),
            GConfig1::GFIFOTH0,
            flags.1,
        );
        self.write_register(Register::GCONF1, new)
    }

    /// Set the gesture proximity entry threshold.
    pub fn set_gesture_proximity_entry_threshold(&mut self, threshold: u8) -> (r: Result<(), Error<E>>)
        ensures
            final(self).wrote(old(self), Register::GPENTH, threshold, r is Ok),
            final(self).reports(r),
    {
        self.write_register(Register::GPENTH, threshold)
    }

    /// Set the gesture proximity exit threshold.
    pub fn set_gesture_proximity_exit_threshold(&mut self, threshold: u8) -> (r: Result<(), Error<E>>)
        ensures
            final(self).wrote(old(self), Register::GEXTH, threshold, r is Ok),
            final(self).reports(r),
    {
        self.write_register(Register::GEXTH, threshold)
    }

    /// Set the gesture up offset.
    pub fn set_gesture_up_offset(&mut self, offset: i8) -> (r: Result<(), Error<E>>)
        ensures
            final(self).wrote(old(self), Register::GOFFSET_U, offset as u8, r is Ok),
            final(self).reports(r),
    {
        self.write_register(Register::GOFFSET_U, offset as u8)
    }

    /// Set the gesture down offset.
    pub fn set_gesture_down_offset(&mut self, offset: i8) -> (r: Result<(), Error<E>>)
        ensures
            final(self).wrote(old(self), Register::GOFFSET_D, offset as u8, r is Ok),
            final(self).reports(r),
    {
        self.write_register(Register::GOFFSET_D, offset as u8)
    }

    /// Set the gesture left offset.
    pub fn set_gesture_left_offset(&mut self, offset: i8) -> (r: Result<(), Error<E>>)
        ensures
            final(self).wrote(old(self), Register::GOFFSET_L, offset as u8, r is Ok),
            final(self).reports(r),
    {
        self.write_register(Register::GOFFSET_L, offset as u8)
    }

    /// Set the gesture right offset.
    pub fn set_gesture_right_offset(&mut self, offset: i8) -> (r: Result<(), Error<E>>)
        ensures
            final(self).wrote(old(self), Register::GOFFSET_R, offset as u8, r is Ok),
            final(self).reports(r),
    {
        self.write_register(Register::GOFFSET_R, offset as u8)
    }

    /// Set the gesture up, down, left and right offsets in one transfer
    /// over registers GOFFSET_U to GOFFSET_R. The GPULSE register between
    /// the down and left offsets receives its own address (0xA6) and the
    /// reserved register 0xA8 receives 0.
    pub fn set_gesture_offsets(
        &mut self,
        offset_up: i8,
        offset_down: i8,
        offset_left: i8,
        offset_right: i8,
    ) -> (r: Result<(), Error<E>>)
        ensures
            final(self).logged(
                old(self),
                Transfer::Write {
                    start: Register::GOFFSET_U,
                    values: seq![
                        offset_up as u8,
                        offset_down as u8,
                        Register::GPULSE,
                        offset_left as u8,
                        0u8,
                        offset_right as u8,
                    ],
                    ok: r is Ok,
                },
            ),
            final(self).reports(r),
    {
        let values: [u8; 6] = [
            offset_up as u8,
            offset_down as u8,
            Register::GPULSE,
            offset_left as u8,
            0,
            offset_right as u8,
        ];
        assert(values@ =~= seq![
            offset_up as u8,
            offset_down as u8,
            Register::GPULSE,
            offset_left as u8,
            0u8,
            offset_right as u8,
        ]);
        assert(forall|i: int| 0 <= i < 6 ==> !#[trigger] is_cached_at(Register::GOFFSET_U, i));
        self.write_registers(Register::GOFFSET_U, &values)
    }

    /// Enable all gesture photodiodes during gesture mode.
    pub fn enable_all_gesture_photodiodes(&mut self) -> (r: Result<(), Error<E>>)
        ensures
            final(self).wrote(old(self), Register::GCONF3, 0u8, r is Ok),
            final(self).reports(r),
    {
        self.write_register(Register::GCONF3, 0u8)
    }

    /// Set which gesture photodiode pairs are enabled: `up_down` for up/down, `left_right` for left/right.
    pub fn set_gesture_dimensions(&mut self, up_down: bool, left_right: bool) -> (r: Result<(), Error<E>>)
        ensures
            final(self).wrote(old(self), Register::GCONF3, dimensions_value(up_down, left_right), r is Ok),
            final(self).reports(r),
    {
        let up_down_off: u8 = if up_down { 0 } else { 0b0000_0011 };
        let left_right_off: u8 = if left_right { 0 } else { 0b0000_1100 };
        let mask: u8 = up_down_off | left_right_off;
        self.write_register(Register::GCONF3, mask)
    }

    /// Set gesture exit persistence: the number of consecutive gesture end
    /// occurrences (1, 2, 4 or 7; any other count is taken as 2) to exit
    /// gesture mode. GCONF1 bits 6:5.
    pub fn set_gesture_exit_persistence(&mut self, persistence: u8) -> (r: Result<(), Error<E>>)
        ensures
            final(self).updated(
                old(self),
                Register::GCONF1,
                |c: u8| (c & 0x9F) | (exit_persistence_code(persistence) << 5u8),
                r is Ok,
            ),
            final(self).reports(r),
    {
        let value: u8 = if persistence == 1 {
            0b00
        } else if persistence == 2 {
            0b01
        } else if persistence == 4 {
            0b10
        } else if persistence == 7 {
            0b11
        } else {
            0b01
        };
        let gconf1 = self.read_register(Register::GCONF1)?;
        self.write_register(Register::GCONF1, (gconf1 & 0x9F) | (value << 5u8))
    }

    /// Set gesture exit mask: which photodiode pairs take part in the
    /// gesture exit comparison. GCONF1 bits 4:3 take the low two bits of
    /// `mask`.
    pub fn set_gesture_exit_mask(&mut self, mask: u8) -> (r: Result<(), Error<E>>)
        ensures
            final(self).updated(
                old(self),
                Register::GCONF1,
                |c: u8| (c & 0xE7) | ((mask & 0x03) << 3u8),
                r is Ok,
            ),
            final(self).reports(r),
    {
        let gconf1 = self.read_register(Register::GCONF1)?;
        self.write_register(Register::GCONF1, (gconf1 & 0xE7) | ((mask & 0x03) << 3u8))
    }

    /// Read gesture entry threshold.
    pub fn get_gesture_proximity_entry_threshold(&mut self) -> (r: Result<u8, Error<E>>)
        ensures
            final(self).answered(old(self), Register::GPENTH, |v: u8| v, r),
    {
        self.read_register(Register::GPENTH)
    }

    /// Read gesture exit threshold.
    pub fn get_gesture_proximity_exit_threshold(&mut self) -> (r: Result<u8, Error<E>>)
        ensures
            final(self).answered(old(self), Register::GEXTH, |v: u8| v, r),
    {
        self.read_register(Register::GEXTH)
    }

}

} // verus!
