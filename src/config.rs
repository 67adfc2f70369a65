//! Common configuration: power, wait time, mode and interrupts.
use vstd::prelude::*;

use crate::register::{Config1, Enable, Register};
use crate::{read_value, writes_of, Apds9960, Error, RegisterBus, Transfer};

verus! {

/// The single-register writes of initialization before the light
/// thresholds: everything off, then the proximity defaults and the light
/// integration time.
pub open spec fn init_head() -> Seq<(u8, u8)> {
    seq![
        (Register::ENABLE, 0u8),
        (Register::PPULSE, 0x87u8),
        (Register::POFFSET_UR, 0u8),
        (Register::POFFSET_DL, 0u8),
        (Register::PILT, 0u8),
        (Register::PIHT, 50u8),
        (Register::ATIME, 0u8),
    ]
}

/// The single-register writes of initialization after the light
/// thresholds: persistence, wait, configuration, gesture defaults and gains,
/// then power on.
pub open spec fn init_tail() -> Seq<(u8, u8)> {
    seq![
        (Register::PERS, 0x40u8),
        (Register::WTIME, 246u8),
        (Register::CONFIG1, 0x60u8),
        (Register::CONFIG2, 0x01u8),
        (Register::CONFIG3, 0u8),
        (Register::GPENTH, 40u8),
        (Register::GEXTH, 30u8),
        (Register::GCONF1, 0x40u8),
        (Register::GCONF2, 0x41u8),
        (Register::GPULSE, 0xC9u8),
        (Register::GCONF3, 0u8),
        (Register::GCONF4, 0u8),
        (Register::GOFFSET_U, 0u8),
        (Register::GOFFSET_D, 0u8),
        (Register::GOFFSET_L, 0u8),
        (Register::GOFFSET_R, 0u8),
        (Register::CONTROL, 0x09u8),
        (Register::ENABLE, Enable::PON),
    ]
}

/// The light interrupt thresholds written by initialization: low 0xFFFF,
/// high 0, low byte first.
pub open spec fn init_thresholds() -> Seq<Transfer> {
    seq![
        Transfer::Write { start: Register::AILTL, values: seq![0xFFu8, 0xFFu8], ok: true },
        Transfer::Write { start: Register::AIHTL, values: seq![0u8, 0u8], ok: true },
    ]
}

/// Initialization: the device ID is read (`id` is what came back) to probe
/// the device, then the defaults are written.
pub open spec fn init_plan(id: u8) -> Seq<Transfer> {
    seq![Transfer::Read { address: Register::ID, value: Some(id) }] + writes_of(init_head())
        + init_thresholds() + writes_of(init_tail())
}

impl<I2C, E> Apds9960<I2C> where I2C: RegisterBus<Error = E> {
    /// Initialize the sensor with defaults: the device is probed by reading
    /// its ID, everything is turned off, then proximity (4x gain, 100 mA LED,
    /// thresholds 0 to 50, 4 cycles persistence), light (4x gain, 256 cycles
    /// integration time) and gesture (4x gain, 100 mA LED, entry threshold
    /// 40, exit threshold 30) defaults are written and power is turned on.
    /// The first transfer the bus refuses ends it.
    pub fn init(&mut self) -> (r: Result<(), Error<E>>)
        ensures
            final(self).carried_out(
                old(self),
                init_plan(read_value(final(self).transfers()[old(self).transfers().len() as int])),
                r is Ok,
            ),
            final(self).reports(r),
    {
        let ghost n = self.transfers().len() as int;
        let ghost s0 = *self;
        let r = self.read_device_id();
        let ghost id = read_value(self.transfers()[n]);
        let ghost probe_plan = seq![Transfer::Read { address: Register::ID, value: Some(id) }];
        let ghost head_plan = writes_of(init_head());
        let ghost threshold_plan = init_thresholds();
        let ghost tail_plan = writes_of(init_tail());
        let ghost low_plan = seq![threshold_plan[0]];
        let ghost high_plan = seq![threshold_plan[1]];
        proof {
            self.lemma_answered_plan(&s0, Register::ID, |v: u8| v, r);
            assert(init_plan(id) =~= probe_plan + (head_plan + threshold_plan + tail_plan));
        }
        if let Err(e) = r {
            proof {
                self.lemma_stop(&s0, probe_plan, head_plan + threshold_plan + tail_plan);
            }
            return Err(e);
        }
        let head: [(u8, u8); 7] = [
            (Register::ENABLE, 0),
            (Register::PPULSE, 0x87),
            (Register::POFFSET_UR, 0),
            (Register::POFFSET_DL, 0),
            (Register::PILT, 0),
            (Register::PIHT, 50),
            (Register::ATIME, 0),
        ];
        assert(head@ =~= init_head());
        let ghost s1 = *self;
        let r = self.write_each(&head);
        proof {
            self.lemma_chain(&s1, &s0, probe_plan, head_plan, r is Ok);
            assert(self.transfers().subrange(0, s1.transfers().len() as int)[n] == self.transfers()[n]);
            assert(init_plan(id) =~= probe_plan + head_plan + (threshold_plan + tail_plan));
        }
        if let Err(e) = r {
            proof {
                self.lemma_stop(&s0, probe_plan + head_plan, threshold_plan + tail_plan);
            }
            return Err(e);
        }
        let ghost s2 = *self;
        let r = self.write_double_register(Register::AILTL, 0xFFFF);
        proof {
            assert(0xFFFFu16 as u8 == 0xFFu8 && (0xFFFFu16 >> 8u16) as u8 == 0xFFu8) by (bit_vector);
            assert(seq![0xFFFFu16 as u8, (0xFFFFu16 >> 8u16) as u8] =~= seq![0xFFu8, 0xFFu8]);
            self.lemma_bulk_plan(&s2, Register::AILTL, seq![0xFFu8, 0xFFu8], r is Ok);
            self.lemma_chain(&s2, &s0, probe_plan + head_plan, low_plan, r is Ok);
            assert(self.transfers().subrange(0, s2.transfers().len() as int)[n] == self.transfers()[n]);
            assert(init_plan(id) =~= probe_plan + head_plan + low_plan + (high_plan + tail_plan));
        }
        if let Err(e) = r {
            proof {
                self.lemma_stop(&s0, probe_plan + head_plan + low_plan, high_plan + tail_plan);
            }
            return Err(e);
        }
        let ghost s3 = *self;
        let r = self.write_double_register(Register::AIHTL, 0);
        proof {
            assert(0u16 as u8 == 0u8 && (0u16 >> 8u16) as u8 == 0u8) by (bit_vector);
            assert(seq![0u16 as u8, (0u16 >> 8u16) as u8] =~= seq![0u8, 0u8]);
            self.lemma_bulk_plan(&s3, Register::AIHTL, seq![0u8, 0u8], r is Ok);
            self.lemma_chain(&s3, &s0, probe_plan + head_plan + low_plan, high_plan, r is Ok);
            assert(self.transfers().subrange(0, s3.transfers().len() as int)[n] == self.transfers()[n]);
            assert(probe_plan + head_plan + low_plan + high_plan =~= probe_plan + head_plan + threshold_plan);
            assert(init_plan(id) =~= probe_plan + head_plan + threshold_plan + tail_plan);
        }
        if let Err(e) = r {
            proof {
                self.lemma_stop(&s0, probe_plan + head_plan + threshold_plan, tail_plan);
            }
            return Err(e);
        }
        let tail: [(u8, u8); 18] = [
            (Register::PERS, 0x40),
            (Register::WTIME, 246),
            (Register::CONFIG1, 0x60),
            (Register::CONFIG2, 0x01),
            (Register::CONFIG3, 0),
            (Register::GPENTH, 40),
            (Register::GEXTH, 30),
            (Register::GCONF1, 0x40),
            (Register::GCONF2, 0x41),
            (Register::GPULSE, 0xC9),
            (Register::GCONF3, 0),
            (Register::GCONF4, 0),
            (Register::GOFFSET_U, 0),
            (Register::GOFFSET_D, 0),
            (Register::GOFFSET_L, 0),
            (Register::GOFFSET_R, 0),
            (Register::CONTROL, 0x09),
            (Register::ENABLE, Enable::PON),
        ];
        assert(tail@ =~= init_tail());
        let ghost s4 = *self;
        let r = self.write_each(&tail);
        proof {
            self.lemma_chain(&s4, &s0, probe_plan + head_plan + threshold_plan, tail_plan, r is Ok);
            assert(self.transfers().subrange(0, s4.transfers().len() as int)[n] == self.transfers()[n]);
        }
        r
    }

    /// Writes each `(address, value)` pair in order, stopping at the first
    /// write the bus refuses.
    pub(crate) fn write_each(&mut self, pairs: &[(u8, u8)]) -> (r: Result<(), Error<E>>)
        ensures
            final(self).carried_out(old(self), writes_of(pairs@), r is Ok),
            final(self).reports(r),
    {
        let ghost s0 = *self;
        proof {
            self.lemma_nothing();
            assert(writes_of(pairs@.take(0)) =~= Seq::<Transfer>::empty());
        }
        let mut i: usize = 0;
        while i < pairs.len()
            invariant
                i <= pairs@.len(),
                s0 == *old(self),
                self.carried_out(&s0, writes_of(pairs@.take(i as int)), true),
            decreases pairs@.len() - i,
        {
            let (address, value) = pairs[i];
            let ghost mid = *self;
            let ghost done = writes_of(pairs@.take(i as int));
            let ghost step = seq![Transfer::Write { start: address, values: seq![value], ok: true }];
            let r = self.write_register(address, value);
            proof {
                self.lemma_wrote_plan(&mid, address, value, r is Ok);
                self.lemma_chain(&mid, &s0, done, step, r is Ok);
                assert(done + step =~= writes_of(pairs@.take(i + 1)));
            }
            if let Err(e) = r {
                proof {
                    self.lemma_stop(&s0, done + step, writes_of(pairs@.skip(i + 1)));
                    assert(done + step + writes_of(pairs@.skip(i + 1)) =~= writes_of(pairs@));
                }
                return Err(e);
            }
            i = i + 1;
        }
        assert(pairs@.take(i as int) =~= pairs@);
        Ok(())
    }

    /// Turn power on.
    pub fn enable(&mut self) -> (r: Result<(), Error<E>>)
        ensures
            final(self).flagged(old(self), Register::ENABLE, Enable::PON, true, r is Ok),
            final(self).reports(r),
    {
        self.set_flag(Register::ENABLE, Enable::PON, true)
    }

    /// Turn power on, leaving the engines as they are.
    pub fn enable_power(&mut self) -> (r: Result<(), Error<E>>)
        ensures
            final(self).flagged(old(self), Register::ENABLE, Enable::PON, true, r is Ok),
            final(self).reports(r),
    {
        self.enable()
    }

    /// Turn power and every engine off.
    pub fn disable_power(&mut self) -> (r: Result<(), Error<E>>)
        ensures
            final(self).flagged(old(self), Register::ENABLE, Enable::ALL, false, r is Ok),
            final(self).reports(r),
    {
        self.disable()
    }

    /// Set the ENABLE register, read first from the device, to `mode`.
    pub fn set_mode(&mut self, mode: u8) -> (r: Result<(), Error<E>>)
        ensures
            final(self).updated(
                old(self),
                Register::ENABLE,
                |v: u8| (v & !Enable::ALL) | mode,
                r is Ok,
            ),
            final(self).reports(r),
    {
        let enable = self.read_register(Register::ENABLE)?;
        self.write_register(Register::ENABLE, (enable & !Enable::ALL) | mode)
    }

    /// Read the current enable register (mode bits).
    pub fn get_mode(&mut self) -> (r: Result<u8, Error<E>>)
        ensures
            final(self).answered(old(self), Register::ENABLE, |v: u8| v, r),
    {
        self.read_register(Register::ENABLE)
    }

    /// Read the device ID register.
    pub fn read_device_id(&mut self) -> (r: Result<u8, Error<E>>)
        ensures
            final(self).answered(old(self), Register::ID, |v: u8| v, r),
    {
        self.read_register(Register::ID)
    }

    /// Deactivate everything and put the device to sleep.
    pub fn disable(&mut self) -> (r: Result<(), Error<E>>)
        ensures
            final(self).flagged(old(self), Register::ENABLE, Enable::ALL, false, r is Ok),
            final(self).reports(r),
    {
        self.set_flag(Register::ENABLE, Enable::ALL, false)
    }

    /// Enable the wait feature: a delay between proximity and / or color and
    /// ambient light cycles.
    pub fn enable_wait(&mut self) -> (r: Result<(), Error<E>>)
        ensures
            final(self).flagged(old(self), Register::ENABLE, Enable::WEN, true, r is Ok),
            final(self).reports(r),
    {
        self.set_flag(Register::ENABLE, Enable::WEN, true)
    }

    /// Disable the wait feature.
    pub fn disable_wait(&mut self) -> (r: Result<(), Error<E>>)
        ensures
            final(self).flagged(old(self), Register::ENABLE, Enable::WEN, false, r is Ok),
            final(self).reports(r),
    {
        self.set_flag(Register::ENABLE, Enable::WEN, false)
    }

    /// Enable long wait: the wait time is multiplied by 12.
    pub fn enable_wait_long(&mut self) -> (r: Result<(), Error<E>>)
        ensures
            final(self).flagged(old(self), Register::CONFIG1, Config1::WLONG, true, r is Ok),
            final(self).reports(r),
    {
        self.set_flag(Register::CONFIG1, Config1::WLONG, true)
    }

    /// Disable long wait.
    pub fn disable_wait_long(&mut self) -> (r: Result<(), Error<E>>)
        ensures
            final(self).flagged(old(self), Register::CONFIG1, Config1::WLONG, false, r is Ok),
            final(self).reports(r),
    {
        self.set_flag(Register::CONFIG1, Config1::WLONG, false)
    }

    /// Set the waiting time between proximity and / or color and ambient
    /// light cycles, as the 2's complement of the number of 2.78 ms cycles.
    pub fn set_wait_time(&mut self, value: u8) -> (r: Result<(), Error<E>>)
        ensures
            final(self).wrote(old(self), Register::WTIME, value, r is Ok),
            final(self).reports(r),
    {
        self.write_register(Register::WTIME, value)
    }

    /// Force an interrupt.
    pub fn force_interrupt(&mut self) -> (r: Result<(), Error<E>>)
        ensures
            final(self).logged(
                old(self),
                Transfer::Write { start: Register::IFORCE, values: seq![], ok: r is Ok },
            ),
            final(self).reports(r),
    {
        self.touch_register(Register::IFORCE)
    }

    /// Clear all non-gesture interrupts.
    pub fn clear_interrupts(&mut self) -> (r: Result<(), Error<E>>)
        ensures
            final(self).logged(
                old(self),
                Transfer::Write { start: Register::AICLEAR, values: seq![], ok: r is Ok },
            ),
            final(self).reports(r),
    {
        self.touch_register(Register::AICLEAR)
    }
}

} // verus!
