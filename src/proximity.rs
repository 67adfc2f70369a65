//! Proximity engine configuration and data.
use vstd::prelude::*;

use crate::gains::ProximityGain;
use crate::register::{
    flag_applied, flag_is, flag_reads, Config2, Config3, Enable, Pers, Register, Status,
};
use crate::{is_cached_at, read_value, write_of, Apds9960, Error, RegisterBus, Transfer};

verus! {

/// Turning the proximity sensor on: with `control` read from CONTROL and
/// `enable` the cached ENABLE value, the proximity gain is set to 4x, the
/// proximity interrupts set as `interrupts` says, then power and the
/// proximity engine are turned on.
pub open spec fn proximity_on_plan(control: u8, enable: u8, interrupts: bool) -> Seq<Transfer> {
    let e1 = flag_applied(enable, Enable::PIEN, interrupts);
    let e2 = flag_applied(e1, Enable::PON, true);
    let e3 = flag_applied(e2, Enable::PEN, true);
    seq![
        Transfer::Read { address: Register::CONTROL, value: Some(control) },
        write_of(Register::CONTROL, (control & 0xF3) | (ProximityGain::X4.code() << 2u8)),
        write_of(Register::ENABLE, e1),
        write_of(Register::ENABLE, e2),
        write_of(Register::ENABLE, e3),
    ]
}

/// Turning the proximity sensor off, from the cached ENABLE value: first
/// the proximity interrupts, then the proximity engine.
pub open spec fn proximity_off_plan(enable: u8) -> Seq<Transfer> {
    let e1 = flag_applied(enable, Enable::PIEN, false);
    let e2 = flag_applied(e1, Enable::PEN, false);
    seq![write_of(Register::ENABLE, e1), write_of(Register::ENABLE, e2)]
}

impl<I2C, E> Apds9960<I2C> where I2C: RegisterBus<Error = E> {
    /// Enable proximity detection.
    pub fn enable_proximity(&mut self) -> (r: Result<(), Error<E>>)
        ensures
            final(self).flagged(old(self), Register::ENABLE, Enable::PEN, true, r is Ok),
            final(self).reports(r),
    {
        self.set_flag(Register::ENABLE, Enable::PEN, true)
    }

    /// Disable proximity detection.
    pub fn disable_proximity(&mut self) -> (r: Result<(), Error<E>>)
        ensures
            final(self).flagged(old(self), Register::ENABLE, Enable::PEN, false, r is Ok),
            final(self).reports(r),
    {
        self.set_flag(Register::ENABLE, Enable::PEN, false)
    }

    /// Enable the proximity sensor: 4x gain, interrupts on or off as
    /// `interrupts` says, power and proximity detection on. The first
    /// transfer the bus refuses ends it.
    pub fn enable_proximity_sensor(&mut self, interrupts: bool) -> (r: Result<(), Error<E>>)
        ensures
            final(self).carried_out(
                old(self),
                proximity_on_plan(
                    read_value(final(self).transfers()[old(self).transfers().len() as int]),
                    old(self).cache()[Register::ENABLE],
                    interrupts,
                ),
                r is Ok,
            ),
            final(self).reports(r),
    {
        let ghost n = self.transfers().len() as int;
        let ghost s0 = *self;
        let r = self.set_proximity_gain(ProximityGain::X4);
        let ghost control = read_value(self.transfers()[n]);
        let ghost plan = proximity_on_plan(control, s0.cache()[Register::ENABLE], interrupts);
        proof {
            self.lemma_updated_plan(
                &s0,
                Register::CONTROL,
                |c: u8| (c & 0xF3) | (ProximityGain::X4.code() << 2u8),
                r is Ok,
            );
            assert(plan =~= plan.take(2) + plan.skip(2));
            assert(plan.take(2) =~= seq![plan[0], plan[1]]);
        }
        if let Err(e) = r {
            proof {
                self.lemma_stop(&s0, plan.take(2), plan.skip(2));
            }
            return Err(e);
        }
        let ghost s1 = *self;
        let r = if interrupts {
            self.enable_proximity_interrupts()
        } else {
            self.disable_proximity_interrupts()
        };
        proof {
            self.lemma_wrote_plan(&s1, Register::ENABLE, plan[2]->values[0], r is Ok);
            assert(plan[2] == write_of(Register::ENABLE, plan[2]->values[0]));
            self.lemma_chain(&s1, &s0, plan.take(2), seq![plan[2]], r is Ok);
            assert(self.transfers().subrange(0, s1.transfers().len() as int)[n] == self.transfers()[n]);
            assert(plan.take(2) + seq![plan[2]] =~= plan.take(3));
            assert(plan =~= plan.take(3) + plan.skip(3));
        }
        if let Err(e) = r {
            proof {
                self.lemma_stop(&s0, plan.take(3), plan.skip(3));
            }
            return Err(e);
        }
        let ghost s2 = *self;
        let r = self.enable();
        proof {
            self.lemma_wrote_plan(&s2, Register::ENABLE, plan[3]->values[0], r is Ok);
            assert(plan[3] == write_of(Register::ENABLE, plan[3]->values[0]));
            self.lemma_chain(&s2, &s0, plan.take(3), seq![plan[3]], r is Ok);
            assert(self.transfers().subrange(0, s2.transfers().len() as int)[n] == self.transfers()[n]);
            assert(plan.take(3) + seq![plan[3]] =~= plan.take(4));
            assert(plan =~= plan.take(4) + plan.skip(4));
        }
        if let Err(e) = r {
            proof {
                self.lemma_stop(&s0, plan.take(4), plan.skip(4));
            }
            return Err(e);
        }
        let ghost s3 = *self;
        let r = self.enable_proximity();
        proof {
            self.lemma_wrote_plan(&s3, Register::ENABLE, plan[4]->values[0], r is Ok);
            assert(plan[4] == write_of(Register::ENABLE, plan[4]->values[0]));
            self.lemma_chain(&s3, &s0, plan.take(4), seq![plan[4]], r is Ok);
            assert(self.transfers().subrange(0, s3.transfers().len() as int)[n] == self.transfers()[n]);
            assert(plan.take(4) + seq![plan[4]] =~= plan);
        }
        r
    }

    /// Disable the proximity sensor: proximity interrupts off, then
    /// proximity detection off. A refused first write ends it.
    pub fn disable_proximity_sensor(&mut self) -> (r: Result<(), Error<E>>)
        ensures
            final(self).carried_out(
                old(self),
                proximity_off_plan(old(self).cache()[Register::ENABLE]),
                r is Ok,
            ),
            final(self).reports(r),
    {
        let ghost s0 = *self;
        let ghost plan = proximity_off_plan(s0.cache()[Register::ENABLE]);
        let r = self.disable_proximity_interrupts();
        proof {
            self.lemma_wrote_plan(&s0, Register::ENABLE, plan[0]->values[0], r is Ok);
            assert(plan[0] == write_of(Register::ENABLE, plan[0]->values[0]));
            assert(plan =~= seq![plan[0]] + seq![plan[1]]);
        }
        if let Err(e) = r {
            proof {
                self.lemma_stop(&s0, seq![plan[0]], seq![plan[1]]);
            }
            return Err(e);
        }
        let ghost s1 = *self;
        let r = self.disable_proximity();
        proof {
            self.lemma_wrote_plan(&s1, Register::ENABLE, plan[1]->values[0], r is Ok);
            assert(plan[1] == write_of(Register::ENABLE, plan[1]->values[0]));
            self.lemma_chain(&s1, &s0, seq![plan[0]], seq![plan[1]], r is Ok);
        }
        r
    }

    /// Enable proximity interrupt generation.
    pub fn enable_proximity_interrupts(&mut self) -> (r: Result<(), Error<E>>)
        ensures
            final(self).flagged(old(self), Register::ENABLE, Enable::PIEN, true, r is Ok),
            final(self).reports(r),
    {
        self.set_flag(Register::ENABLE, Enable::PIEN, true)
    }

    /// Disable proximity interrupt generation.
    pub fn disable_proximity_interrupts(&mut self) -> (r: Result<(), Error<E>>)
        ensures
            final(self).flagged(old(self), Register::ENABLE, Enable::PIEN, false, r is Ok),
            final(self).reports(r),
    {
        self.set_flag(Register::ENABLE, Enable::PIEN, false)
    }

    /// Enable proximity saturation interrupt generation.
    pub fn enable_proximity_saturation_interrupts(&mut self) -> (r: Result<(), Error<E>>)
        ensures
            final(self).flagged(old(self), Register::CONFIG2, Config2::PSIEN, true, r is Ok),
            final(self).reports(r),
    {
        self.set_flag(Register::CONFIG2, Config2::PSIEN, true)
    }

    /// Disable proximity saturation interrupt generation.
    pub fn disable_proximity_saturation_interrupts(&mut self) -> (r: Result<(), Error<E>>)
        ensures
            final(self).flagged(old(self), Register::CONFIG2, Config2::PSIEN, false, r is Ok),
            final(self).reports(r),
    {
        self.set_flag(Register::CONFIG2, Config2::PSIEN, false)
    }

    /// Set the proximity interrupt low threshold.
    pub fn set_proximity_low_threshold(&mut self, threshold: u8) -> (r: Result<(), Error<E>>)
        ensures
            final(self).wrote(old(self), Register::PILT, threshold, r is Ok),
            final(self).reports(r),
    {
        self.write_register(Register::PILT, threshold)
    }

    /// Get the proximity interrupt low threshold.
    pub fn get_proximity_low_threshold(&mut self) -> (r: Result<u8, Error<E>>)
        ensures
            final(self).answered(old(self), Register::PILT, |v: u8| v, r),
    {
        self.read_register(Register::PILT)
    }

    /// Set the proximity interrupt high threshold.
    pub fn set_proximity_high_threshold(&mut self, threshold: u8) -> (r: Result<(), Error<E>>)
        ensures
            final(self).wrote(old(self), Register::PIHT, threshold, r is Ok),
            final(self).reports(r),
    {
        self.write_register(Register::PIHT, threshold)
    }

    /// Get the proximity interrupt high threshold.
    pub fn get_proximity_high_threshold(&mut self) -> (r: Result<u8, Error<E>>)
        ensures
            final(self).answered(old(self), Register::PIHT, |v: u8| v, r),
    {
        self.read_register(Register::PIHT)
    }

    /// Set the proximity up/right photodiode offset.
    pub fn set_proximity_up_right_offset(&mut self, offset: i8) -> (r: Result<(), Error<E>>)
        ensures
            final(self).wrote(old(self), Register::POFFSET_UR, offset as u8, r is Ok),
            final(self).reports(r),
    {
        self.write_register(Register::POFFSET_UR, offset as u8)
    }

    /// Set the proximity down/left photodiode offset.
    pub fn set_proximity_down_left_offset(&mut self, offset: i8) -> (r: Result<(), Error<E>>)
        ensures
            final(self).wrote(old(self), Register::POFFSET_DL, offset as u8, r is Ok),
            final(self).reports(r),
    {
        self.write_register(Register::POFFSET_DL, offset as u8)
    }

    /// Set the proximity up/right and down/left photodiode offsets in one
    /// transfer.
    pub fn set_proximity_offsets(&mut self, offset_up_right: i8, offset_down_left: i8) -> (r: Result<
        (),
        Error<E>,
    >)
        ensures
            final(self).logged(
                old(self),
                Transfer::Write {
                    start: Register::POFFSET_UR,
                    values: seq![offset_up_right as u8, offset_down_left as u8],
                    ok: r is Ok,
                },
            ),
            final(self).reports(r),
    {
        let values: [u8; 2] = [offset_up_right as u8, offset_down_left as u8];
        assert(values@ =~= seq![offset_up_right as u8, offset_down_left as u8]);
        assert(!is_cached_at(Register::POFFSET_UR, 0) && !is_cached_at(Register::POFFSET_UR, 1));
        self.write_registers(Register::POFFSET_UR, &values)
    }

    /// Set proximity interrupt persistence: the number of consecutive
    /// out-of-threshold cycles (0 to 15) before an interrupt.
    pub fn set_proximity_interrupt_persistence(&mut self, cycles: u8) -> (r: Result<(), Error<E>>)
        ensures
            final(self).updated(
                old(self),
                Register::PERS,
                |p: u8| (p & !Pers::PPERS_MASK) | ((cycles & 0x0F) << Pers::PPERS_SHIFT),
                r is Ok,
            ),
            final(self).reports(r),
    {
        let pers = self.read_register(Register::PERS)?;
        self.write_register(
            Register::PERS,
            (pers & !Pers::PPERS_MASK) | ((cycles & 0x0F) << Pers::PPERS_SHIFT),
        )
    }

    /// Get proximity interrupt persistence.
    pub fn get_proximity_interrupt_persistence(&mut self) -> (r: Result<u8, Error<E>>)
        ensures
            final(self).answered(
                old(self),
                Register::PERS,
                |v: u8| (v & Pers::PPERS_MASK) >> Pers::PPERS_SHIFT,
                r,
            ),
    {
        let pers = self.read_register(Register::PERS)?;
        Ok((pers & Pers::PPERS_MASK) >> Pers::PPERS_SHIFT)
    }

    /// Enable proximity gain compensation.
    pub fn enable_proximity_gain_compensation(&mut self) -> (r: Result<(), Error<E>>)
        ensures
            final(self).flagged(old(self), Register::CONFIG3, Config3::PCMP, true, r is Ok),
            final(self).reports(r),
    {
        self.set_flag(Register::CONFIG3, Config3::PCMP, true)
    }

    /// Disable proximity gain compensation.
    pub fn disable_proximity_gain_compensation(&mut self) -> (r: Result<(), Error<E>>)
        ensures
            final(self).flagged(old(self), Register::CONFIG3, Config3::PCMP, false, r is Ok),
            final(self).reports(r),
    {
        self.set_flag(Register::CONFIG3, Config3::PCMP, false)
    }

    /// Get proximity gain compensation status: 1 when enabled.
    pub fn get_proximity_gain_compensation(&mut self) -> (r: Result<u8, Error<E>>)
        ensures
            final(self).answered(old(self), Register::CONFIG3, |v: u8| (v >> 5u8) & 0x01, r),
    {
        let config3 = self.read_register(Register::CONFIG3)?;
        Ok((config3 >> 5u8) & 0x01)
    }

    /// Set proximity photodiode mask: bit 0 right, 1 left, 2 down, 3 up; a
    /// set bit disables that photodiode.
    pub fn set_proximity_photodiode_mask(&mut self, mask: u8) -> (r: Result<(), Error<E>>)
        ensures
            final(self).updated(
                old(self),
                Register::CONFIG3,
                |c: u8| (c & 0xF0) | (mask & 0x0F),
                r is Ok,
            ),
            final(self).reports(r),
    {
        let config3 = self.read_register(Register::CONFIG3)?;
        self.write_register(Register::CONFIG3, (config3 & 0xF0) | (mask & 0x0F))
    }

    /// Get proximity photodiode mask.
    pub fn get_proximity_photodiode_mask(&mut self) -> (r: Result<u8, Error<E>>)
        ensures
            final(self).answered(old(self), Register::CONFIG3, |v: u8| v & 0x0F, r),
    {
        let config3 = self.read_register(Register::CONFIG3)?;
        Ok(config3 & 0x0F)
    }

    /// Clear proximity interrupt.
    pub fn clear_proximity_interrupt(&mut self) -> (r: Result<(), Error<E>>)
        ensures
            final(self).logged(
                old(self),
                Transfer::Write { start: Register::PICLEAR, values: seq![], ok: r is Ok },
            ),
            final(self).reports(r),
    {
        self.touch_register(Register::PICLEAR)
    }

    /// Read whether the proximity sensor data is valid.
    pub fn is_proximity_data_valid(&mut self) -> (r: Result<bool, Error<E>>)
        ensures
            final(self).answered(old(self), Register::STATUS, |v: u8| flag_reads(v, Status::PVALID, true), r),
    {
        let status = self.read_register(Register::STATUS)?;
        Ok(flag_is(status, Status::PVALID, true))
    }

    /// Read the proximity sensor data: `WouldBlock` as long as the status
    /// reports no valid data.
    pub fn read_proximity(&mut self) -> (r: nb::Result<u8, Error<E>>)
        ensures
            ({
                let n = old(self).transfers().len() as int;
                let ts = final(self).transfers();
                &&& n < ts.len()
                &&& ts.subrange(0, n) == old(self).transfers()
                &&& final(self).cache() == old(self).cache()
                &&& final(self).degrees() == old(self).degrees()
                &&& final(self).reports_nb(r)
                &&& match ts[n] {
                    Transfer::Read { address, value } => {
                        &&& address == Register::STATUS
                        &&& match value {
                            None => ts.len() == n + 1 && r matches Err(nb::Error::Other(Error::I2C(_))),
                            Some(s) => if !flag_reads(s, Status::PVALID, true) {
                                ts.len() == n + 1 && r matches Err(nb::Error::WouldBlock)
                            } else {
                                &&& ts.len() == n + 2
                                &&& ts[n + 1] matches Transfer::Read { address: a, value: p }
                                &&& a == Register::PDATA
                                &&& match p {
                                    Some(p) => r == Ok::<u8, nb::Error<Error<E>>>(p),
                                    None => r matches Err(nb::Error::Other(Error::I2C(_))),
                                }
                            },
                        }
                    },
                    _ => false,
                }
            }),
    {
        let ghost n = old(self).transfers().len() as int;
        let valid = match self.is_proximity_data_valid() {
            Ok(v) => v,
            Err(e) => {
                assert(self.transfers().subrange(0, n) =~= old(self).transfers());
                return Err(nb::Error::Other(e));
            },
        };
        assert(self.transfers().subrange(0, n) =~= old(self).transfers());
        if !valid {
            return Err(nb::Error::WouldBlock);
        }
        let ghost mid = self.transfers();
        let r = self.read_register(Register::PDATA);
        assert(self.transfers().subrange(0, n) =~= old(self).transfers());
        assert(self.transfers()[n] == mid[n]);
        match r {
            Ok(p) => Ok(p),
            Err(e) => Err(nb::Error::Other(e)),
        }
    }
}

} // verus!
