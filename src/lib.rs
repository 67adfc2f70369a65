//! Driver for the APDS9960 digital proximity, ambient light, RGB and gesture
//! sensor.
//!
//! The driver talks to the device through a [`RegisterBus`]: an
//! implementation reads and writes the device's registers. Every transfer the
//! driver issues is recorded in a ghost log, so that each operation's contract
//! says exactly which registers it reads and writes, and with which values.
//!
//! The gesture engine's data is decoded by [`Apds9960::decode_gesture`]: it
//! drains the gesture FIFO, drops noisy and saturated samples, classifies the
//! swipe from the first and last sample and corrects the result for the
//! mounting rotation of the sensor.
use nb::Error as NonBlocking;
use vstd::prelude::*;

mod config;
mod decoder;
mod gains;
mod gesture;
mod gesture_config;
mod proximity;
mod register;

pub use config::{init_head, init_plan, init_tail, init_thresholds};
pub use decoder::{
    all_succeeded, cycle_at, cycle_index, drain_step, drained_len, drained_samples, drains,
    fifo_len, fifo_samples, in_order, is_fifo_read, issues, lemma_fifo_reads_fit,
    lemma_no_gesture_is_fixed,
    lemma_rotation_composes, lemma_too_few_samples, reports_data, reports_no_data, room_after,
    rotate, rotated, room_left, steps_in_order, succeeded, DrainStep, READ_LIMIT,
    SAMPLE_CAPACITY,
};
pub use gains::{GestureGain, LedBoost, LedDrive, LightGain, ProximityGain};
pub use gesture::{
    abs, accept_sample, accepted_prefix, accepted_samples, classification, classify, decide,
    decision, delta_lr, delta_ud, gesture_from_samples, gesture_of, is_accepted,
    lemma_filter_rules, lemma_rejected_sample_ignored, push_accepted, ratio, ratio_of, sample_at,
    sample_bytes, tri_state, tri_state_of, Gesture, Sample, CROSSTALK_FLOOR, MOVEMENT_THRESHOLD,
};
pub use gesture_config::{dimensions_value, exit_persistence_code, threshold_bits};
pub use proximity::{proximity_off_plan, proximity_on_plan};
pub use register::{
    flag_applied, flag_is, flag_reads, with_flag, Config1, Config2, Config3, Control, Enable,
    GConfig1, GConfig4, GStatus, Pers, Register, Status,
};

verus! {

/// Relies on nb's `Error` enum, the error of a non-blocking result: its
/// variants `Other(E)` and `WouldBlock` (data not ready yet) are public and
/// read as declared.
#[verifier::external_type_specification]
pub struct ExNbError<F>(NonBlocking<F>);

/// All possible errors in this crate.
#[derive(Debug)]
pub enum Error<E> {
    /// Bus error.
    I2C(E),
    /// Invalid rotation value was supplied to the gesture decoder.
    InvalidRotation,
}

/// Gesture FIFO data threshold.
///
/// This value is compared to the gesture data level to set data valid and
/// generate an interruption.
#[derive(Debug, Clone, Copy, PartialEq, Eq)]
pub enum GestureDataThreshold {
    /// Data valid after 1 dataset is added to the FIFO. (default)
    Th1,
    /// Data valid after 4 datasets are added to the FIFO.
    Th4,
    /// Data valid after 8 datasets are added to the FIFO.
    Th8,
    /// Data valid after 16 datasets are added to the FIFO.
    Th16,
}

/// Color / ambient light data.
#[derive(Debug, Clone, Copy, PartialEq, Eq)]
pub struct LightData {
    /// Clear channel value.
    pub clear: u16,
    /// Red channel value.
    pub red: u16,
    /// Green channel value.
    pub green: u16,
    /// Blue channel value.
    pub blue: u16,
}

/// Register access to the device: the bus the driver talks through.
///
/// Nothing is assumed of an implementation: every result it gives is handled.
pub trait RegisterBus {
    /// The error a transfer can end with.
    type Error;

    /// Reads one register.
    fn read_register(&mut self, address: u8) -> Result<u8, Self::Error>;

    /// Writes one register.
    fn write_register(&mut self, address: u8, value: u8) -> Result<(), Self::Error>;

    /// Writes `values` to consecutive registers, the first at `start`. With no
    /// values only the register address is sent.
    fn bulk_write(&mut self, start: u8, values: &[u8]) -> Result<(), Self::Error>;

    /// Reads up to `max_len` bytes from consecutive registers, the first at
    /// `start`. Fewer bytes come back when the device has less data.
    fn bulk_read(&mut self, start: u8, max_len: usize) -> Result<Vec<u8>, Self::Error>;
}

/// One bus transfer issued by the driver, with its outcome.
pub enum Transfer {
    /// A register read: the value, or `None` if the bus failed.
    Read { address: u8, value: Option<u8> },
    /// `values` written from register `start` on; `ok` when the bus accepted them.
    Write { start: u8, values: Seq<u8>, ok: bool },
    /// A bulk read of up to `len` bytes: the bytes, or `None` if the bus failed.
    BulkRead { start: u8, len: nat, data: Option<Seq<u8>> },
}

/// The value of an `Ok` result.
pub open spec fn ok_value<T, F>(r: Result<T, F>) -> Option<T> {
    match r {
        Ok(v) => Some(v),
        Err(_) => None,
    }
}

/// The registers whose last written value the driver keeps in its cache.
pub open spec fn is_cached(address: u8) -> bool {
    ||| address == Register::ENABLE
    ||| address == Register::CONFIG1
    ||| address == Register::CONFIG2
    ||| address == Register::CONFIG3
    ||| address == Register::PERS
    ||| address == Register::GCONF1
    ||| address == Register::GCONF4
}

/// Whether the register `i` places after `start` is cached.
pub open spec fn is_cached_at(start: u8, i: int) -> bool {
    is_cached((start + i) as u8)
}

/// The cache after `value` was written to `address`.
pub open spec fn committed(cache: Map<u8, u8>, address: u8, value: u8) -> Map<u8, u8> {
    if is_cached(address) {
        cache.insert(address, value)
    } else {
        cache
    }
}

/// The cached registers' values at power on.
pub open spec fn power_on_cache() -> Map<u8, u8> {
    map![
        Register::ENABLE => 0u8,
        Register::CONFIG1 => Config1::POWER_ON,
        Register::CONFIG2 => Config2::POWER_ON,
        Register::CONFIG3 => 0u8,
        Register::PERS => 0u8,
        Register::GCONF1 => 0u8,
        Register::GCONF4 => 0u8,
    ]
}

/// `t` as the log holds it when the bus failed it.
pub open spec fn failed(t: Transfer) -> Transfer {
    match t {
        Transfer::Read { address, .. } => Transfer::Read { address, value: None },
        Transfer::Write { start, values, .. } => Transfer::Write { start, values, ok: false },
        Transfer::BulkRead { start, len, .. } => Transfer::BulkRead { start, len, data: None },
    }
}

/// The value of a successful register read (0 for any other transfer).
pub open spec fn read_value(t: Transfer) -> u8 {
    match t {
        Transfer::Read { value: Some(v), .. } => v,
        _ => 0,
    }
}

/// The transfers `fresh` carry out `plan` in order, up to and including the
/// first one that failed; all of it, with none failing, when `ok`.
pub open spec fn follows(fresh: Seq<Transfer>, plan: Seq<Transfer>, ok: bool) -> bool {
    if ok {
        fresh == plan
    } else {
        &&& 1 <= fresh.len() <= plan.len()
        &&& fresh.drop_last() == plan.take(fresh.len() - 1)
        &&& fresh.last() == failed(plan[fresh.len() - 1])
    }
}

/// `cache` after the accepted single-register writes of `ts`.
pub open spec fn replay(cache: Map<u8, u8>, ts: Seq<Transfer>) -> Map<u8, u8>
    decreases ts.len(),
{
    if ts.len() == 0 {
        cache
    } else {
        let before = replay(cache, ts.drop_last());
        match ts.last() {
            Transfer::Write { start, values, ok } => if ok && values.len() == 1 {
                committed(before, start, values[0])
            } else {
                before
            },
            _ => before,
        }
    }
}

/// An accepted write of `value` to the register `address`.
pub open spec fn write_of(address: u8, value: u8) -> Transfer {
    Transfer::Write { start: address, values: seq![value], ok: true }
}

/// Single-register writes of each `(address, value)` pair, in order.
pub open spec fn writes_of(pairs: Seq<(u8, u8)>) -> Seq<Transfer> {
    pairs.map_values(|p: (u8, u8)| write_of(p.0, p.1))
}

/// The valid rotations, in degrees.
pub open spec fn is_rotation(degrees: u16) -> bool {
    degrees == 0 || degrees == 90 || degrees == 180 || degrees == 270
}

/// APDS9960 device driver.
pub struct Apds9960<I2C: RegisterBus> {
    i2c: I2C,
    enable: Enable,
    config1: Config1,
    config2: Config2,
    config3: Config3,
    pers: Pers,
    gconfig1: GConfig1,
    gconfig4: GConfig4,
    rotation: u16,
    transfers: Ghost<Seq<Transfer>>,
    failure: Ghost<Option<I2C::Error>>,
}

impl<I2C: RegisterBus> Apds9960<I2C> {
    /// The bus.
    pub open(crate) spec fn bus(&self) -> I2C {
        self.i2c
    }

    /// The last value written to each cached register.
    pub open(crate) spec fn cache(&self) -> Map<u8, u8> {
        map![
            Register::ENABLE => self.enable.0,
            Register::CONFIG1 => self.config1.0,
            Register::CONFIG2 => self.config2.0,
            Register::CONFIG3 => self.config3.0,
            Register::PERS => self.pers.0,
            Register::GCONF1 => self.gconfig1.0,
            Register::GCONF4 => self.gconfig4.0,
        ]
    }

    /// The rotation applied to decoded gestures, in degrees.
    pub open(crate) spec fn degrees(&self) -> u16 {
        self.rotation
    }

    /// Every transfer issued so far, in order.
    pub open(crate) spec fn transfers(&self) -> Seq<Transfer> {
        self.transfers@
    }

    /// The error the bus gave for the most recent transfer, if it failed.
    pub open(crate) spec fn bus_error(&self) -> Option<I2C::Error> {
        self.failure@
    }

    /// An error in `r` is the error the bus gave for the most recent
    /// transfer.
    pub open spec fn reports<T>(&self, r: Result<T, Error<I2C::Error>>) -> bool {
        r is Err ==> {
            &&& self.bus_error() is Some
            &&& r == Err::<T, Error<I2C::Error>>(Error::I2C(self.bus_error()->Some_0))
        }
    }

    /// A non-blocking result's error other than `WouldBlock` is the error the
    /// bus gave for the most recent transfer.
    pub open spec fn reports_nb<T>(&self, r: nb::Result<T, Error<I2C::Error>>) -> bool {
        r matches Err(nb::Error::Other(_)) ==> {
            &&& self.bus_error() is Some
            &&& r == Err::<T, nb::Error<Error<I2C::Error>>>(
                nb::Error::Other(Error::I2C(self.bus_error()->Some_0)),
            )
        }
    }

    /// The rotation is one of the valid ones.
    pub open spec fn wf(&self) -> bool {
        is_rotation(self.degrees())
    }

    /// `t` was issued after `prev`; nothing else changed.
    pub open spec fn logged(&self, prev: &Self, t: Transfer) -> bool {
        &&& self.transfers() == prev.transfers().push(t)
        &&& self.cache() == prev.cache()
        &&& self.degrees() == prev.degrees()
    }

    /// `value` was written to `address` after `prev`, and committed to the
    /// cache if the bus accepted it (`ok`).
    pub open spec fn wrote(&self, prev: &Self, address: u8, value: u8, ok: bool) -> bool {
        &&& self.transfers() == prev.transfers().push(
            Transfer::Write { start: address, values: seq![value], ok },
        )
        &&& self.cache() == if ok {
            committed(prev.cache(), address, value)
        } else {
            prev.cache()
        }
        &&& self.degrees() == prev.degrees()
    }

    /// After `prev`, the bits of `mask` of the cached register `address` were
    /// set (`on`) or cleared in its cached value, the result written and, if
    /// the bus accepted it (`ok`), cached.
    pub open spec fn flagged(&self, prev: &Self, address: u8, mask: u8, on: bool, ok: bool) -> bool {
        self.wrote(prev, address, flag_applied(prev.cache()[address], mask, on), ok)
    }

    /// After `prev`, `address` was read and, if that succeeded with `v`,
    /// `f(v)` written back to it (`ok` when the bus accepted both).
    pub open spec fn updated(&self, prev: &Self, address: u8, f: spec_fn(u8) -> u8, ok: bool) -> bool {
        let n = prev.transfers().len();
        &&& n < self.transfers().len()
        &&& match self.transfers()[n as int] {
            Transfer::Read { address: a, value: Some(v) } => {
                &&& a == address
                &&& self.transfers() == prev.transfers().push(self.transfers()[n as int]).push(
                    Transfer::Write { start: address, values: seq![f(v)], ok },
                )
                &&& self.cache() == if ok {
                    committed(prev.cache(), address, f(v))
                } else {
                    prev.cache()
                }
                &&& self.degrees() == prev.degrees()
            },
            Transfer::Read { address: a, value: None } => {
                &&& a == address
                &&& !ok
                &&& self.logged(prev, self.transfers()[n as int])
            },
            _ => false,
        }
    }

    /// After `prev`, the transfers of `plan` were issued in order, up to the
    /// first that failed (`ok` when none did); the cache followed every
    /// accepted single-register write.
    pub open spec fn carried_out(&self, prev: &Self, plan: Seq<Transfer>, ok: bool) -> bool {
        let n = prev.transfers().len() as int;
        let fresh = self.transfers().subrange(n, self.transfers().len() as int);
        &&& n <= self.transfers().len()
        &&& self.transfers().subrange(0, n) == prev.transfers()
        &&& follows(fresh, plan, ok)
        &&& self.cache() == replay(prev.cache(), fresh)
        &&& self.degrees() == prev.degrees()
    }

    /// After `prev`, one read of `address` was issued; the result is `f` of the
    /// value read, or the bus's error if the read failed.
    pub open spec fn answered<T>(
        &self,
        prev: &Self,
        address: u8,
        f: spec_fn(u8) -> T,
        r: Result<T, Error<I2C::Error>>,
    ) -> bool {
        let n = prev.transfers().len();
        &&& n < self.transfers().len()
        &&& match self.transfers()[n as int] {
            Transfer::Read { address: a, value } => {
                &&& a == address
                &&& self.logged(prev, self.transfers()[n as int])
                &&& match value {
                    Some(v) => r == Ok::<T, Error<I2C::Error>>(f(v)),
                    None => r is Err && self.reports(r),
                }
            },
            _ => false,
        }
    }
}

proof fn lemma_replay_append(cache: Map<u8, u8>, s: Seq<Transfer>, t: Seq<Transfer>)
    ensures
        replay(cache, s + t) == replay(replay(cache, s), t),
    decreases t.len(),
{
    if t.len() == 0 {
        assert(s + t =~= s);
    } else {
        assert((s + t).drop_last() =~= s + t.drop_last());
        lemma_replay_append(cache, s, t.drop_last());
    }
}

impl<I2C: RegisterBus> Apds9960<I2C> {
    /// Doing nothing carries out the empty plan.
    pub(crate) proof fn lemma_nothing(&self)
        ensures
            self.carried_out(self, Seq::empty(), true),
    {
        let n = self.transfers().len() as int;
        assert(self.transfers().subrange(n, n) =~= Seq::<Transfer>::empty());
        assert(self.transfers().subrange(0, n) =~= self.transfers());
    }

    /// A write to several (or no) registers is a one-step plan carried out.
    pub(crate) proof fn lemma_bulk_plan(&self, prev: &Self, start: u8, values: Seq<u8>, ok: bool)
        requires
            self.logged(prev, Transfer::Write { start, values, ok }),
            values.len() != 1,
        ensures
            self.carried_out(prev, seq![Transfer::Write { start, values, ok: true }], ok),
    {
        let n = prev.transfers().len() as int;
        let fresh = self.transfers().subrange(n, self.transfers().len() as int);
        assert(fresh =~= seq![Transfer::Write { start, values, ok }]);
        assert(self.transfers().subrange(0, n) =~= prev.transfers());
        assert(fresh.drop_last() =~= Seq::<Transfer>::empty());
        assert(replay(prev.cache(), fresh.drop_last()) == prev.cache());
        assert(seq![Transfer::Write { start, values, ok: true }].take(0) =~= Seq::<Transfer>::empty());
    }

    /// A register read is a one-step plan carried out.
    pub(crate) proof fn lemma_answered_plan<T>(
        &self,
        prev: &Self,
        address: u8,
        f: spec_fn(u8) -> T,
        r: Result<T, Error<I2C::Error>>,
    )
        requires
            self.answered(prev, address, f, r),
        ensures
            self.carried_out(
                prev,
                seq![
                    Transfer::Read {
                        address,
                        value: Some(read_value(self.transfers()[prev.transfers().len() as int])),
                    },
                ],
                r is Ok,
            ),
    {
        let n = prev.transfers().len() as int;
        let fresh = self.transfers().subrange(n, self.transfers().len() as int);
        assert(fresh =~= seq![self.transfers()[n]]);
        assert(self.transfers().subrange(0, n) =~= prev.transfers());
        assert(fresh.drop_last() =~= Seq::<Transfer>::empty());
        assert(replay(prev.cache(), fresh.drop_last()) == prev.cache());
        let plan = seq![Transfer::Read { address, value: Some(read_value(self.transfers()[n])) }];
        assert(plan.take(0) =~= Seq::<Transfer>::empty());
    }

    /// A single-register write is a one-step plan carried out.
    pub(crate) proof fn lemma_wrote_plan(&self, prev: &Self, address: u8, value: u8, ok: bool)
        requires
            self.wrote(prev, address, value, ok),
        ensures
            self.carried_out(prev, seq![write_of(address, value)], ok),
    {
        let n = prev.transfers().len() as int;
        let fresh = self.transfers().subrange(n, self.transfers().len() as int);
        assert(fresh =~= seq![Transfer::Write { start: address, values: seq![value], ok }]);
        assert(self.transfers().subrange(0, n) =~= prev.transfers());
        assert(fresh.drop_last() =~= Seq::<Transfer>::empty());
        assert(replay(prev.cache(), fresh.drop_last()) == prev.cache());
        assert(seq![write_of(address, value)].take(0) =~= Seq::<Transfer>::empty());
    }

    /// A read-modify-write is a two-step plan carried out.
    pub(crate) proof fn lemma_updated_plan(&self, prev: &Self, address: u8, f: spec_fn(u8) -> u8, ok: bool)
        requires
            self.updated(prev, address, f, ok),
        ensures
            ({
                let v = read_value(self.transfers()[prev.transfers().len() as int]);
                self.carried_out(
                    prev,
                    seq![
                        Transfer::Read { address, value: Some(v) },
                        Transfer::Write { start: address, values: seq![f(v)], ok: true },
                    ],
                    ok,
                )
            }),
    {
        let n = prev.transfers().len() as int;
        let v = read_value(self.transfers()[n]);
        let plan = seq![
            Transfer::Read { address, value: Some(v) },
            Transfer::Write { start: address, values: seq![f(v)], ok: true },
        ];
        let fresh = self.transfers().subrange(n, self.transfers().len() as int);
        assert(self.transfers().subrange(0, n) =~= prev.transfers());
        assert(plan.take(0) =~= Seq::<Transfer>::empty());
        assert(plan.take(1) =~= seq![plan[0]]);
        match self.transfers()[n] {
            Transfer::Read { value: Some(w), .. } => {
                assert(fresh =~= seq![plan[0], Transfer::Write { start: address, values: seq![f(v)], ok }]);
                assert(fresh.drop_last() =~= seq![plan[0]]);
                assert(fresh.drop_last().drop_last() =~= Seq::<Transfer>::empty());
                assert(replay(prev.cache(), fresh.drop_last().drop_last()) == prev.cache());
                assert(replay(prev.cache(), fresh.drop_last()) == prev.cache());
            },
            _ => {
                assert(fresh =~= seq![Transfer::Read { address, value: None }]);
                assert(fresh.drop_last() =~= Seq::<Transfer>::empty());
        assert(replay(prev.cache(), fresh.drop_last()) == prev.cache());
            },
        }
    }

    /// Carrying out `done` in full and then `rest` carries out `done + rest`.
    pub(crate) proof fn lemma_chain(
        &self,
        mid: &Self,
        prev: &Self,
        done: Seq<Transfer>,
        rest: Seq<Transfer>,
        ok: bool,
    )
        requires
            mid.carried_out(prev, done, true),
            self.carried_out(mid, rest, ok),
        ensures
            self.carried_out(prev, done + rest, ok),
    {
        let n = prev.transfers().len() as int;
        let m = mid.transfers().len() as int;
        let all = self.transfers();
        let fresh = all.subrange(n, all.len() as int);
        let first = mid.transfers().subrange(n, m);
        let second = all.subrange(m, all.len() as int);
        assert(mid.transfers() =~= all.subrange(0, m));
        assert(all.subrange(0, n) =~= prev.transfers());
        assert(fresh =~= first + second);
        lemma_replay_append(prev.cache(), first, second);
        if !ok {
            assert(fresh.drop_last() =~= first + second.drop_last());
            assert((done + rest).take(fresh.len() - 1) =~= done + rest.take(second.len() - 1));
            assert(fresh.last() == second.last());
        }
    }

    /// A plan cut short by a failure is cut short in any longer plan.
    pub(crate) proof fn lemma_stop(&self, prev: &Self, done: Seq<Transfer>, rest: Seq<Transfer>)
        requires
            self.carried_out(prev, done, false),
        ensures
            self.carried_out(prev, done + rest, false),
    {
        let n = prev.transfers().len() as int;
        let fresh = self.transfers().subrange(n, self.transfers().len() as int);
        assert((done + rest).take(fresh.len() - 1) =~= done.take(fresh.len() - 1));
    }
}

impl<I2C, E> Apds9960<I2C> where I2C: RegisterBus<Error = E> {
    /// Create new instance of the APDS9960 device. No transfer is made: the
    /// cache holds the power-on values and the rotation is 0.
    pub fn new(i2c: I2C) -> (r: Self)
        ensures
            r.bus() == i2c,
            r.cache() == power_on_cache(),
            r.degrees() == 0,
            r.transfers() == Seq::<Transfer>::empty(),
            r.wf(),
    {
        Apds9960 {
            i2c,
            enable: Enable(0),
            config1: Config1(Config1::POWER_ON),
            config2: Config2(Config2::POWER_ON),
            config3: Config3(0),
            pers: Pers(0),
            gconfig1: GConfig1(0),
            gconfig4: GConfig4(0),
            rotation: 0,
            transfers: Ghost(Seq::empty()),
            failure: Ghost(None),
        }
    }

    /// Destroy driver instance, return the bus.
    pub fn destroy(self) -> (r: I2C)
        ensures
            r == self.bus(),
    {
        self.i2c
    }

    /// Reads one register.
    pub(crate) fn read_register(&mut self, address: u8) -> (r: Result<u8, Error<E>>)
        ensures
            final(self).answered(old(self), address, |v: u8| v, r),
    {
        let r = self.i2c.read_register(address);
        self.transfers = Ghost(self.transfers@.push(Transfer::Read { address, value: ok_value(r) }));
        match r {
            Ok(v) => {
                self.failure = Ghost(None);
                Ok(v)
            },
            Err(e) => {
                self.failure = Ghost(Some(e));
                Err(Error::I2C(e))
            },
        }
    }

    /// Writes one register; a cached register's cache entry follows the
    /// write once the bus has accepted it.
    pub(crate) fn write_register(&mut self, address: u8, value: u8) -> (r: Result<(), Error<E>>)
        ensures
            final(self).wrote(old(self), address, value, r is Ok),
            final(self).reports(r),
    {
        let r = self.i2c.write_register(address, value);
        self.transfers = Ghost(
            self.transfers@.push(Transfer::Write { start: address, values: seq![value], ok: r is Ok }),
        );
        match r {
            Ok(()) => {
                self.failure = Ghost(None);
                self.commit(address, value);
                assert(self.cache() =~= committed(old(self).cache(), address, value));
                Ok(())
            },
            Err(e) => {
                self.failure = Ghost(Some(e));
                assert(self.cache() =~= old(self).cache());
                Err(Error::I2C(e))
            },
        }
    }

    /// The cached value of `address`.
    pub(crate) fn cached_value(&self, address: u8) -> (r: u8)
        requires
            is_cached(address),
        ensures
            r == self.cache()[address],
    {
        if address == Register::ENABLE {
            self.enable.0
        } else if address == Register::CONFIG1 {
            self.config1.0
        } else if address == Register::CONFIG2 {
            self.config2.0
        } else if address == Register::CONFIG3 {
            self.config3.0
        } else if address == Register::PERS {
            self.pers.0
        } else if address == Register::GCONF1 {
            self.gconfig1.0
        } else {
            self.gconfig4.0
        }
    }

    /// Sets (`on`) or clears the bits of `mask` of a cached register: the new
    /// value comes from the cached one, and is cached once the bus has
    /// accepted it.
    pub(crate) fn set_flag(&mut self, address: u8, mask: u8, on: bool) -> (r: Result<(), Error<E>>)
        requires
            is_cached(address),
        ensures
            final(self).flagged(old(self), address, mask, on, r is Ok),
            final(self).reports(r),
    {
        let new = with_flag(self.cached_value(address), mask, on);
        self.write_register(address, new)
    }

    /// Stores `value` as the cached value of `address`, if that is cached.
    fn commit(&mut self, address: u8, value: u8)
        ensures
            final(self).i2c == old(self).i2c,
            final(self).transfers() == old(self).transfers(),
            final(self).bus_error() == old(self).bus_error(),
            final(self).degrees() == old(self).degrees(),
            final(self).cache() =~= committed(old(self).cache(), address, value),
    {
        if address == Register::ENABLE {
            self.enable = Enable(value);
        } else if address == Register::CONFIG1 {
            self.config1 = Config1(value);
        } else if address == Register::CONFIG2 {
            self.config2 = Config2(value);
        } else if address == Register::CONFIG3 {
            self.config3 = Config3(value);
        } else if address == Register::PERS {
            self.pers = Pers(value);
        } else if address == Register::GCONF1 {
            self.gconfig1 = GConfig1(value);
        } else if address == Register::GCONF4 {
            self.gconfig4 = GConfig4(value);
        }
    }

    /// Writes `values` to consecutive registers, none of them cached.
    pub(crate) fn write_registers(&mut self, start: u8, values: &[u8]) -> (r: Result<(), Error<E>>)
        requires
            forall|i: int| 0 <= i < values@.len() ==> !#[trigger] is_cached_at(start, i),
        ensures
            final(self).logged(old(self), Transfer::Write { start, values: values@, ok: r is Ok }),
            final(self).reports(r),
    {
        let r = self.i2c.bulk_write(start, values);
        self.transfers = Ghost(
            self.transfers@.push(Transfer::Write { start, values: values@, ok: r is Ok }),
        );
        match r {
            Ok(()) => {
                self.failure = Ghost(None);
                Ok(())
            },
            Err(e) => {
                self.failure = Ghost(Some(e));
                Err(Error::I2C(e))
            },
        }
    }

    /// Reads up to `max_len` bytes from consecutive registers.
    pub(crate) fn read_registers(&mut self, start: u8, max_len: usize) -> (r: Result<Vec<u8>, Error<E>>)
        ensures
            final(self).logged(
                old(self),
                Transfer::BulkRead {
                    start,
                    len: max_len as nat,
                    data: match r {
                        Ok(v) => Some(v@),
                        Err(_) => None,
                    },
                },
            ),
            final(self).reports(r),
    {
        let r = self.i2c.bulk_read(start, max_len);
        match r {
            Ok(v) => {
                self.transfers = Ghost(
                    self.transfers@.push(Transfer::BulkRead { start, len: max_len as nat, data: Some(v@) }),
                );
                self.failure = Ghost(None);
                Ok(v)
            },
            Err(e) => {
                self.transfers = Ghost(
                    self.transfers@.push(Transfer::BulkRead { start, len: max_len as nat, data: None }),
                );
                self.failure = Ghost(Some(e));
                Err(Error::I2C(e))
            },
        }
    }

    /// Writes a 16-bit value, low byte first, to two consecutive registers.
    pub(crate) fn write_double_register(&mut self, start: u8, value: u16) -> (r: Result<(), Error<E>>)
        requires
            !is_cached_at(start, 0),
            !is_cached_at(start, 1),
        ensures
            final(self).logged(
                old(self),
                Transfer::Write { start, values: seq![value as u8, (value >> 8) as u8], ok: r is Ok },
            ),
            final(self).reports(r),
    {
        let values: [u8; 2] = [value as u8, (value >> 8) as u8];
        let r = self.write_registers(start, &values);
        assert(values@ =~= seq![value as u8, (value >> 8) as u8]);
        r
    }

    /// Sends only a register address: a special function command.
    pub(crate) fn touch_register(&mut self, address: u8) -> (r: Result<(), Error<E>>)
        ensures
            final(self).logged(old(self), Transfer::Write { start: address, values: seq![], ok: r is Ok }),
            final(self).reports(r),
    {
        let values: [u8; 0] = [];
        let r = self.write_registers(address, &values);
        assert(values@ =~= seq![]);
        r
    }
}

} // verus!
