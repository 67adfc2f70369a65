//! Gesture acquisition: draining the gesture FIFO, decoding the swipe and
//! correcting it for the mounting rotation.
use vstd::prelude::*;

use crate::gesture::{
    accepted_samples, gesture_from_samples, gesture_of, push_accepted, Gesture, Sample,
};
use crate::register::{flag_is, flag_reads, GStatus, Register};
use crate::{is_rotation, Apds9960, Error, RegisterBus, Transfer};

verus! {

/// The most accepted samples one decode keeps.
pub const SAMPLE_CAPACITY: usize = 32;

/// The most FIFO bytes one decode reads, accepted or not. No bus reaches it;
/// it bounds a drain of a device that never stops reporting data.
pub const READ_LIMIT: u64 = 0xFFFF_FFFF_FFFF_FFFF;

/// The position of a direction in the cycle `Up, Right, Down, Left`.
pub open spec fn cycle_index(g: Gesture) -> int {
    match g {
        Gesture::Right => 1,
        Gesture::Down => 2,
        Gesture::Left => 3,
        _ => 0,
    }
}

/// The direction at position `i` of the cycle `Up, Right, Down, Left`.
pub open spec fn cycle_at(i: int) -> Gesture {
    if i == 1 {
        Gesture::Right
    } else if i == 2 {
        Gesture::Down
    } else if i == 3 {
        Gesture::Left
    } else {
        Gesture::Up
    }
}

/// `g` turned by `degrees / 90` quarter turns along the cycle
/// `Up, Right, Down, Left`; `NoGesture` stays as it is.
pub open spec fn rotated(g: Gesture, degrees: u16) -> Gesture {
    match g {
        Gesture::NoGesture => Gesture::NoGesture,
        _ => cycle_at((cycle_index(g) + degrees / 90) % 4),
    }
}

/// Remaps a decoded direction by a mounting rotation in degrees.
pub fn rotate(gesture: Gesture, degrees: u16) -> (r: Gesture)
    ensures
        r == rotated(gesture, degrees),
{
    let index: u16 = match gesture {
        Gesture::NoGesture => {
            return Gesture::NoGesture;
        },
        Gesture::Up => 0,
        Gesture::Right => 1,
        Gesture::Down => 2,
        Gesture::Left => 3,
    };
    let turned: u16 = (index + degrees / 90) % 4;
    if turned == 1 {
        Gesture::Right
    } else if turned == 2 {
        Gesture::Down
    } else if turned == 3 {
        Gesture::Left
    } else {
        Gesture::Up
    }
}

/// Turning by `r1` and then by `r2` is turning by their sum, modulo a full
/// turn.
pub proof fn lemma_rotation_composes(g: Gesture, r1: u16, r2: u16)
    requires
        is_rotation(r1),
        is_rotation(r2),
        g != Gesture::NoGesture,
    ensures
        rotated(rotated(g, r1), r2) == rotated(g, ((r1 + r2) % 360) as u16),
{
}

/// No rotation turns `NoGesture` into a direction.
pub proof fn lemma_no_gesture_is_fixed(degrees: u16)
    ensures
        rotated(Gesture::NoGesture, degrees) == Gesture::NoGesture,
{
}

/// With fewer than two accepted samples the decoded gesture is `NoGesture`,
/// whatever the rotation.
pub proof fn lemma_too_few_samples(samples: Seq<Sample>, degrees: u16)
    requires
        samples.len() < 2,
    ensures
        rotated(gesture_of(samples), degrees) == Gesture::NoGesture,
{
}

/// Whether a transfer succeeded.
pub open spec fn succeeded(t: Transfer) -> bool {
    match t {
        Transfer::Read { value, .. } => value is Some,
        Transfer::Write { ok, .. } => ok,
        Transfer::BulkRead { data, .. } => data is Some,
    }
}

/// Whether every transfer of `ts` succeeded.
pub open spec fn all_succeeded(ts: Seq<Transfer>) -> bool {
    forall|i: int| 0 <= i < ts.len() ==> succeeded(#[trigger] ts[i])
}

/// A complete read of gesture FIFO data: as many bytes as were asked for.
pub open spec fn is_fifo_read(t: Transfer) -> bool {
    match t {
        Transfer::BulkRead { start, len, data: Some(d) } => start == Register::GFIFO_U && d.len()
            == len,
        _ => false,
    }
}

/// The accepted samples of `t` if it is a complete FIFO read.
pub open spec fn fifo_samples(t: Transfer) -> Seq<Sample> {
    match t {
        Transfer::BulkRead { data: Some(d), .. } => if is_fifo_read(t) {
            accepted_samples(d)
        } else {
            Seq::empty()
        },
        _ => Seq::empty(),
    }
}

/// The number of bytes of `t` if it is a complete FIFO read.
pub open spec fn fifo_len(t: Transfer) -> nat {
    match t {
        Transfer::BulkRead { len, .. } => if is_fifo_read(t) {
            len
        } else {
            0
        },
        _ => 0,
    }
}

/// The accepted samples of the complete FIFO reads of `ts`, in order.
pub open spec fn drained_samples(ts: Seq<Transfer>) -> Seq<Sample>
    decreases ts.len(),
{
    if ts.len() == 0 {
        Seq::empty()
    } else {
        drained_samples(ts.drop_last()) + fifo_samples(ts.last())
    }
}

/// The number of bytes of the complete FIFO reads of `ts`.
pub open spec fn drained_len(ts: Seq<Transfer>) -> nat
    decreases ts.len(),
{
    if ts.len() == 0 {
        0
    } else {
        drained_len(ts.drop_last()) + fifo_len(ts.last())
    }
}

/// A read of the gesture status that found no valid data.
pub open spec fn reports_no_data(t: Transfer) -> bool {
    match t {
        Transfer::Read { address, value: Some(v) } => address == Register::GSTATUS && !flag_reads(
            v,
            GStatus::GVALID,
            true,
        ),
        _ => false,
    }
}

/// A read of the gesture status that found valid data.
pub open spec fn reports_data(t: Transfer) -> bool {
    match t {
        Transfer::Read { address, value: Some(v) } => address == Register::GSTATUS && flag_reads(
            v,
            GStatus::GVALID,
            true,
        ),
        _ => false,
    }
}

/// The transfer a FIFO drain issues next.
pub enum DrainStep {
    /// A read of the gesture status.
    Status,
    /// A read of the FIFO level.
    Level,
    /// A read of this many FIFO bytes.
    Fifo(nat),
    /// Nothing more.
    Stop,
}

/// What a drain issues after `t`, with `room` bytes left in the buffer of
/// accepted samples and `read` FIFO bytes read so far: the level after a
/// status that reports data; after a level above zero, a FIFO read of the
/// datasets it reports as far as room is left (unless that would pass the
/// read limit); the status again after a complete FIFO read that left room;
/// else nothing.
pub open spec fn drain_step(t: Transfer, room: int, read: int) -> DrainStep {
    match t {
        Transfer::Read { address, value: Some(v) } => if address == Register::GSTATUS && flag_reads(
            v,
            GStatus::GVALID,
            true,
        ) {
            DrainStep::Level
        } else if address == Register::GFLVL && v > 0 && room > 0 {
            let len = if 4 * v < room {
                4 * v
            } else {
                room
            };
            if read + len > READ_LIMIT {
                DrainStep::Stop
            } else {
                DrainStep::Fifo(len as nat)
            }
        } else {
            DrainStep::Stop
        },
        Transfer::BulkRead { .. } => if is_fifo_read(t) && room > 0 {
            DrainStep::Status
        } else {
            DrainStep::Stop
        },
        _ => DrainStep::Stop,
    }
}

/// Whether `t` is the transfer that `step` calls for.
pub open spec fn issues(t: Transfer, step: DrainStep) -> bool {
    match step {
        DrainStep::Status => t matches Transfer::Read { address, .. } && address == Register::GSTATUS,
        DrainStep::Level => t matches Transfer::Read { address, .. } && address == Register::GFLVL,
        DrainStep::Fifo(len) => t matches Transfer::BulkRead { start, len: l, .. } && start
            == Register::GFIFO_U && l == len,
        DrainStep::Stop => false,
    }
}

/// The bytes left in the buffer of accepted samples once `samples` are in
/// it.
pub open spec fn room_left(samples: Seq<Sample>) -> int {
    4 * (SAMPLE_CAPACITY - samples.len())
}

/// The room left in the buffer of accepted samples after the first `k`
/// transfers of `ts`.
pub open spec fn room_after(ts: Seq<Transfer>, k: int) -> int {
    room_left(drained_samples(ts.take(k)))
}

/// Transfer `i + 1` of `ts` is the one that transfer `i` calls for.
pub open spec fn steps_in_order(ts: Seq<Transfer>, i: int) -> bool {
    issues(ts[i + 1], drain_step(ts[i], room_after(ts, i + 1), drained_len(ts.take(i + 1)) as int))
}

/// Every transfer of `ts` after the first is the one its predecessor calls
/// for.
pub open spec fn in_order(ts: Seq<Transfer>) -> bool {
    forall|i: int| 0 <= i < ts.len() - 1 ==> #[trigger] steps_in_order(ts, i)
}

/// `ts` is a whole drain of the gesture FIFO: a status read first, each
/// transfer the one its predecessor calls for, and nothing called for after
/// the last.
pub open spec fn drains(ts: Seq<Transfer>) -> bool {
    &&& ts.len() >= 1
    &&& ts[0] matches Transfer::Read { address, .. } && address == Register::GSTATUS
    &&& in_order(ts)
    &&& drain_step(ts.last(), room_left(drained_samples(ts)), drained_len(ts) as int)
        == DrainStep::Stop
}

/// In a drain, every FIFO read asks for no more bytes than the buffer of
/// accepted samples holds: at most 32 datasets.
pub proof fn lemma_fifo_reads_fit(ts: Seq<Transfer>, i: int)
    requires
        drains(ts),
        0 <= i < ts.len(),
        ts[i] is BulkRead,
    ensures
        ts[i]->BulkRead_len <= 4 * SAMPLE_CAPACITY,
{
    assert(i != 0);
    assert(steps_in_order(ts, i - 1));
    assert(room_after(ts, i) <= 4 * SAMPLE_CAPACITY);
}

/// What the transfers issued since position `n` of a log say, after one more
/// transfer `t`.
proof fn lemma_extend(ts: Seq<Transfer>, n: int, t: Transfer)
    requires
        0 <= n <= ts.len(),
    ensures
        ({
            let fresh = ts.subrange(n, ts.len() as int);
            let next = ts.push(t).subrange(n, ts.len() as int + 1);
            &&& next == fresh.push(t)
            &&& ts.push(t).subrange(0, n) == ts.subrange(0, n)
            &&& drained_len(next) == drained_len(fresh) + fifo_len(t)
            &&& drained_samples(next) == drained_samples(fresh) + fifo_samples(t)
            &&& all_succeeded(next) == (all_succeeded(fresh) && succeeded(t))
            &&& n < ts.len() ==> next[0] == fresh[0]
            &&& n < ts.len() ==> (in_order(next) <== (in_order(fresh) && issues(
                t,
                drain_step(fresh.last(), room_left(drained_samples(fresh)), drained_len(fresh) as int),
            )))
        }),
{
    let fresh = ts.subrange(n, ts.len() as int);
    let next = ts.push(t).subrange(n, ts.len() as int + 1);
    assert(next =~= fresh.push(t));
    assert(ts.push(t).subrange(0, n) =~= ts.subrange(0, n));
    assert(next.drop_last() =~= fresh);
    assert(next.take(next.len() as int) =~= next);
    let step = drain_step(fresh.last(), room_left(drained_samples(fresh)), drained_len(fresh) as int);
    if n < ts.len() && in_order(fresh) && issues(t, step) {
        assert forall|i: int| 0 <= i < next.len() - 1 implies #[trigger] steps_in_order(next, i) by {
            assert(next.take(i + 1) =~= fresh.take(i + 1));
            if i < fresh.len() - 1 {
                assert(steps_in_order(fresh, i));
            } else {
                assert(fresh.take(i + 1) =~= fresh);
            }
        }
    }
    if all_succeeded(next) {
        assert(succeeded(next[fresh.len() as int]));
        assert forall|i: int| 0 <= i < fresh.len() implies succeeded(#[trigger] fresh[i]) by {
            assert(next[i] == fresh[i]);
        }
    }
}

impl<I2C, E> Apds9960<I2C> where I2C: RegisterBus<Error = E> {
    /// Read whether there is valid gesture data available.
    pub fn is_gesture_data_valid(&mut self) -> (r: Result<bool, Error<E>>)
        ensures
            final(self).answered(
                old(self),
                Register::GSTATUS,
                |v: u8| flag_reads(v, GStatus::GVALID, true),
                r,
            ),
    {
        let status = self.read_register(Register::GSTATUS)?;
        Ok(flag_is(status, GStatus::GVALID, true))
    }

    /// Read the number of datasets in the gesture FIFO.
    pub fn read_gesture_data_level(&mut self) -> (r: Result<u8, Error<E>>)
        ensures
            final(self).answered(old(self), Register::GFLVL, |v: u8| v, r),
    {
        self.read_register(Register::GFLVL)
    }

    /// Decode a gesture from the gesture FIFO.
    ///
    /// `WouldBlock` when the gesture status reports no valid data: nothing
    /// else is read. Otherwise the FIFO is drained while the status reports
    /// valid data, the FIFO level is not zero and fewer than 32 samples have
    /// been accepted; each read asks for the datasets the level reports, as
    /// far as the buffer of accepted samples has room, and a read that brings
    /// fewer bytes ends the draining. The accepted samples are classified
    /// and the result rotated by the configured rotation. A bus error ends
    /// the decode at once.
    pub fn decode_gesture(&mut self) -> (r: nb::Result<Gesture, Error<E>>)
        ensures
            ({
                let n = old(self).transfers().len() as int;
                let fresh = final(self).transfers().subrange(n, final(self).transfers().len() as int);
                &&& n <= final(self).transfers().len()
                &&& final(self).transfers().subrange(0, n) == old(self).transfers()
                &&& final(self).cache() == old(self).cache()
                &&& final(self).degrees() == old(self).degrees()
                &&& drains(fresh)
                &&& (r matches Err(nb::Error::WouldBlock)) <==> reports_no_data(fresh[0])
                &&& (r matches Err(nb::Error::WouldBlock)) ==> fresh.len() == 1
                &&& (r matches Err(nb::Error::Other(_))) <==> !all_succeeded(fresh)
                &&& final(self).reports_nb(r)
                &&& drained_samples(fresh).len() <= SAMPLE_CAPACITY
                &&& (r matches Ok(g) ==> g == rotated(
                    gesture_of(drained_samples(fresh)),
                    old(self).degrees(),
                ))
            }),
    {
        let ghost n: int = self.transfers().len() as int;
        proof {
            let empty = self.transfers().subrange(n, n);
            assert(empty =~= Seq::<Transfer>::empty());
            assert(self.transfers().subrange(0, n) =~= self.transfers());
            assert(all_succeeded(empty));
        }
        let ghost before = self.transfers();
        let valid = match self.is_gesture_data_valid() {
            Ok(v) => v,
            Err(e) => {
                proof {
                    lemma_extend(before, n, self.transfers().last());
                }
                return Err(nb::Error::Other(e));
            },
        };
        proof {
            lemma_extend(before, n, self.transfers().last());
        }
        if !valid {
            return Err(nb::Error::WouldBlock);
        }
        let mut samples: Vec<Sample> = Vec::new();
        let mut read: u64 = 0;
        loop
            invariant_except_break
                drain_step(self.transfers().last(), room_left(samples@), read as int)
                    == DrainStep::Level,
                samples@.len() < SAMPLE_CAPACITY,
            invariant
                in_order(self.transfers().subrange(n, self.transfers().len() as int)),
                n == old(self).transfers().len(),
                n < self.transfers().len(),
                self.transfers().subrange(0, n) == old(self).transfers(),
                self.cache() == old(self).cache(),
                self.degrees() == old(self).degrees(),
                reports_data(self.transfers()[n]),
                all_succeeded(self.transfers().subrange(n, self.transfers().len() as int)),
                samples@ == drained_samples(
                    self.transfers().subrange(n, self.transfers().len() as int),
                ),
                read == drained_len(self.transfers().subrange(n, self.transfers().len() as int)),
                samples@.len() <= SAMPLE_CAPACITY,
            ensures
                drain_step(self.transfers().last(), room_left(samples@), read as int)
                    == DrainStep::Stop,
            decreases READ_LIMIT - read,
        {
            let ghost before = self.transfers();
            let level = match self.read_gesture_data_level() {
                Ok(l) => l,
                Err(e) => {
                    proof {
                        lemma_extend(before, n, self.transfers().last());
                    }
                    return Err(nb::Error::Other(e));
                },
            };
            proof {
                lemma_extend(before, n, self.transfers().last());
            }
            if level == 0 {
                break;
            }
            let wanted: usize = 4 * level as usize;
            let room: usize = 4 * (SAMPLE_CAPACITY - samples.len());
            let byte_count: usize = if wanted < room { wanted } else { room };
            if read > READ_LIMIT - byte_count as u64 {
                break;
            }
            let ghost before = self.transfers();
            let data = match self.read_registers(Register::GFIFO_U, byte_count) {
                Ok(d) => d,
                Err(e) => {
                    proof {
                        lemma_extend(before, n, self.transfers().last());
                    }
                    return Err(nb::Error::Other(e));
                },
            };
            proof {
                lemma_extend(before, n, self.transfers().last());
            }
            if data.len() != byte_count {
                break;
            }
            push_accepted(&mut samples, data.as_slice());
            read = read + byte_count as u64;
            if samples.len() == SAMPLE_CAPACITY {
                break;
            }
            let ghost before = self.transfers();
            let valid = match self.is_gesture_data_valid() {
                Ok(v) => v,
                Err(e) => {
                    proof {
                        lemma_extend(before, n, self.transfers().last());
                    }
                    return Err(nb::Error::Other(e));
                },
            };
            proof {
                lemma_extend(before, n, self.transfers().last());
            }
            if !valid {
                break;
            }
        }
        proof {
            let fresh = self.transfers().subrange(n, self.transfers().len() as int);
            assert(fresh.take(fresh.len() as int) =~= fresh);
            assert(fresh.last() == self.transfers().last());
        }
        let gesture = gesture_from_samples(samples.as_slice());
        Ok(self.rotate_gesture(gesture))
    }

    /// Set the rotation applied to all decoded gestures: 0, 90, 180 or 270
    /// degrees. Any other value is refused and the rotation kept.
    pub fn set_rotation(&mut self, degrees: u16) -> (r: Result<(), Error<E>>)
        ensures
            r is Ok <==> is_rotation(degrees),
            r matches Err(e) ==> e is InvalidRotation,
            final(self).degrees() == if is_rotation(degrees) {
                degrees
            } else {
                old(self).degrees()
            },
            final(self).cache() == old(self).cache(),
            final(self).transfers() == old(self).transfers(),
            final(self).bus() == old(self).bus(),
            final(self).bus_error() == old(self).bus_error(),
    {
        if degrees != 0 && degrees != 90 && degrees != 180 && degrees != 270 {
            return Err(Error::InvalidRotation);
        }
        self.rotation = degrees;
        Ok(())
    }

    /// Read the current rotation offset.
    pub fn rotation(&self) -> (r: u16)
        ensures
            r == self.degrees(),
    {
        self.rotation
    }

    /// Remaps a decoded direction by the configured rotation.
    fn rotate_gesture(&self, gesture: Gesture) -> (r: Gesture)
        ensures
            r == rotated(gesture, self.degrees()),
    {
        rotate(gesture, self.rotation)
    }
}

} // verus!
