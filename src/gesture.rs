//! The gesture decision engine: the sample filter, the channel ratios and the
//! direction decision table.
use vstd::prelude::*;

verus! {

/// Gesture direction codes.
#[derive(Debug, Clone, Copy, PartialEq, Eq, Structural)]
pub enum Gesture {
    /// No gesture detected.
    NoGesture,
    /// Swipe up.
    Up,
    /// Swipe down.
    Down,
    /// Swipe left.
    Left,
    /// Swipe right.
    Right,
}

/// One gesture FIFO dataset: the readings of the four photodiodes.
#[derive(Debug, Clone, Copy, PartialEq, Eq, Structural)]
pub struct Sample {
    pub up: u8,
    pub down: u8,
    pub left: u8,
    pub right: u8,
}

/// Channel readings below this are cross-talk rather than signal.
pub const CROSSTALK_FLOOR: u8 = 30;

/// A change of ratio of at least this much counts as movement along an axis.
pub const MOVEMENT_THRESHOLD: i32 = 30;

/// A sample that the filter keeps: every channel at or above the cross-talk
/// floor, not all zero (the sensor has not settled) and not all 255
/// (saturated).
pub open spec fn is_accepted(s: Sample) -> bool {
    &&& s.up >= CROSSTALK_FLOOR
    &&& s.down >= CROSSTALK_FLOOR
    &&& s.left >= CROSSTALK_FLOOR
    &&& s.right >= CROSSTALK_FLOOR
    &&& !(s.up == 0 && s.down == 0 && s.left == 0 && s.right == 0)
    &&& !(s.up == 255 && s.down == 255 && s.left == 255 && s.right == 255)
}

/// `((a - b) * 100) / (a + b)`, the division truncating toward zero; 0 when
/// `a + b` is 0, which accepted samples never give.
pub open spec fn ratio_of(a: u8, b: u8) -> int {
    if a as int + b as int == 0 {
        0
    } else if a >= b {
        ((a - b) * 100) / (a + b)
    } else {
        -(((b - a) * 100) / (a + b))
    }
}

/// `1` for a rise of at least the threshold, `-1` for a fall of at least the
/// threshold, else `0`.
pub open spec fn tri_state_of(delta: int) -> int {
    if delta >= MOVEMENT_THRESHOLD {
        1
    } else if delta <= -MOVEMENT_THRESHOLD {
        -1
    } else {
        0
    }
}

pub open spec fn abs(x: int) -> int {
    if x < 0 {
        -x
    } else {
        x
    }
}

/// The decision table from the movement states of the two axes; where both
/// axes moved, the larger change wins and a tie goes to the left/right axis.
pub open spec fn decision(state_ud: int, state_lr: int, delta_ud: int, delta_lr: int) -> Gesture {
    let ud_wins = abs(delta_ud) > abs(delta_lr);
    if state_ud == -1 && state_lr == 0 {
        Gesture::Up
    } else if state_ud == 1 && state_lr == 0 {
        Gesture::Down
    } else if state_ud == 0 && state_lr == -1 {
        Gesture::Left
    } else if state_ud == 0 && state_lr == 1 {
        Gesture::Right
    } else if state_ud == -1 && state_lr == 1 {
        if ud_wins { Gesture::Up } else { Gesture::Right }
    } else if state_ud == 1 && state_lr == -1 {
        if ud_wins { Gesture::Down } else { Gesture::Left }
    } else if state_ud == -1 && state_lr == -1 {
        if ud_wins { Gesture::Up } else { Gesture::Left }
    } else if state_ud == 1 && state_lr == 1 {
        if ud_wins { Gesture::Down } else { Gesture::Right }
    } else {
        Gesture::NoGesture
    }
}

/// The change of the up/down ratio from `first` to `last`.
pub open spec fn delta_ud(first: Sample, last: Sample) -> int {
    ratio_of(last.up, last.down) - ratio_of(first.up, first.down)
}

/// The change of the left/right ratio from `first` to `last`.
pub open spec fn delta_lr(first: Sample, last: Sample) -> int {
    ratio_of(last.left, last.right) - ratio_of(first.left, first.right)
}

/// The direction of a swipe that begins with `first` and ends with `last`.
pub open spec fn classification(first: Sample, last: Sample) -> Gesture {
    let du = delta_ud(first, last);
    let dl = delta_lr(first, last);
    decision(tri_state_of(du), tri_state_of(dl), du, dl)
}

/// The direction of a swipe given by its accepted samples: `None` with fewer
/// than two, else the classification of the first and the last.
pub open spec fn gesture_of(samples: Seq<Sample>) -> Gesture {
    if samples.len() < 2 {
        Gesture::NoGesture
    } else {
        classification(samples[0], samples.last())
    }
}

/// The `k`-th four-byte dataset of `bytes`.
pub open spec fn sample_at(bytes: Seq<u8>, k: int) -> Sample {
    Sample {
        up: bytes[4 * k],
        down: bytes[4 * k + 1],
        left: bytes[4 * k + 2],
        right: bytes[4 * k + 3],
    }
}

/// The accepted samples among the first `n` datasets of `bytes`, in order.
pub open spec fn accepted_prefix(bytes: Seq<u8>, n: nat) -> Seq<Sample>
    decreases n,
{
    if n == 0 {
        Seq::empty()
    } else {
        let rest = accepted_prefix(bytes, (n - 1) as nat);
        let s = sample_at(bytes, n - 1);
        if is_accepted(s) {
            rest.push(s)
        } else {
            rest
        }
    }
}

/// The accepted samples among the whole datasets of `bytes`, in order; a
/// trailing partial dataset is ignored.
pub open spec fn accepted_samples(bytes: Seq<u8>) -> Seq<Sample> {
    accepted_prefix(bytes, bytes.len() / 4)
}

/// The filter drops every sample with a channel below the cross-talk floor,
/// the all-zero sample and the all-255 sample, and keeps the sample with
/// every channel at the floor.
pub proof fn lemma_filter_rules(s: Sample)
    ensures
        s.up < CROSSTALK_FLOOR || s.down < CROSSTALK_FLOOR || s.left < CROSSTALK_FLOOR || s.right
            < CROSSTALK_FLOOR ==> !is_accepted(s),
        !is_accepted(Sample { up: 0, down: 0, left: 0, right: 0 }),
        !is_accepted(Sample { up: 255, down: 255, left: 255, right: 255 }),
        is_accepted(
            Sample {
                up: CROSSTALK_FLOOR,
                down: CROSSTALK_FLOOR,
                left: CROSSTALK_FLOOR,
                right: CROSSTALK_FLOOR,
            },
        ),
{
}

/// The accepted samples among the first `n` datasets depend on those
/// datasets alone.
proof fn lemma_accepted_prefix_stable(a: Seq<u8>, b: Seq<u8>, n: nat)
    requires
        4 * n <= a.len(),
        4 * n <= b.len(),
        a.take(4 * n as int) == b.take(4 * n as int),
    ensures
        accepted_prefix(a, n) == accepted_prefix(b, n),
    decreases n,
{
    if n > 0 {
        let k: int = n - 1;
        let m: int = 4 * n as int;
        assert(a.take(4 * k) =~= a.take(m).take(4 * k));
        assert(b.take(4 * k) =~= b.take(m).take(4 * k));
        lemma_accepted_prefix_stable(a, b, k as nat);
        assert(a[4 * k] == a.take(m)[4 * k] && b[4 * k] == b.take(m)[4 * k]);
        assert(a[4 * k + 1] == a.take(m)[4 * k + 1] && b[4 * k + 1] == b.take(m)[4 * k + 1]);
        assert(a[4 * k + 2] == a.take(m)[4 * k + 2] && b[4 * k + 2] == b.take(m)[4 * k + 2]);
        assert(a[4 * k + 3] == a.take(m)[4 * k + 3] && b[4 * k + 3] == b.take(m)[4 * k + 3]);
        assert(sample_at(a, k) == sample_at(b, k));
    }
}

/// The bytes of one dataset, in FIFO order.
pub open spec fn sample_bytes(s: Sample) -> Seq<u8> {
    seq![s.up, s.down, s.left, s.right]
}

/// A dataset that the filter drops, read after whole datasets, changes
/// neither the accepted samples nor the gesture they decode to.
pub proof fn lemma_rejected_sample_ignored(bytes: Seq<u8>, s: Sample)
    requires
        bytes.len() % 4 == 0,
        !is_accepted(s),
    ensures
        accepted_samples(bytes + sample_bytes(s)) == accepted_samples(bytes),
        gesture_of(accepted_samples(bytes + sample_bytes(s))) == gesture_of(accepted_samples(bytes)),
{
    let more = bytes + sample_bytes(s);
    let n: nat = bytes.len() / 4;
    assert(more.len() / 4 == n + 1);
    assert(more.take(4 * n as int) =~= bytes.take(4 * n as int));
    lemma_accepted_prefix_stable(more, bytes, n);
    assert(sample_at(more, n as int) == s);
}

/// Whether the filter keeps `s`.
pub fn accept_sample(s: Sample) -> (r: bool)
    ensures
        r == is_accepted(s),
{
    s.up >= CROSSTALK_FLOOR && s.down >= CROSSTALK_FLOOR && s.left >= CROSSTALK_FLOOR && s.right
        >= CROSSTALK_FLOOR && !(s.up == 0 && s.down == 0 && s.left == 0 && s.right == 0) && !(
    s.up == 255 && s.down == 255 && s.left == 255 && s.right == 255)
}

/// The normalized difference of two opposing channels,
/// `((a - b) * 100) / (a + b)`, truncated toward zero. Two zero readings give
/// 0 rather than a division by zero.
pub fn ratio(a: u8, b: u8) -> (r: i32)
    ensures
        r == ratio_of(a, b),
        -100 <= r <= 100,
{
    let sum: u32 = a as u32 + b as u32;
    if sum == 0 {
        0
    } else if a >= b {
        let d: u32 = (a - b) as u32;
        assert(d * 100 <= sum * 100);
        let q: u32 = (d * 100) / sum;
        assert(q <= 100) by (nonlinear_arith)
            requires
                q as int == (d as int * 100) / (sum as int),
                d <= sum,
                sum > 0,
        ;
        q as i32
    } else {
        let d: u32 = (b - a) as u32;
        let q: u32 = (d * 100) / sum;
        assert(q <= 100) by (nonlinear_arith)
            requires
                q as int == (d as int * 100) / (sum as int),
                d <= sum,
                sum > 0,
        ;
        -(q as i32)
    }
}

/// Classifies a change of ratio: `1`, `-1` or `0`.
pub fn tri_state(delta: i32) -> (r: i8)
    ensures
        r == tri_state_of(delta as int),
{
    if delta >= MOVEMENT_THRESHOLD {
        1
    } else if delta <= -MOVEMENT_THRESHOLD {
        -1
    } else {
        0
    }
}

/// The decision table: the direction for the movement states of the two axes
/// and the changes of ratio they come from.
pub fn decide(state_ud: i8, state_lr: i8, delta_ud: i32, delta_lr: i32) -> (r: Gesture)
    ensures
        r == decision(state_ud as int, state_lr as int, delta_ud as int, delta_lr as int),
{
    let abs_ud: i64 = if delta_ud < 0 { -(delta_ud as i64) } else { delta_ud as i64 };
    let abs_lr: i64 = if delta_lr < 0 { -(delta_lr as i64) } else { delta_lr as i64 };
    let ud_wins = abs_ud > abs_lr;
    match (state_ud, state_lr) {
        (-1, 0) => Gesture::Up,
        (1, 0) => Gesture::Down,
        (0, -1) => Gesture::Left,
        (0, 1) => Gesture::Right,
        (-1, 1) => if ud_wins { Gesture::Up } else { Gesture::Right },
        (1, -1) => if ud_wins { Gesture::Down } else { Gesture::Left },
        (-1, -1) => if ud_wins { Gesture::Up } else { Gesture::Left },
        (1, 1) => if ud_wins { Gesture::Down } else { Gesture::Right },
        _ => Gesture::NoGesture,
    }
}

/// The direction of a swipe from its first to its last sample.
pub fn classify(first: Sample, last: Sample) -> (r: Gesture)
    ensures
        r == classification(first, last),
{
    let delta_ud = ratio(last.up, last.down) - ratio(first.up, first.down);
    let delta_lr = ratio(last.left, last.right) - ratio(first.left, first.right);
    decide(tri_state(delta_ud), tri_state(delta_lr), delta_ud, delta_lr)
}

/// The direction of a swipe given by its accepted samples in arrival order.
pub fn gesture_from_samples(samples: &[Sample]) -> (r: Gesture)
    ensures
        r == gesture_of(samples@),
{
    if samples.len() < 2 {
        Gesture::NoGesture
    } else {
        classify(samples[0], samples[samples.len() - 1])
    }
}

/// Appends to `samples` the accepted datasets of `bytes`, in order.
pub fn push_accepted(samples: &mut Vec<Sample>, bytes: &[u8])
    ensures
        final(samples)@ == old(samples)@ + accepted_samples(bytes@),
        accepted_samples(bytes@).len() <= bytes@.len() / 4,
{
    let len: usize = bytes.len();
    let n: usize = len / 4;
    let mut k: usize = 0;
    while k < n
        invariant
            len == bytes@.len(),
            n == bytes@.len() / 4,
            k <= n,
            samples@ == old(samples)@ + accepted_prefix(bytes@, k as nat),
            accepted_prefix(bytes@, k as nat).len() <= k,
        decreases n - k,
    {
        assert(4 * k + 3 < len) by (nonlinear_arith)
            requires
                k < n,
                n == len / 4,
        ;
        let i: usize = 4 * k;
        let s = Sample { up: bytes[i], down: bytes[i + 1], left: bytes[i + 2], right: bytes[i + 3] };
        assert(s == sample_at(bytes@, k as int));
        if accept_sample(s) {
            samples.push(s);
        }
        k = k + 1;
        assert(samples@ =~= old(samples)@ + accepted_prefix(bytes@, k as nat));
    }
}

} // verus!
