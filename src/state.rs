//! Atomic flag register and its snapshots.
//!
//! The register is one `AtomicU64`; every write is a single atomic
//! read-modify-write whose new value is computed by a verified function of the
//! value it replaced, so a reader only ever sees whole register values.

use std::sync::atomic::{AtomicU64, Ordering};
use vstd::prelude::*;

verus! {

/// The bit that stands for `flag` in the register.
pub open spec fn bit(flag: u32) -> u64 {
    1u64 << (flag as u64)
}

/// Whether `flag` is set in the register value `v`.
pub open spec fn flag_in(v: u64, flag: u32) -> bool {
    v & bit(flag) != 0
}

/// The register value `v` with `flag` forced to `value`.
pub open spec fn with_flag(v: u64, flag: u32, value: bool) -> u64 {
    if value {
        v | bit(flag)
    } else {
        v & !bit(flag)
    }
}

/// The bits under `mask` taken from `values`, the others from `current`.
pub open spec fn merged(current: u64, mask: u64, values: u64) -> u64 {
    (current & !mask) | (values & mask)
}

/// The bits of every flag that a batch names.
pub open spec fn batch_mask(updates: Seq<(u32, bool)>) -> u64
    decreases updates.len(),
{
    if updates.len() == 0 {
        0
    } else {
        batch_mask(updates.drop_last()) | bit(updates.last().0)
    }
}

/// The bits of every flag that a batch sets to `true` in at least one pair.
pub open spec fn batch_values(updates: Seq<(u32, bool)>) -> u64
    decreases updates.len(),
{
    if updates.len() == 0 {
        0
    } else if updates.last().1 {
        batch_values(updates.drop_last()) | bit(updates.last().0)
    } else {
        batch_values(updates.drop_last())
    }
}

/// The register value after applying a whole batch to `v` at once.
pub open spec fn with_batch(v: u64, updates: Seq<(u32, bool)>) -> u64 {
    merged(v, batch_mask(updates), batch_values(updates))
}

/// Every flag index of a batch is inside the register.
pub open spec fn batch_in_range(updates: Seq<(u32, bool)>) -> bool {
    forall|j: int| 0 <= j < updates.len() ==> #[trigger] updates[j].0 < 64
}

/// An immutable copy of the register taken at one instant.
#[derive(Debug, Clone, Copy, PartialEq, Eq)]
pub struct FlagsSnapshot(u64);

impl View for FlagsSnapshot {
    type V = u64;

    closed spec fn view(&self) -> u64 {
        self.0
    }
}

impl FlagsSnapshot {
    /// Whether `flag` was set when the snapshot was taken.
    pub fn get(&self, flag: u32) -> (r: bool)
        requires
            flag < 64,
        ensures
            r == flag_in(self@, flag),
    {
        let mask = bit_mask(flag);
        self.0 & mask != 0
    }

    /// The whole register value that was captured.
    pub fn raw(&self) -> (r: u64)
        ensures
            r == self@,
    {
        self.0
    }
}

/// One atomic write of the register: the value it replaced and the value it
/// stored.
#[derive(Debug, Clone, Copy, PartialEq, Eq)]
pub struct FlagsTransition {
    pub before: FlagsSnapshot,
    pub after: FlagsSnapshot,
}

fn bit_mask(flag: u32) -> (r: u64)
    requires
        flag < 64,
    ensures
        r == bit(flag),
{
    1u64 << (flag as u64)
}

/// Keeps the bits of `current` outside `mask` and takes those under it from
/// `values`.
pub fn merge_flags(current: u64, mask: u64, values: u64) -> (r: u64)
    ensures
        r == merged(current, mask, values),
{
    (current & !mask) | (values & mask)
}

/// Relies on `AtomicU64::fetch_update`: it reads the register and stores
/// `merge_flags(previous, mask, values)` in one atomic read-modify-write
/// (retrying while other writers interfere), and returns the value it
/// replaced. Which value that was depends on the other threads.
#[verifier::external_body]
fn fetch_merge(register: &AtomicU64, mask: u64, values: u64) -> (previous: u64) {
    match register.fetch_update(
        Ordering::SeqCst,
        Ordering::SeqCst,
        |current| Some(merge_flags(current, mask, values)),
    ) {
        Ok(previous) => previous,
        Err(previous) => previous,
    }
}

/// A register of 64 named boolean flags, shared by reference between threads.
#[derive(Debug)]
pub struct StateFlags {
    flags: AtomicU64,
}

impl StateFlags {
    /// Flag index: the application is running.
    pub const RUNNING: u32 = 0;
    /// Flag index: the application is processing.
    pub const PROCESSING: u32 = 1;
    /// Flag index: debug mode.
    pub const DEBUG: u32 = 2;
    /// Flag index: the application has an error.
    pub const HAS_ERROR: u32 = 3;
    /// Flag index: waiting for input.
    pub const AWAITING_INPUT: u32 = 4;
    /// Flag index: a render pass is in progress.
    pub const RENDERING: u32 = 5;
    /// Number of flags the register holds.
    pub const MAX_FLAGS: u32 = 64;

    /// A register holding `initial`.
    pub fn new(initial: u64) -> Self {
        StateFlags { flags: AtomicU64::new(initial) }
    }

    /// A register with every flag false.
    pub fn default() -> Self {
        Self::new(0)
    }

    /// Sets `flag` to `value` in one atomic read-modify-write and returns that
    /// write: every other flag keeps the value it had just before.
    pub fn set(&self, flag: u32, value: bool) -> (r: FlagsTransition)
        requires
            flag < 64,
        ensures
            r.after@ == with_flag(r.before@, flag, value),
    {
        let mask = bit_mask(flag);
        let values: u64 = if value { mask } else { 0 };
        let before = fetch_merge(&self.flags, mask, values);
        let after = merge_flags(before, mask, values);
        proof {
            lemma_merge_single(before, flag, value);
        }
        FlagsTransition { before: FlagsSnapshot(before), after: FlagsSnapshot(after) }
    }

    /// Reads `flag` with one atomic load of the register.
    pub fn get(&self, flag: u32) -> bool
        requires
            flag < 64,
    {
        self.snapshot().get(flag)
    }

    /// Captures the whole register with one atomic load.
    pub fn snapshot(&self) -> FlagsSnapshot {
        FlagsSnapshot(self.flags.load(Ordering::SeqCst))
    }

    /// Applies every `(flag, value)` pair in one atomic read-modify-write, so
    /// that no reader sees part of the batch. A flag named more than once ends
    /// up set when any of its pairs sets it.
    pub fn update_multiple(&self, updates: Vec<(u32, bool)>) -> (r: FlagsTransition)
        requires
            batch_in_range(updates@),
        ensures
            r.after@ == with_batch(r.before@, updates@),
    {
        let mut mask: u64 = 0;
        let mut values: u64 = 0;
        let mut k: usize = 0;
        while k < updates.len()
            invariant
                k <= updates@.len(),
                batch_in_range(updates@),
                mask == batch_mask(updates@.take(k as int)),
                values == batch_values(updates@.take(k as int)),
            decreases updates@.len() - k,
        {
            let (flag, value) = updates[k];
            let b = bit_mask(flag);
            mask = mask | b;
            if value {
                values = values | b;
            }
            proof {
                let t = updates@.take(k as int + 1);
                assert(t.drop_last() =~= updates@.take(k as int));
                assert(t.last() == updates@[k as int]);
            }
            k = k + 1;
        }
        assert(updates@.take(updates@.len() as int) =~= updates@);
        let before = fetch_merge(&self.flags, mask, values);
        let after = merge_flags(before, mask, values);
        FlagsTransition { before: FlagsSnapshot(before), after: FlagsSnapshot(after) }
    }
}

proof fn lemma_merge_single(v: u64, flag: u32, value: bool)
    requires
        flag < 64,
    ensures
        merged(v, bit(flag), if value { bit(flag) } else { 0 }) == with_flag(v, flag, value),
{
    let m = bit(flag);
    if value {
        assert((v & !m) | (m & m) == v | m) by (bit_vector);
    } else {
        assert((v & !m) | (0u64 & m) == v & !m) by (bit_vector);
    }
}

/// A point-in-time view of application state.
pub trait StateSnapshot: Clone + Send + std::fmt::Debug + 'static {
    /// Whether the application should terminate, as of this view.
    fn should_quit(&self) -> bool;
}

/// Application state shared between the run loop, the event loop and
/// background work: it yields consistent snapshots and holds an irreversible
/// quit signal.
pub trait AtomicState: Send + Sync + std::fmt::Debug + 'static {
    type Snapshot: StateSnapshot;

    /// A view of the state as it was at one instant.
    fn snapshot(&self) -> Self::Snapshot;

    /// Signals termination; calling it again changes nothing.
    fn quit(&self);

    /// Whether termination has not been signalled yet.
    fn is_running(&self) -> bool;
}

impl StateSnapshot for FlagsSnapshot {
    fn should_quit(&self) -> bool {
        !self.get(StateFlags::RUNNING)
    }
}

impl AtomicState for StateFlags {
    type Snapshot = FlagsSnapshot;

    fn snapshot(&self) -> FlagsSnapshot {
        StateFlags::snapshot(self)
    }

    fn quit(&self) {
        let _ = self.set(StateFlags::RUNNING, false);
    }

    fn is_running(&self) -> bool {
        self.get(StateFlags::RUNNING)
    }
}

proof fn lemma_bit_or(m: u64, l: u64, g: u64)
    requires
        l < 64,
        g < 64,
    ensures
        ((m | (1u64 << l)) & (1u64 << g) != 0) == ((m & (1u64 << g) != 0) || l == g),
{
    assert(((m | (1u64 << l)) & (1u64 << g) != 0) == ((m & (1u64 << g) != 0) || l == g))
        by (bit_vector)
        requires
            l < 64,
            g < 64,
    ;
}

proof fn lemma_bit_clear(m: u64, l: u64, g: u64)
    requires
        l < 64,
        g < 64,
    ensures
        ((m & !(1u64 << l)) & (1u64 << g) != 0) == ((m & (1u64 << g) != 0) && l != g),
{
    assert(((m & !(1u64 << l)) & (1u64 << g) != 0) == ((m & (1u64 << g) != 0) && l != g))
        by (bit_vector)
        requires
            l < 64,
            g < 64,
    ;
}

proof fn lemma_bit_merge(v: u64, m: u64, x: u64, g: u64)
    requires
        g < 64,
    ensures
        (((v & !m) | (x & m)) & (1u64 << g) != 0) == (if m & (1u64 << g) != 0 {
            x & (1u64 << g) != 0
        } else {
            v & (1u64 << g) != 0
        }),
{
    assert((((v & !m) | (x & m)) & (1u64 << g) != 0) == (if m & (1u64 << g) != 0 {
        x & (1u64 << g) != 0
    } else {
        v & (1u64 << g) != 0
    })) by (bit_vector)
        requires
            g < 64,
    ;
}

/// Writing one flag sets that flag to the value written and leaves every other
/// flag as it was.
pub proof fn lemma_set_flag(v: u64, flag: u32, value: bool, other: u32)
    requires
        flag < 64,
        other < 64,
    ensures
        flag_in(with_flag(v, flag, value), flag) == value,
        other != flag ==> flag_in(with_flag(v, flag, value), other) == flag_in(v, other),
{
    lemma_bit_or(v, flag as u64, flag as u64);
    lemma_bit_or(v, flag as u64, other as u64);
    lemma_bit_clear(v, flag as u64, flag as u64);
    lemma_bit_clear(v, flag as u64, other as u64);
}

/// The batch mask holds exactly the flags that the batch names, and the batch
/// values exactly those that one of its pairs sets to `true`.
pub proof fn lemma_batch_masks(updates: Seq<(u32, bool)>, g: u32)
    requires
        batch_in_range(updates),
        g < 64,
    ensures
        flag_in(batch_mask(updates), g) <==> exists|j: int|
            0 <= j < updates.len() && #[trigger] updates[j].0 == g,
        flag_in(batch_values(updates), g) <==> exists|j: int|
            0 <= j < updates.len() && #[trigger] updates[j].0 == g && updates[j].1,
    decreases updates.len(),
{
    if updates.len() == 0 {
        let gg = g as u64;
        assert(0u64 & (1u64 << gg) == 0) by (bit_vector);
    } else {
        let init = updates.drop_last();
        let l = updates.last();
        assert(batch_in_range(init)) by {
            assert forall|j: int| 0 <= j < init.len() implies #[trigger] init[j].0 < 64 by {
                assert(init[j] == updates[j]);
            }
        }
        assert(updates[updates.len() - 1] == l);
        lemma_batch_masks(init, g);
        lemma_bit_or(batch_mask(init), l.0 as u64, g as u64);
        lemma_bit_or(batch_values(init), l.0 as u64, g as u64);
        if exists|j: int| 0 <= j < updates.len() && #[trigger] updates[j].0 == g {
            let j = choose|j: int| 0 <= j < updates.len() && #[trigger] updates[j].0 == g;
            if j < init.len() {
                assert(init[j] == updates[j]);
            }
        }
        if exists|j: int| 0 <= j < updates.len() && #[trigger] updates[j].0 == g && updates[j].1 {
            let j = choose|j: int|
                0 <= j < updates.len() && #[trigger] updates[j].0 == g && updates[j].1;
            if j < init.len() {
                assert(init[j] == updates[j]);
            }
        }
        if exists|j: int| 0 <= j < init.len() && #[trigger] init[j].0 == g {
            let j = choose|j: int| 0 <= j < init.len() && #[trigger] init[j].0 == g;
            assert(updates[j] == init[j]);
        }
        if exists|j: int| 0 <= j < init.len() && #[trigger] init[j].0 == g && init[j].1 {
            let j = choose|j: int| 0 <= j < init.len() && #[trigger] init[j].0 == g && init[j].1;
            assert(updates[j] == init[j]);
        }
    }
}

/// A batch write sets every flag it names: to `true` when one of its pairs says
/// `true`, else to `false`; every flag it does not name keeps its value.
pub proof fn lemma_batch_flags(v: u64, updates: Seq<(u32, bool)>, g: u32)
    requires
        batch_in_range(updates),
        g < 64,
    ensures
        flag_in(with_batch(v, updates), g) == if exists|j: int|
            0 <= j < updates.len() && #[trigger] updates[j].0 == g {
            exists|j: int| 0 <= j < updates.len() && #[trigger] updates[j].0 == g && updates[j].1
        } else {
            flag_in(v, g)
        },
{
    lemma_batch_masks(updates, g);
    lemma_bit_merge(v, batch_mask(updates), batch_values(updates), g as u64);
}

/// Batch atomicity: a batch that sets two flags which were both false goes from
/// a register with neither set to one with both set, so neither of the two
/// register values a reader can load holds exactly one of them.
pub proof fn lemma_batch_both_or_neither(v: u64, a: u32, b: u32)
    requires
        a < 64,
        b < 64,
        !flag_in(v, a),
        !flag_in(v, b),
    ensures
        flag_in(with_batch(v, seq![(a, true), (b, true)]), a),
        flag_in(with_batch(v, seq![(a, true), (b, true)]), b),
{
    let u = seq![(a, true), (b, true)];
    assert(u[0] == (a, true));
    assert(u[1] == (b, true));
    assert(u[0].0 == a && u[0].1);
    assert(u[1].0 == b && u[1].1);
    assert(batch_in_range(u));
    lemma_batch_flags(v, u, a);
    lemma_batch_flags(v, u, b);
}

/// Quit is idempotent: clearing the running flag leaves it false, and clearing
/// it again stores the same register value.
pub proof fn lemma_quit_idempotent(v: u64)
    ensures
        !flag_in(with_flag(v, StateFlags::RUNNING, false), StateFlags::RUNNING),
        with_flag(with_flag(v, StateFlags::RUNNING, false), StateFlags::RUNNING, false)
            == with_flag(v, StateFlags::RUNNING, false),
{
    lemma_set_flag(v, StateFlags::RUNNING, false, StateFlags::RUNNING);
    let m = bit(StateFlags::RUNNING);
    assert((v & !m) & !m == v & !m) by (bit_vector);
}

/// Once quit, the running flag stays false under every write that does not
/// itself set it to `true`.
pub proof fn lemma_quit_stays(v: u64, flag: u32, value: bool)
    requires
        flag < 64,
        !flag_in(v, StateFlags::RUNNING),
        flag != StateFlags::RUNNING || !value,
    ensures
        !flag_in(with_flag(v, flag, value), StateFlags::RUNNING),
{
    lemma_set_flag(v, flag, value, StateFlags::RUNNING);
}

/// A snapshot is a copy: one taken before a write that clears a flag still
/// reads that flag as set, while the register now holds it cleared.
pub proof fn lemma_snapshot_immutable(s: FlagsSnapshot, t: FlagsTransition, flag: u32)
    requires
        flag < 64,
        s == t.before,
        flag_in(s@, flag),
        t.after@ == with_flag(t.before@, flag, false),
    ensures
        flag_in(s@, flag),
        !flag_in(t.after@, flag),
{
    lemma_set_flag(t.before@, flag, false, flag);
}

/// Step `i` of a register history clears the running flag, as `quit` does.
pub open spec fn quit_step(h: Seq<u64>, i: int) -> bool {
    h[i + 1] == with_flag(h[i], StateFlags::RUNNING, false)
}

/// Step `i` of a register history does not set the running flag again once
/// it is clear.
pub open spec fn no_restart_step(h: Seq<u64>, i: int) -> bool {
    !flag_in(h[i], StateFlags::RUNNING) ==> !flag_in(h[i + 1], StateFlags::RUNNING)
}

proof fn lemma_quit_at(h: Seq<u64>, i: int)
    requires
        h.len() >= 2,
        quit_step(h, 0),
        forall|j: int| 1 <= j < h.len() - 1 ==> #[trigger] no_restart_step(h, j),
        1 <= i < h.len(),
    ensures
        !flag_in(h[i], StateFlags::RUNNING),
    decreases i,
{
    if i == 1 {
        lemma_quit_idempotent(h[0]);
    } else {
        lemma_quit_at(h, i - 1);
        assert(no_restart_step(h, i - 1));
    }
}

/// Quit is final: in a history of register values whose first write is a
/// quit and whose later writes, from any threads, never set the running flag
/// again, every value after the quit reads as not running.
pub proof fn lemma_quit_history(h: Seq<u64>)
    requires
        h.len() >= 2,
        quit_step(h, 0),
        forall|j: int| 1 <= j < h.len() - 1 ==> #[trigger] no_restart_step(h, j),
    ensures
        forall|i: int| 1 <= i < h.len() ==> !flag_in(#[trigger] h[i], StateFlags::RUNNING),
{
    assert forall|i: int| 1 <= i < h.len() implies !flag_in(#[trigger] h[i], StateFlags::RUNNING) by {
        lemma_quit_at(h, i);
    }
}

proof fn lemma_quit_repeated_at(h: Seq<u64>, i: int)
    requires
        h.len() >= 2,
        forall|j: int| 0 <= j < h.len() - 1 ==> #[trigger] quit_step(h, j),
        1 <= i < h.len(),
    ensures
        h[i] == h[1],
    decreases i,
{
    if i > 1 {
        lemma_quit_repeated_at(h, i - 1);
        assert(quit_step(h, i - 1));
        assert(quit_step(h, 0));
        lemma_quit_idempotent(h[0]);
    }
}

/// Quit is idempotent over any number of calls: in a history whose writes
/// are all quits, every value after the first quit is the value that the
/// first quit stored, and it reads as not running.
pub proof fn lemma_quit_repeated(h: Seq<u64>)
    requires
        h.len() >= 2,
        forall|j: int| 0 <= j < h.len() - 1 ==> #[trigger] quit_step(h, j),
    ensures
        !flag_in(h[1], StateFlags::RUNNING),
        forall|i: int| 1 <= i < h.len() ==> #[trigger] h[i] == h[1],
{
    assert(quit_step(h, 0));
    lemma_quit_idempotent(h[0]);
    assert forall|i: int| 1 <= i < h.len() implies #[trigger] h[i] == h[1] by {
        lemma_quit_repeated_at(h, i);
    }
}

/// The batch that sets flags `a` and `b` together.
pub open spec fn pair_batch(a: u32, b: u32) -> Seq<(u32, bool)> {
    seq![(a, true), (b, true)]
}

/// Step `i` of a register history is that batch.
pub open spec fn pair_batch_step(h: Seq<u64>, i: int, a: u32, b: u32) -> bool {
    h[i + 1] == with_batch(h[i], pair_batch(a, b))
}

/// Step `i` of a register history leaves flags `a` and `b` as they were.
pub open spec fn keeps_pair_step(h: Seq<u64>, i: int, a: u32, b: u32) -> bool {
    &&& flag_in(h[i + 1], a) == flag_in(h[i], a)
    &&& flag_in(h[i + 1], b) == flag_in(h[i], b)
}

proof fn lemma_pair_batch_sets(v: u64, a: u32, b: u32)
    requires
        a < 64,
        b < 64,
    ensures
        flag_in(with_batch(v, pair_batch(a, b)), a),
        flag_in(with_batch(v, pair_batch(a, b)), b),
{
    let u = pair_batch(a, b);
    assert(u[0] == (a, true));
    assert(u[1] == (b, true));
    assert(u[0].0 == a && u[0].1);
    assert(u[1].0 == b && u[1].1);
    assert(batch_in_range(u));
    lemma_batch_flags(v, u, a);
    lemma_batch_flags(v, u, b);
}

proof fn lemma_pair_at(h: Seq<u64>, a: u32, b: u32, i: int)
    requires
        a < 64,
        b < 64,
        h.len() > 0,
        !flag_in(h[0], a),
        !flag_in(h[0], b),
        forall|j: int|
            0 <= j < h.len() - 1 ==> #[trigger] pair_batch_step(h, j, a, b) || keeps_pair_step(
                h,
                j,
                a,
                b,
            ),
        0 <= i < h.len(),
    ensures
        flag_in(h[i], a) == flag_in(h[i], b),
    decreases i,
{
    if i > 0 {
        lemma_pair_at(h, a, b, i - 1);
        assert(pair_batch_step(h, i - 1, a, b) || keeps_pair_step(h, i - 1, a, b));
        lemma_pair_batch_sets(h[i - 1], a, b);
    }
}

/// Batch atomicity over a whole history: start from a register with flags
/// `a` and `b` both clear, and let every write, from any thread, be either the
/// batch that sets both or a write that leaves both alone. Then no register
/// value that a reader can load holds exactly one of them, and once the batch
/// has been written both stay set.
pub proof fn lemma_batch_history(h: Seq<u64>, a: u32, b: u32)
    requires
        a < 64,
        b < 64,
        h.len() > 0,
        !flag_in(h[0], a),
        !flag_in(h[0], b),
        forall|j: int|
            0 <= j < h.len() - 1 ==> #[trigger] pair_batch_step(h, j, a, b) || keeps_pair_step(
                h,
                j,
                a,
                b,
            ),
    ensures
        forall|i: int| 0 <= i < h.len() ==> flag_in(#[trigger] h[i], a) == flag_in(h[i], b),
        forall|j: int|
            0 <= j < h.len() - 1 && #[trigger] pair_batch_step(h, j, a, b) ==> flag_in(h[j + 1], a)
                && flag_in(h[j + 1], b),
        forall|j: int|
            0 <= j < h.len() - 1 && flag_in(#[trigger] h[j], a) ==> flag_in(h[j + 1], a),
{
    assert forall|i: int| 0 <= i < h.len() implies flag_in(#[trigger] h[i], a) == flag_in(h[i], b) by {
        lemma_pair_at(h, a, b, i);
    }
    assert forall|j: int|
        0 <= j < h.len() - 1 && #[trigger] pair_batch_step(h, j, a, b) implies flag_in(h[j + 1], a)
            && flag_in(h[j + 1], b) by {
        lemma_pair_batch_sets(h[j], a, b);
    }
    assert forall|j: int| 0 <= j < h.len() - 1 && flag_in(#[trigger] h[j], a) implies flag_in(
        h[j + 1],
        a,
    ) by {
        assert(pair_batch_step(h, j, a, b) || keeps_pair_step(h, j, a, b));
        lemma_pair_batch_sets(h[j], a, b);
    }
}

} // verus!
