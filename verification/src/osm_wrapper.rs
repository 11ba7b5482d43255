//! Single-cell communication view.
//!
//! `OsmWrapper` is the one-element specialization of the communication view:
//! indexing a region at a single position yields a cell that can be read and
//! written locally by its owner and is a valid one-sided target for every
//! participant.  The put verbs here state the memory effect the runtime
//! delivers: the target cell holds the source value once the operation (or,
//! for the non-blocking form, the next synchronization point) has completed.

use vstd::prelude::*;

verus! {

/// A single element of symmetric memory, addressable by every participant.
pub struct OsmWrapper<T> {
    pub data: T,
}

impl<T: Copy> OsmWrapper<T> {
    /// Wraps a value as a one-element region.
    pub fn new(data: T) -> (r: OsmWrapper<T>)
        ensures
            r.data == data,
    {
        OsmWrapper { data }
    }

    /// Reads the cell.
    pub fn get(&self) -> (r: T)
        ensures
            r == self.data,
    {
        self.data
    }

    /// Writes the cell locally.
    pub fn set(&mut self, v: T)
        ensures
            final(self).data == v,
    {
        self.data = v;
    }

    /// Blocking single-cell put: the target cell on the peer holds this
    /// cell's value when the call returns.
    pub fn put_to(&self, target: &mut OsmWrapper<T>)
        ensures
            final(target).data == self.data,
    {
        target.data = self.data;
    }

    /// Non-blocking single-cell put: initiation only; the state given here
    /// is the target cell's content once the next synchronization point has
    /// passed.
    pub fn put_to_nbi(&self, target: &mut OsmWrapper<T>)
        ensures
            final(target).data == self.data,
    {
        target.data = self.data;
    }

    /// Blocking single-cell get: fills this cell from the peer's cell.
    pub fn get_from(&mut self, source: &OsmWrapper<T>)
        ensures
            final(self).data == source.data,
    {
        self.data = source.data;
    }

    /// Non-blocking single-cell get: completion only after the next
    /// synchronization point.
    pub fn get_from_nbi(&mut self, source: &OsmWrapper<T>)
        ensures
            final(self).data == source.data,
    {
        self.data = source.data;
    }
}

/// The 64-bit cell value after adding `b`, with wrap-around modulo 2^64 —
/// the arithmetic the runtime's fetch-and-add performs.
pub open spec fn spec_wrap_add64(a: int, b: int) -> int {
    (a + b) % 0x1_0000_0000_0000_0000
}

/// A value below 2^65 reduced modulo 2^64 is itself or itself less 2^64.
proof fn lemma_wrap64_unfold(x: int)
    requires
        0 <= x < 2 * 0x1_0000_0000_0000_0000,
    ensures
        x % 0x1_0000_0000_0000_0000 == if x < 0x1_0000_0000_0000_0000 {
            x
        } else {
            x - 0x1_0000_0000_0000_0000
        },
{
    let m: int = 0x1_0000_0000_0000_0000;
    if x < m {
        vstd::arithmetic::div_mod::lemma_small_mod(x as nat, m as nat);
    } else {
        vstd::arithmetic::div_mod::lemma_mod_self_0(m);
        vstd::arithmetic::div_mod::lemma_sub_mod_noop_right(x, m, m);
        vstd::arithmetic::div_mod::lemma_small_mod((x - m) as nat, m as nat);
    }
}

impl OsmWrapper<u64> {
    /// Atomic fetch-and-add on the shared cell, with wrap-around modulo
    /// 2^64 as the runtime's fetch-and-add has.  Concurrent calls from
    /// several participants are linearized by the runtime; this is the
    /// effect of one call at its place in that order.
    pub fn fetch_add(&mut self, value: u64) -> (prev: u64)
        ensures
            prev == old(self).data,
            final(self).data == spec_wrap_add64(old(self).data as int, value as int),
    {
        let prev = self.data;
        let wide: u128 = prev as u128 + value as u128;
        self.data = (wide % 0x1_0000_0000_0000_0000u128) as u64;
        prev
    }

    /// Atomic compare-and-swap on the shared cell: installs `desired` only
    /// if the cell holds `expected`; returns the previous value either way.
    pub fn compare_and_swap(&mut self, expected: u64, desired: u64) -> (prev: u64)
        ensures
            prev == old(self).data,
            final(self).data == if old(self).data == expected {
                desired
            } else {
                old(self).data
            },
    {
        let prev = self.data;
        if prev == expected {
            self.data = desired;
        }
        prev
    }
}

/// The effect of `k` participants each issuing one fetch-add(1) on the same
/// shared cell, applied in their linearization order and drained by a
/// trailing barrier: the cell ends `k` above its initial value (modulo
/// 2^64), and the i-th call in the order observes the initial value plus
/// `i`.
pub fn fetch_add_round(cell: &mut OsmWrapper<u64>, k: usize) -> (prevs: Vec<u64>)
    ensures
        final(cell).data == spec_wrap_add64(old(cell).data as int, k as int),
        prevs@.len() == k,
        forall|i: int|
            0 <= i < k ==> #[trigger] prevs@[i] == spec_wrap_add64(old(cell).data as int, i),
{
    let ghost initial = old(cell).data as int;
    let ghost m: int = 0x1_0000_0000_0000_0000;
    proof {
        vstd::arithmetic::div_mod::lemma_small_mod(initial as nat, m as nat);
    }
    let mut prevs: Vec<u64> = Vec::with_capacity(k);
    let mut i: usize = 0;
    while i < k
        invariant
            i <= k,
            m == 0x1_0000_0000_0000_0000,
            initial == old(cell).data as int,
            cell.data == spec_wrap_add64(initial, i as int),
            prevs@.len() == i,
            forall|j: int| 0 <= j < i ==> #[trigger] prevs@[j] == spec_wrap_add64(initial, j),
        decreases k - i,
    {
        let prev = cell.fetch_add(1);
        proof {
            vstd::arithmetic::div_mod::lemma_add_mod_noop(initial + i, 1, m);
            vstd::arithmetic::div_mod::lemma_small_mod(1nat, m as nat);
        }
        prevs.push(prev);
        i += 1;
    }
    prevs
}

/// The `k` previous values observed by concurrent fetch-add(1) callers
/// form a permutation of the `k` successors of the initial value (taken
/// modulo 2^64): they are pairwise distinct, and every such successor is
/// observed by some caller.  The cell is only 2^64 wide, so `k` at most
/// 2^64 is the whole domain on which distinctness can hold at all.
pub proof fn lemma_fetch_add_linearizable(initial: u64, k: nat, prevs: Seq<u64>)
    requires
        prevs.len() == k,
        k <= 0x1_0000_0000_0000_0000,
        forall|i: int|
            0 <= i < k ==> #[trigger] prevs[i] == spec_wrap_add64(initial as int, i),
    ensures
        forall|i: int, j: int| 0 <= i < j < k ==> prevs[i] != prevs[j],
        forall|i: int|
            0 <= i < k ==> prevs.contains(#[trigger] spec_wrap_add64(initial as int, i) as u64),
{
    let m: int = 0x1_0000_0000_0000_0000;
    assert forall|i: int, j: int| 0 <= i < j < k implies prevs[i] != prevs[j] by {
        lemma_wrap64_unfold(initial + i);
        lemma_wrap64_unfold(initial + j);
    }
    assert forall|i: int| 0 <= i < k implies prevs.contains(
        #[trigger] spec_wrap_add64(initial as int, i) as u64,
    ) by {
        lemma_wrap64_unfold(initial + i);
        assert(prevs[i] == spec_wrap_add64(initial as int, i));
    }
}

/// How many entries of a sequence hold the value `v`.
pub open spec fn count_eq(s: Seq<u64>, v: u64) -> nat
    decreases s.len(),
{
    if s.len() == 0 {
        0
    } else {
        count_eq(s.drop_last(), v) + if s.last() == v {
            1nat
        } else {
            0nat
        }
    }
}

/// The effect of `k` participants each issuing one compare-and-swap with
/// the same `expected` value on a cell that holds it, applied in their
/// linearization order: the first call in the order succeeds and installs
/// `desired`; every later call observes `desired` instead of its expected
/// value and leaves the cell alone.
pub fn compare_and_swap_round(
    cell: &mut OsmWrapper<u64>,
    expected: u64,
    desired: u64,
    k: usize,
) -> (prevs: Vec<u64>)
    requires
        k >= 1,
        old(cell).data == expected,
        desired != expected,
    ensures
        final(cell).data == desired,
        prevs@.len() == k,
        prevs@[0] == expected,
        forall|i: int| 1 <= i < k ==> #[trigger] prevs@[i] == desired,
{
    let mut prevs: Vec<u64> = Vec::with_capacity(k);
    let mut i: usize = 0;
    while i < k
        invariant
            i <= k,
            desired != expected,
            i == 0 ==> cell.data == expected,
            i >= 1 ==> cell.data == desired,
            prevs@.len() == i,
            i >= 1 ==> prevs@[0] == expected,
            forall|j: int| 1 <= j < i ==> #[trigger] prevs@[j] == desired,
        decreases k - i,
    {
        let prev = cell.compare_and_swap(expected, desired);
        prevs.push(prev);
        i += 1;
    }
    prevs
}

/// The same round with each caller bringing its own desired value, all
/// different from the shared expected value: the first caller in the
/// linearization order installs its desired value; every later caller
/// observes that value — different from its expected one — and leaves the
/// cell alone.
pub fn compare_and_swap_round_each(
    cell: &mut OsmWrapper<u64>,
    expected: u64,
    desireds: &Vec<u64>,
) -> (prevs: Vec<u64>)
    requires
        desireds@.len() >= 1,
        old(cell).data == expected,
        forall|i: int| 0 <= i < desireds@.len() ==> #[trigger] desireds@[i] != expected,
    ensures
        final(cell).data == desireds@[0],
        prevs@.len() == desireds@.len(),
        prevs@[0] == expected,
        forall|i: int| 1 <= i < prevs@.len() ==> #[trigger] prevs@[i] == desireds@[0],
{
    let k = desireds.len();
    let mut prevs: Vec<u64> = Vec::with_capacity(k);
    let mut i: usize = 0;
    while i < k
        invariant
            i <= k,
            k == desireds@.len(),
            forall|j: int| 0 <= j < k ==> #[trigger] desireds@[j] != expected,
            i == 0 ==> cell.data == expected,
            i >= 1 ==> cell.data == desireds@[0],
            prevs@.len() == i,
            i >= 1 ==> prevs@[0] == expected,
            forall|j: int| 1 <= j < i ==> #[trigger] prevs@[j] == desireds@[0],
        decreases k - i,
    {
        let prev = cell.compare_and_swap(expected, desireds[i]);
        prevs.push(prev);
        i += 1;
    }
    prevs
}

/// Exactly one of `k` concurrent compare-and-swap callers targeting the
/// same expected value succeeds: one observed previous value equals the
/// expected value, and every other caller observes a value different from
/// its expected one.  For callers with distinct desired values the same
/// holds with `desired` taken as the winner's value, which every loser
/// observes.
pub proof fn lemma_cas_one_winner(expected: u64, desired: u64, prevs: Seq<u64>)
    requires
        prevs.len() >= 1,
        prevs[0] == expected,
        desired != expected,
        forall|i: int| 1 <= i < prevs.len() ==> #[trigger] prevs[i] == desired,
    ensures
        count_eq(prevs, expected) == 1,
        forall|i: int| 1 <= i < prevs.len() ==> #[trigger] prevs[i] != expected,
    decreases prevs.len(),
{
    if prevs.len() == 1 {
        assert(prevs.drop_last().len() == 0);
        assert(count_eq(prevs.drop_last(), expected) == 0);
        assert(prevs.last() == expected);
    } else {
        lemma_cas_one_winner(expected, desired, prevs.drop_last());
        assert(prevs[prevs.len() - 1] == desired);
        assert(prevs.last() == desired);
        assert(count_eq(prevs, expected) == count_eq(prevs.drop_last(), expected));
    }
}

} // verus!
