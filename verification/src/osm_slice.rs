//! The communication view over a contiguous region of symmetric memory.
//!
//! `OsmSlice` is the entity that carries the verb surface of the substrate:
//! put/get (blocking and non-blocking), atomics and the chunked collectives.
//! This module holds the verified memory semantics of those verbs — what the
//! bytes of the destination region are once the operation has completed.  In
//! a live job the regions live on different participants and the transfer is
//! carried by the communication runtime; the contracts here state the effect
//! the runtime is documented to deliver: after a blocking call returns (or,
//! for the non-blocking form, after the next synchronization point) the
//! target region holds exactly the source bytes.
//!
//! Atomic verbs interpret a region of exactly 4 or 8 bytes as a
//! little-endian integer cell; any other length is the fatal
//! `InvalidOperandSize` configuration error.

use vstd::prelude::*;

use crate::BenchError;

verus! {

/// How many elements one chunked point-to-point operation may carry.
/// Collectives implemented as put loops are split into chunks of this size
/// to bound any single RDMA operation.
pub const P2P_SIZE: usize = 1024;

/// A contiguous region of symmetric memory holding elements of type `T`.
pub struct OsmSlice<T> {
    pub data: Vec<T>,
}

impl<T> View for OsmSlice<T> {
    type V = Seq<T>;

    open spec fn view(&self) -> Seq<T> {
        self.data@
    }
}

/// The little-endian integer value of a 4-byte cell.
pub open spec fn u32_of_le(s: Seq<u8>) -> int
    recommends
        s.len() == 4,
{
    s[0] + 0x100 * s[1] + 0x1_0000 * s[2] + 0x100_0000 * s[3]
}

/// The 4-byte little-endian encoding of a value in `[0, 2^32)`.
pub open spec fn le4_of(v: int) -> Seq<u8> {
    seq![
        (v % 0x100) as u8,
        ((v / 0x100) % 0x100) as u8,
        ((v / 0x1_0000) % 0x100) as u8,
        ((v / 0x100_0000) % 0x100) as u8,
    ]
}

/// The little-endian integer value of an 8-byte cell.
pub open spec fn u64_of_le(s: Seq<u8>) -> int
    recommends
        s.len() == 8,
{
    s[0] + 0x100 * s[1] + 0x1_0000 * s[2] + 0x100_0000 * s[3] + 0x1_0000_0000 * s[4]
        + 0x100_0000_0000 * s[5] + 0x1_0000_0000_0000 * s[6] + 0x100_0000_0000_0000 * s[7]
}

/// The 8-byte little-endian encoding of a value in `[0, 2^64)`.
pub open spec fn le8_of(v: int) -> Seq<u8> {
    seq![
        (v % 0x100) as u8,
        ((v / 0x100) % 0x100) as u8,
        ((v / 0x1_0000) % 0x100) as u8,
        ((v / 0x100_0000) % 0x100) as u8,
        ((v / 0x1_0000_0000) % 0x100) as u8,
        ((v / 0x100_0000_0000) % 0x100) as u8,
        ((v / 0x1_0000_0000_0000) % 0x100) as u8,
        ((v / 0x100_0000_0000_0000) % 0x100) as u8,
    ]
}

/// How many point-to-point operations a buffer of `len` elements takes
/// when it is moved in chunks of at most `P2P_SIZE` elements.
pub open spec fn spec_chunk_count(len: int) -> int {
    (len + P2P_SIZE - 1) / (P2P_SIZE as int)
}

/// One chunked point-to-point put: the element range `[start, end)` of the
/// source region, delivered at offset `dest_start` of the destination
/// region on `target_pe`.
#[derive(Clone, Copy, Debug, PartialEq, Eq, Structural)]
pub struct ChunkPut {
    pub start: usize,
    pub end: usize,
    pub dest_start: usize,
    pub target_pe: usize,
}

/// Number of chunks for a buffer of `len` elements.
pub fn chunk_count(len: usize) -> (r: usize)
    ensures
        r == spec_chunk_count(len as int),
{
    len / P2P_SIZE + if len % P2P_SIZE != 0 {
        1
    } else {
        0
    }
}

/// The base offset of this sender's designated sub-region of an
/// all-gather destination: slot `my_pe` of a destination of `dest_len`
/// elements divided evenly among `num_pes` participants.
pub fn all_gather_slot_base(dest_len: usize, my_pe: usize, num_pes: usize) -> (r: usize)
    requires
        my_pe < num_pes,
    ensures
        r == (my_pe * dest_len) as int / (num_pes as int),
        r <= dest_len,
{
    proof {
        assert((my_pe as int) * (dest_len as int) < 0x1_0000_0000_0000_0000
            * 0x1_0000_0000_0000_0000) by (nonlinear_arith)
            requires
                0 <= my_pe < 0x1_0000_0000_0000_0000,
                0 <= dest_len < 0x1_0000_0000_0000_0000,
        ;
    }
    let wide: u128 = (my_pe as u128) * (dest_len as u128) / (num_pes as u128);
    proof {
        assert((my_pe as int) * (dest_len as int) / (num_pes as int) <= dest_len)
            by (nonlinear_arith)
            requires
                0 <= my_pe < num_pes,
                0 <= dest_len,
        ;
        assert(wide == (my_pe as int) * (dest_len as int) / (num_pes as int));
    }
    wide as usize
}

/// The put plan one participant executes for an all-gather or all-reduce
/// realized as chunked point-to-point puts: for every other participant,
/// the buffer is sent in order in chunks of at most `P2P_SIZE` elements,
/// each delivered into the sender's designated sub-region of the
/// destination starting at `dest_base` (the sender-indexed slot for an
/// all-gather, offset zero for an all-reduce); a barrier after the plan
/// makes all contributions visible.  The plan's length is the number of
/// point-to-point operations issued, used to normalize throughput
/// accounting.
pub fn chunked_collective_plan(len: usize, my_pe: usize, num_pes: usize, dest_base: usize) -> (r:
    Vec<ChunkPut>)
    requires
        my_pe < num_pes,
        (num_pes - 1) * spec_chunk_count(len as int) <= usize::MAX,
        dest_base + len <= usize::MAX,
    ensures
        r@.len() == (num_pes - 1) * spec_chunk_count(len as int),
        forall|q: int, j: int|
            0 <= q < num_pes - 1 && 0 <= j < spec_chunk_count(len as int) ==> {
                let c = #[trigger] r@[q * spec_chunk_count(len as int) + j];
                &&& c.target_pe == (if q < my_pe {
                    q
                } else {
                    q + 1
                })
                &&& c.target_pe != my_pe
                &&& c.target_pe < num_pes
                &&& c.start == j * (P2P_SIZE as int)
                &&& c.end == (if (j + 1) * (P2P_SIZE as int) < len {
                    (j + 1) * (P2P_SIZE as int)
                } else {
                    len as int
                })
                &&& c.dest_start == dest_base + c.start
                &&& c.start < c.end <= len
                &&& c.end - c.start <= P2P_SIZE
            },
{
    let cc = chunk_count(len);
    let ghost ccs = spec_chunk_count(len as int);
    proof {
        vstd::arithmetic::div_mod::lemma_fundamental_div_mod(len as int + P2P_SIZE - 1, P2P_SIZE as int);
        assert(len <= P2P_SIZE * ccs);
    }
    let mut plan: Vec<ChunkPut> = Vec::new();
    let mut q: usize = 0;
    while q < num_pes - 1
        invariant
            q <= num_pes - 1,
            my_pe < num_pes,
            cc == ccs,
            ccs == spec_chunk_count(len as int),
            len <= P2P_SIZE * ccs,
            (num_pes - 1) * ccs <= usize::MAX,
            dest_base + len <= usize::MAX,
            plan@.len() == q * ccs,
            forall|q0: int, j: int|
                0 <= q0 < q && 0 <= j < ccs ==> {
                    let c = #[trigger] plan@[q0 * ccs + j];
                    &&& c.target_pe == (if q0 < my_pe {
                        q0
                    } else {
                        q0 + 1
                    })
                    &&& c.start == j * (P2P_SIZE as int)
                    &&& c.end == (if (j + 1) * (P2P_SIZE as int) < len {
                        (j + 1) * (P2P_SIZE as int)
                    } else {
                        len as int
                    })
                    &&& c.dest_start == dest_base + c.start
                },
        decreases num_pes - 1 - q,
    {
        let target_pe = if q < my_pe {
            q
        } else {
            q + 1
        };
        proof {
            assert(q * ccs + ccs == (q + 1) * ccs) by (nonlinear_arith);
            assert((q + 1) * ccs <= (num_pes - 1) * ccs) by (nonlinear_arith)
                requires
                    0 <= q < num_pes - 1,
                    0 <= ccs,
            ;
        }
        let mut j: usize = 0;
        while j < cc
            invariant
                j <= cc,
                cc == ccs,
                ccs == spec_chunk_count(len as int),
                len <= P2P_SIZE * ccs,
                (j as int) * (P2P_SIZE as int) < len || j == cc,
                plan@.len() == q * ccs + j,
                q * ccs + ccs <= usize::MAX,
                dest_base + len <= usize::MAX,
                forall|q0: int, j0: int|
                    0 <= q0 < q && 0 <= j0 < ccs ==> {
                        let c = #[trigger] plan@[q0 * ccs + j0];
                        &&& c.target_pe == (if q0 < my_pe {
                            q0
                        } else {
                            q0 + 1
                        })
                        &&& c.start == j0 * (P2P_SIZE as int)
                        &&& c.end == (if (j0 + 1) * (P2P_SIZE as int) < len {
                            (j0 + 1) * (P2P_SIZE as int)
                        } else {
                            len as int
                        })
                        &&& c.dest_start == dest_base + c.start
                    },
                forall|j0: int|
                    0 <= j0 < j ==> {
                        let c = #[trigger] plan@[q * ccs + j0];
                        &&& c.target_pe == target_pe
                        &&& c.start == j0 * (P2P_SIZE as int)
                        &&& c.end == (if (j0 + 1) * (P2P_SIZE as int) < len {
                            (j0 + 1) * (P2P_SIZE as int)
                        } else {
                            len as int
                        })
                        &&& c.dest_start == dest_base + c.start
                    },
            decreases cc - j,
        {
            let start = j * P2P_SIZE;
            let end = if len - start > P2P_SIZE {
                start + P2P_SIZE
            } else {
                len
            };
            proof {
                assert((j as int) * (P2P_SIZE as int) < len);
                assert((j + 1) * (P2P_SIZE as int) == (j as int) * (P2P_SIZE as int) + (
                P2P_SIZE as int)) by (nonlinear_arith);
                if j + 1 < cc {
                    assert((j + 1) * (P2P_SIZE as int) < len) by (nonlinear_arith)
                        requires
                            0 <= j,
                            (j as int) + 1 < ccs,
                            ccs == ((len as int) + (P2P_SIZE as int) - 1) / (P2P_SIZE as int),
                            len >= 0,
                    ;
                }
            }
            let dest_start = dest_base + start;
            plan.push(ChunkPut { start, end, dest_start, target_pe });
            proof {
                assert forall|q0: int, j0: int| 0 <= q0 < q && 0 <= j0 < ccs implies (
                #[trigger] plan@[q0 * ccs + j0]) == plan@[q0 * ccs + j0] && q0 * ccs + j0 < q
                    * ccs by {
                    assert(q0 * ccs + ccs == (q0 + 1) * ccs) by (nonlinear_arith);
                    assert((q0 + 1) * ccs <= q * ccs) by (nonlinear_arith)
                        requires
                            0 <= q0 < q,
                            0 <= ccs,
                    ;
                }
            }
            j += 1;
        }
        q += 1;
    }
    proof {
        assert((num_pes - 1) * ccs == plan@.len());
    }
    plan
}

/// A 64-bit value is recovered from its eight little-endian base-256 digits.
proof fn lemma_le8_roundtrip(v: u64)
    ensures
        u64_of_le(le8_of(v as int)) == v,
{
    assert(v == (v % 0x100) + 0x100 * ((v / 0x100) % 0x100) + 0x1_0000 * ((v / 0x1_0000) % 0x100)
        + 0x100_0000 * ((v / 0x100_0000) % 0x100) + 0x1_0000_0000 * ((v / 0x1_0000_0000) % 0x100)
        + 0x100_0000_0000 * ((v / 0x100_0000_0000) % 0x100) + 0x1_0000_0000_0000 * ((v
        / 0x1_0000_0000_0000) % 0x100) + 0x100_0000_0000_0000 * ((v / 0x100_0000_0000_0000)
        % 0x100)) by (bit_vector);
}

impl<T: Copy> OsmSlice<T> {
    /// Takes ownership of a buffer as a communication region.
    pub fn from_vec(data: Vec<T>) -> (r: OsmSlice<T>)
        ensures
            r@ == data@,
    {
        OsmSlice { data }
    }

    /// Number of elements in the region.
    pub fn len(&self) -> (r: usize)
        ensures
            r == self@.len(),
    {
        self.data.len()
    }

    /// Reads one element.
    pub fn at(&self, i: usize) -> (r: T)
        requires
            i < self@.len(),
        ensures
            r == self@[i as int],
    {
        self.data[i]
    }

    /// Writes one element.
    pub fn set(&mut self, i: usize, v: T)
        requires
            i < old(self)@.len(),
        ensures
            final(self)@ == old(self)@.update(i as int, v),
    {
        self.data.set(i, v);
    }

    /// Blocking put: copies this region's bytes into `other`, which stands
    /// for the same-offset region on the target participant.  Local-side
    /// completion is guaranteed when the call returns.
    pub fn put_to(&self, other: &mut OsmSlice<T>)
        requires
            self@.len() == old(other)@.len(),
        ensures
            final(other)@ == self@,
    {
        copy_into(&self.data, &mut other.data);
    }

    /// Non-blocking put: only initiation is guaranteed at return; the state
    /// given here is what the target region holds once the next collective
    /// synchronization point has passed.
    pub fn put_to_nbi(&self, other: &mut OsmSlice<T>)
        requires
            self@.len() == old(other)@.len(),
        ensures
            final(other)@ == self@,
    {
        copy_into(&self.data, &mut other.data);
    }

    /// Blocking get: symmetric inverse of `put_to`; fills this region from
    /// `other`, which stands for the source region on the target
    /// participant.
    pub fn get_from(&mut self, other: &OsmSlice<T>)
        requires
            old(self)@.len() == other@.len(),
        ensures
            final(self)@ == other@,
    {
        copy_into(&other.data, &mut self.data);
    }

    /// Non-blocking get: completion only after the next synchronization
    /// point; the state given here is the state from then on.
    pub fn get_from_nbi(&mut self, other: &OsmSlice<T>)
        requires
            old(self)@.len() == other@.len(),
        ensures
            final(self)@ == other@,
    {
        copy_into(&other.data, &mut self.data);
    }

    /// Puts only the first `cnt` elements, leaving the rest of the target
    /// region unchanged.  This is the sub-range form used by the
    /// trace-replay engine.
    pub fn put_prefix_to(&self, cnt: usize, other: &mut OsmSlice<T>)
        requires
            cnt <= self@.len(),
            cnt <= old(other)@.len(),
        ensures
            final(other)@.len() == old(other)@.len(),
            final(other)@ == self@.take(cnt as int) + old(other)@.skip(cnt as int),
    {
        let mut i: usize = 0;
        while i < cnt
            invariant
                i <= cnt,
                cnt <= self@.len(),
                cnt <= other@.len(),
                other@.len() == old(other)@.len(),
                forall|j: int| 0 <= j < i ==> other@[j] == self@[j],
                forall|j: int| i <= j < other@.len() ==> other@[j] == old(other)@[j],
            decreases cnt - i,
        {
            let v = self.data[i];
            other.data.set(i, v);
            i += 1;
        }
        proof {
            assert(final(other)@ =~= self@.take(cnt as int) + old(other)@.skip(cnt as int));
        }
    }

    /// One-to-many replication: `other` stands for the destination region on
    /// every participant of the active set, and only the designated root's
    /// source data is meaningful input.  The state given here is the
    /// destination content once the collective has completed: the root's
    /// source bytes.
    pub fn broadcast(&self, other: &mut OsmSlice<T>)
        requires
            self@.len() == old(other)@.len(),
        ensures
            final(other)@ == self@,
    {
        copy_into(&self.data, &mut other.data);
    }
}

/// Copies `src` over `dst` element by element.
fn copy_into<T: Copy>(src: &Vec<T>, dst: &mut Vec<T>)
    requires
        src@.len() == old(dst)@.len(),
    ensures
        final(dst)@ == src@,
{
    let mut i: usize = 0;
    while i < src.len()
        invariant
            i <= src@.len(),
            src@.len() == dst@.len(),
            forall|j: int| 0 <= j < i ==> dst@[j] == src@[j],
        decreases src@.len() - i,
    {
        let v = src[i];
        dst.set(i, v);
        i += 1;
    }
    proof {
        assert(final(dst)@ =~= src@);
    }
}

impl OsmSlice<u8> {
    /// Reads the region as a little-endian 32-bit cell.
    pub fn read_u32_le(&self) -> (r: u32)
        requires
            self@.len() == 4,
        ensures
            r == u32_of_le(self@),
    {
        let b0 = self.data[0] as u32;
        let b1 = self.data[1] as u32;
        let b2 = self.data[2] as u32;
        let b3 = self.data[3] as u32;
        b0 + 0x100 * b1 + 0x1_0000 * b2 + 0x100_0000 * b3
    }

    /// Overwrites the region with the little-endian encoding of `v`.
    pub fn write_u32_le(&mut self, v: u32)
        requires
            old(self)@.len() == 4,
        ensures
            final(self)@ == le4_of(v as int),
            u32_of_le(final(self)@) == v,
    {
        self.data.set(0, (v % 0x100) as u8);
        self.data.set(1, ((v / 0x100) % 0x100) as u8);
        self.data.set(2, ((v / 0x1_0000) % 0x100) as u8);
        self.data.set(3, ((v / 0x100_0000) % 0x100) as u8);
        proof {
            assert(final(self)@ =~= le4_of(v as int));
        }
    }

    /// Reads the region as a little-endian 64-bit cell.
    pub fn read_u64_le(&self) -> (r: u64)
        requires
            self@.len() == 8,
        ensures
            r == u64_of_le(self@),
    {
        let lo = self.data[0] as u64 + 0x100 * (self.data[1] as u64) + 0x1_0000 * (self.data[2]
            as u64) + 0x100_0000 * (self.data[3] as u64);
        let hi = self.data[4] as u64 + 0x100 * (self.data[5] as u64) + 0x1_0000 * (self.data[6]
            as u64) + 0x100_0000 * (self.data[7] as u64);
        lo + 0x1_0000_0000 * hi
    }

    /// Overwrites the region with the little-endian encoding of `v`.
    #[verifier::rlimit(100)]
    pub fn write_u64_le(&mut self, v: u64)
        requires
            old(self)@.len() == 8,
        ensures
            final(self)@ == le8_of(v as int),
            u64_of_le(final(self)@) == v,
    {
        self.data.set(0, (v % 0x100) as u8);
        self.data.set(1, ((v / 0x100) % 0x100) as u8);
        self.data.set(2, ((v / 0x1_0000) % 0x100) as u8);
        self.data.set(3, ((v / 0x100_0000) % 0x100) as u8);
        self.data.set(4, ((v / 0x1_0000_0000) % 0x100) as u8);
        self.data.set(5, ((v / 0x100_0000_0000) % 0x100) as u8);
        self.data.set(6, ((v / 0x1_0000_0000_0000) % 0x100) as u8);
        self.data.set(7, ((v / 0x100_0000_0000_0000) % 0x100) as u8);
        proof {
            assert(final(self)@ =~= le8_of(v as int));
            lemma_le8_roundtrip(v);
        }
    }

    /// Atomic fetch-and-add on a 4-byte cell, with wrap-around modulo 2^32.
    /// Returns the previous value; any region length other than 4 is the
    /// fatal `InvalidOperandSize` configuration error and leaves the region
    /// untouched.
    pub fn fetch_add_u32(&mut self, value: u32) -> (r: Result<u32, BenchError>)
        ensures
            final(self)@.len() == old(self)@.len(),
            r is Ok <==> old(self)@.len() == 4,
            r matches Ok(prev) ==> {
                &&& prev == u32_of_le(old(self)@)
                &&& u32_of_le(final(self)@) == (u32_of_le(old(self)@) + value) % 0x1_0000_0000
            },
            r is Err ==> r == Err::<u32, BenchError>(BenchError::InvalidOperandSize) && final(self)@ == old(self)@,
    {
        if self.data.len() != 4 {
            return Err(BenchError::InvalidOperandSize);
        }
        let prev = self.read_u32_le();
        let wide: u64 = prev as u64 + value as u64;
        let next: u32 = (wide % 0x1_0000_0000) as u32;
        self.write_u32_le(next);
        Ok(prev)
    }

    /// Atomic fetch-and-add on an 8-byte cell, with wrap-around modulo 2^64.
    pub fn fetch_add_u64(&mut self, value: u64) -> (r: Result<u64, BenchError>)
        ensures
            final(self)@.len() == old(self)@.len(),
            r is Ok <==> old(self)@.len() == 8,
            r matches Ok(prev) ==> {
                &&& prev == u64_of_le(old(self)@)
                &&& u64_of_le(final(self)@) == (u64_of_le(old(self)@) + value)
                    % 0x1_0000_0000_0000_0000
            },
            r is Err ==> r == Err::<u64, BenchError>(BenchError::InvalidOperandSize) && final(self)@ == old(self)@,
    {
        if self.data.len() != 8 {
            return Err(BenchError::InvalidOperandSize);
        }
        let prev = self.read_u64_le();
        let wide: u128 = prev as u128 + value as u128;
        let next: u64 = (wide % 0x1_0000_0000_0000_0000) as u64;
        self.write_u64_le(next);
        Ok(prev)
    }

    /// Atomic compare-and-swap on a 4-byte cell: installs `desired` only if
    /// the cell holds `expected`, and returns the previous value either way.
    pub fn compare_and_swap_u32(&mut self, expected: u32, desired: u32) -> (r: Result<
        u32,
        BenchError,
    >)
        ensures
            final(self)@.len() == old(self)@.len(),
            r is Ok <==> old(self)@.len() == 4,
            r matches Ok(prev) ==> {
                &&& prev == u32_of_le(old(self)@)
                &&& u32_of_le(final(self)@) == if prev == expected {
                    desired as int
                } else {
                    u32_of_le(old(self)@)
                }
            },
            r is Err ==> r == Err::<u32, BenchError>(BenchError::InvalidOperandSize) && final(self)@ == old(self)@,
    {
        if self.data.len() != 4 {
            return Err(BenchError::InvalidOperandSize);
        }
        let prev = self.read_u32_le();
        if prev == expected {
            self.write_u32_le(desired);
        }
        Ok(prev)
    }

    /// Atomic compare-and-swap on an 8-byte cell.
    pub fn compare_and_swap_u64(&mut self, expected: u64, desired: u64) -> (r: Result<
        u64,
        BenchError,
    >)
        ensures
            final(self)@.len() == old(self)@.len(),
            r is Ok <==> old(self)@.len() == 8,
            r matches Ok(prev) ==> {
                &&& prev == u64_of_le(old(self)@)
                &&& u64_of_le(final(self)@) == if prev == expected {
                    desired as int
                } else {
                    u64_of_le(old(self)@)
                }
            },
            r is Err ==> r == Err::<u64, BenchError>(BenchError::InvalidOperandSize) && final(self)@ == old(self)@,
    {
        if self.data.len() != 8 {
            return Err(BenchError::InvalidOperandSize);
        }
        let prev = self.read_u64_le();
        if prev == expected {
            self.write_u64_le(desired);
        }
        Ok(prev)
    }
}

} // verus!
