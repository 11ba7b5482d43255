//! Workload layout: working sets of epochs of fixed-size buffers.
//!
//! A working set is one candidate copy of the benchmark data; an epoch is an
//! ordered group of buffers within it.  Several working-set copies exist so
//! that successive iterations can select among them pseudo-randomly, which
//! prevents degenerate cache effects from reusing one buffer.  Source
//! buffers are filled with a deterministic byte pattern and destination
//! buffers are zero-filled, so that validation after an exchange can compare
//! bytes exactly.

use vstd::prelude::*;

use crate::BenchError;
use crate::osm_scope::OsmScope;
use crate::osm_vec::ShVec;

verus! {

/// The deterministic fill byte for position `byte_index` of buffer
/// `buffer_index` within an epoch of `data_size`-byte buffers.
pub open spec fn spec_pattern(buffer_index: int, byte_index: int, data_size: int) -> u8 {
    ((buffer_index * data_size + byte_index + 5) % 256) as u8
}

/// An ordered group of equally sized buffers: one epoch of benchmark data.
pub struct Epoch {
    pub data: Vec<ShVec<u8>>,
}

/// One candidate copy of the benchmark data: an ordered sequence of epochs.
pub struct WorkingSet {
    pub epoches: Vec<Epoch>,
}

/// The source and destination working sets of one benchmark run.
pub struct RangeBenchmarkData {
    pub src_working_set: WorkingSet,
    pub dst_working_set: WorkingSet,
}

impl Epoch {
    /// Wraps a group of buffers as one epoch.
    pub fn new(data: Vec<ShVec<u8>>) -> (r: Epoch)
        ensures
            r.data == data,
    {
        Epoch { data }
    }

    /// Number of buffers in the epoch.
    pub fn len(&self) -> (r: usize)
        ensures
            r == self.data@.len(),
    {
        self.data.len()
    }

    /// Byte length of each buffer, read from the first one.
    pub fn data_size(&self) -> (r: usize)
        requires
            self.data@.len() > 0,
        ensures
            r == self.data@[0]@.len(),
    {
        self.data[0].len()
    }
}

impl WorkingSet {
    /// Wraps a sequence of epochs as one working set.
    pub fn new(epoches: Vec<Epoch>) -> (r: WorkingSet)
        ensures
            r.epoches == epoches,
    {
        WorkingSet { epoches }
    }

    /// Number of epochs in the working set.
    pub fn len(&self) -> (r: usize)
        ensures
            r == self.epoches@.len(),
    {
        self.epoches.len()
    }

    /// Number of buffers per epoch, read from the first epoch.
    pub fn epoch_size(&self) -> (r: usize)
        requires
            self.epoches@.len() > 0,
        ensures
            r == self.epoches@[0].data@.len(),
    {
        self.epoches[0].data.len()
    }

    /// Byte length of each buffer, read from the first buffer of the first
    /// epoch.
    pub fn data_size(&self) -> (r: usize)
        requires
            self.epoches@.len() > 0,
            self.epoches@[0].data@.len() > 0,
        ensures
            r == self.epoches@[0].data@[0]@.len(),
    {
        self.epoches[0].data[0].len()
    }

    /// Whether the working set holds `n` epochs of `es` buffers of `ds`
    /// bytes each.
    pub open spec fn shaped(&self, n: int, es: int, ds: int) -> bool {
        &&& self.epoches@.len() == n
        &&& forall|e: int| 0 <= e < n ==> (#[trigger] self.epoches@[e]).data@.len() == es
        &&& forall|e: int, i: int|
            0 <= e < n && 0 <= i < es ==> (#[trigger] self.epoches@[e].data@[i])@.len() == ds
    }

    /// Whether every buffer byte holds the deterministic source pattern.
    pub open spec fn filled_pattern(&self, n: int, es: int, ds: int) -> bool {
        forall|e: int, i: int, j: int|
            0 <= e < n && 0 <= i < es && 0 <= j < ds ==> (#[trigger] self.epoches@[e].data@[i]@[j])
                == spec_pattern(i, j, ds)
    }

    /// Whether every buffer byte is zero.
    pub open spec fn filled_zero(&self, n: int, es: int, ds: int) -> bool {
        forall|e: int, i: int, j: int|
            0 <= e < n && 0 <= i < es && 0 <= j < ds ==> (#[trigger] self.epoches@[e].data@[i]@[j])
                == 0
    }
}

/// One source buffer of `data_size` bytes holding the deterministic pattern
/// of buffer `buffer_index`.
fn make_pattern_buffer(scope: &OsmScope, buffer_index: usize, data_size: usize) -> (r: ShVec<u8>)
    requires
        buffer_index * data_size + data_size + 5 <= usize::MAX,
    ensures
        r@.len() == data_size,
        forall|j: int| 0 <= j < data_size ==> r@[j] == spec_pattern(buffer_index as int, j, data_size as int),
{
    let mut buf = ShVec::with_capacity(data_size, scope);
    let mut j: usize = 0;
    while j < data_size
        invariant
            j <= data_size,
            buf@.len() == j,
            buffer_index * data_size + data_size + 5 <= usize::MAX,
            forall|k: int|
                0 <= k < j ==> buf@[k] == spec_pattern(buffer_index as int, k, data_size as int),
        decreases data_size - j,
    {
        let v: u8 = ((buffer_index * data_size + j + 5) % 256) as u8;
        buf.push(v);
        j += 1;
    }
    buf
}

/// One destination buffer of `data_size` zero bytes.
fn make_zero_buffer(scope: &OsmScope, data_size: usize) -> (r: ShVec<u8>)
    ensures
        r@.len() == data_size,
        forall|j: int| 0 <= j < data_size ==> r@[j] == 0,
{
    let mut buf = ShVec::with_capacity(data_size, scope);
    buf.resize_with(
        data_size,
        (|| -> (b: u8)
            ensures
                b == 0,
            { 0u8 }),
    );
    buf
}

impl RangeBenchmarkData {
    /// Builds the benchmark data: `num_working_set` copies, each an epoch of
    /// `epoch_size` buffers of `data_size` bytes; source buffers hold the
    /// deterministic pattern, destination buffers are zero.
    pub fn setup_data(
        scope: &OsmScope,
        epoch_size: usize,
        data_size: usize,
        num_working_set: usize,
    ) -> (r: RangeBenchmarkData)
        requires
            epoch_size * data_size + data_size + 5 <= usize::MAX,
        ensures
            r.src_working_set.shaped(
                num_working_set as int,
                epoch_size as int,
                data_size as int,
            ),
            r.dst_working_set.shaped(
                num_working_set as int,
                epoch_size as int,
                data_size as int,
            ),
            r.src_working_set.filled_pattern(
                num_working_set as int,
                epoch_size as int,
                data_size as int,
            ),
            r.dst_working_set.filled_zero(
                num_working_set as int,
                epoch_size as int,
                data_size as int,
            ),
    {
        let mut source: Vec<Epoch> = Vec::with_capacity(num_working_set);
        let mut dest: Vec<Epoch> = Vec::with_capacity(num_working_set);

        let mut w: usize = 0;
        while w < num_working_set
            invariant
                w <= num_working_set,
                epoch_size * data_size + data_size + 5 <= usize::MAX,
                source@.len() == w,
                dest@.len() == w,
                forall|e: int| 0 <= e < w ==> (#[trigger] source@[e]).data@.len() == epoch_size,
                forall|e: int, i: int|
                    0 <= e < w && 0 <= i < epoch_size ==> (#[trigger] source@[e].data@[i])@.len()
                        == data_size,
                forall|e: int, i: int, j: int|
                    0 <= e < w && 0 <= i < epoch_size && 0 <= j < data_size ==> (
                    #[trigger] source@[e].data@[i]@[j]) == spec_pattern(i, j, data_size as int),
                forall|e: int| 0 <= e < w ==> (#[trigger] dest@[e]).data@.len() == epoch_size,
                forall|e: int, i: int|
                    0 <= e < w && 0 <= i < epoch_size ==> (#[trigger] dest@[e].data@[i])@.len()
                        == data_size,
                forall|e: int, i: int, j: int|
                    0 <= e < w && 0 <= i < epoch_size && 0 <= j < data_size ==> (
                    #[trigger] dest@[e].data@[i]@[j]) == 0,
            decreases num_working_set - w,
        {
            let mut src_bufs: Vec<ShVec<u8>> = Vec::with_capacity(epoch_size);
            let mut dst_bufs: Vec<ShVec<u8>> = Vec::with_capacity(epoch_size);
            let mut i: usize = 0;
            while i < epoch_size
                invariant
                    i <= epoch_size,
                    epoch_size * data_size + data_size + 5 <= usize::MAX,
                    src_bufs@.len() == i,
                    dst_bufs@.len() == i,
                    forall|k: int| 0 <= k < i ==> (#[trigger] src_bufs@[k])@.len() == data_size,
                    forall|k: int, j: int|
                        0 <= k < i && 0 <= j < data_size ==> (#[trigger] src_bufs@[k]@[j])
                            == spec_pattern(k, j, data_size as int),
                    forall|k: int| 0 <= k < i ==> (#[trigger] dst_bufs@[k])@.len() == data_size,
                    forall|k: int, j: int|
                        0 <= k < i && 0 <= j < data_size ==> (#[trigger] dst_bufs@[k]@[j]) == 0,
                decreases epoch_size - i,
            {
                proof {
                    assert(i * data_size <= epoch_size * data_size) by (nonlinear_arith)
                        requires
                            0 <= i < epoch_size,
                            0 <= data_size,
                    ;
                }
                src_bufs.push(make_pattern_buffer(scope, i, data_size));
                dst_bufs.push(make_zero_buffer(scope, data_size));
                i += 1;
            }
            source.push(Epoch::new(src_bufs));
            dest.push(Epoch::new(dst_bufs));
            w += 1;
        }

        RangeBenchmarkData {
            src_working_set: WorkingSet::new(source),
            dst_working_set: WorkingSet::new(dest),
        }
    }

    /// Number of working-set copies.
    pub fn num_working_set(&self) -> (r: usize)
        ensures
            r == self.src_working_set.epoches@.len(),
    {
        self.src_working_set.len()
    }

    /// Number of buffers per epoch.
    pub fn epoch_size(&self) -> (r: usize)
        requires
            self.src_working_set.epoches@.len() > 0,
        ensures
            r == self.src_working_set.epoches@[0].data@.len(),
    {
        self.src_working_set.epoch_size()
    }

    /// Byte length of each buffer.
    pub fn data_size(&self) -> (r: usize)
        requires
            self.src_working_set.epoches@.len() > 0,
            self.src_working_set.epoches@[0].data@.len() > 0,
        ensures
            r == self.src_working_set.epoches@[0].data@[0]@.len(),
    {
        self.src_working_set.data_size()
    }
}

/// Byte-for-byte validation of a destination buffer against its source.
/// Any mismatch is a fatal communication-correctness error, never a
/// statistical anomaly.
pub fn validate_buffer(src: &ShVec<u8>, dst: &ShVec<u8>) -> (r: Result<(), BenchError>)
    ensures
        r is Ok <==> src@ == dst@,
        r is Err ==> r == Err::<(), BenchError>(BenchError::Mismatch),
{
    if src.len() != dst.len() {
        return Err(BenchError::Mismatch);
    }
    let n = src.len();
    let mut i: usize = 0;
    while i < n
        invariant
            i <= n,
            n == src@.len(),
            n == dst@.len(),
            forall|j: int| 0 <= j < i ==> src@[j] == dst@[j],
        decreases n - i,
    {
        if src.at(i) != dst.at(i) {
            return Err(BenchError::Mismatch);
        }
        i += 1;
    }
    proof {
        assert(src@ =~= dst@);
    }
    Ok(())
}

} // verus!
