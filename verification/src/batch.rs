//! Splitting a frame's instances into chunks that fit the device buffer.
//!
//! The device buffer has room for the vertices of [`MAX_INSTANCES`] quads. A
//! frame may hold more: it is drawn chunk by chunk, each chunk overwriting
//! the buffer from its start.

use vstd::prelude::*;

verus! {

/// How many quads the device buffer holds at once.
pub const MAX_INSTANCES: usize = 100_000;

/// The instances `start..end` of a frame, drawn from one upload.
#[derive(Clone, Copy, Debug, PartialEq, Eq, Structural)]
pub struct Chunk {
    /// Index of the first instance of the chunk.
    pub start: usize,
    /// Index after the last instance of the chunk.
    pub end: usize,
}

impl Chunk {
    /// The number of instances in the chunk.
    pub open spec fn spec_len(&self) -> int {
        self.end - self.start
    }

    /// A chunk of a frame with `total` instances: not empty, no larger than
    /// the device buffer, and within the frame.
    pub open spec fn fits(self, total: usize) -> bool {
        self.start < self.end <= total && self.spec_len() <= MAX_INSTANCES
    }

    /// The number of instances in the chunk.
    pub fn len(&self) -> (len: usize)
        requires
            self.start <= self.end,
        ensures
            len == self.spec_len(),
    {
        self.end - self.start
    }
}

/// Where the chunk that starts at `start` ends: [`MAX_INSTANCES`] further
/// on, or at the end of the frame if that comes first.
pub open spec fn chunk_end(start: usize, total: usize) -> usize {
    if total - start > MAX_INSTANCES {
        (start + MAX_INSTANCES) as usize
    } else {
        total
    }
}

/// The chunks that remain of a frame with `total` instances when the
/// instances before `start` are done.
pub open spec fn chunks_from(start: usize, total: usize) -> Seq<Chunk>
    decreases total - start,
{
    if start >= total {
        Seq::empty()
    } else {
        seq![Chunk { start, end: chunk_end(start, total) }] + chunks_from(
            chunk_end(start, total),
            total,
        )
    }
}

/// The chunks of a frame with `total` instances, in drawing order.
pub open spec fn chunks(total: usize) -> Seq<Chunk> {
    chunks_from(0, total)
}

/// The number of chunks that `total` instances need: `total` divided by
/// [`MAX_INSTANCES`], rounded up.
pub open spec fn chunk_count(total: int) -> int {
    (total + MAX_INSTANCES - 1) / (MAX_INSTANCES as int)
}

/// The number of instances in a sequence of chunks.
pub open spec fn instances_in(chunks: Seq<Chunk>) -> int
    decreases chunks.len(),
{
    if chunks.len() == 0 {
        0
    } else {
        chunks[0].spec_len() + instances_in(chunks.drop_first())
    }
}

/// The chunk that starts at `start`, or nothing when the frame is done.
pub fn next_chunk(start: usize, total: usize) -> (chunk: Option<Chunk>)
    ensures
        chunk == (if start < total {
            Some(Chunk { start, end: chunk_end(start, total) })
        } else {
            None
        }),
{
    if start >= total {
        None
    } else if total - start > MAX_INSTANCES {
        Some(Chunk { start, end: start + MAX_INSTANCES })
    } else {
        Some(Chunk { start, end: total })
    }
}

/// The index of the first vertex of the `k`-th quad of a chunk: every quad
/// takes four vertices of the device buffer.
pub fn first_vertex(k: usize) -> (first: i32)
    requires
        k < MAX_INSTANCES,
    ensures
        first == 4 * k,
{
    let index: usize = 4 * k;
    index as i32
}

/// The shape of what remains of a frame: the `j`-th remaining chunk starts
/// `j` device buffers after `start` and ends one buffer further on, or at
/// the end of the frame; and the chunks are as many as the remaining
/// instances divided by the buffer's capacity, rounded up.
pub proof fn lemma_chunks_from(start: usize, total: usize)
    requires
        start <= total,
    ensures
        chunks_from(start, total).len() == chunk_count(total - start),
        forall|j: int|
            0 <= j < chunks_from(start, total).len() ==> {
                &&& (#[trigger] chunks_from(start, total)[j]).start == start + j * MAX_INSTANCES
                &&& chunks_from(start, total)[j].end == if start + (j + 1) * MAX_INSTANCES
                    < total {
                    start + (j + 1) * MAX_INSTANCES
                } else {
                    total as int
                }
            },
    decreases total - start,
{
    if start < total {
        lemma_chunks_from(chunk_end(start, total), total);
    }
}

/// A frame of `total` instances is drawn in `total / MAX_INSTANCES` chunks,
/// rounded up, which is none exactly when the frame is empty. The chunks
/// follow one another from the first instance to the last; each holds at
/// least one instance, and each but the last holds exactly
/// [`MAX_INSTANCES`].
pub proof fn lemma_chunks(total: usize)
    ensures
        chunks(total).len() == chunk_count(total as int),
        chunks(total).len() == 0 <==> total == 0,
        forall|j: int|
            0 <= j < chunks(total).len() ==> (#[trigger] chunks(total)[j]).fits(total),
        forall|j: int|
            0 <= j < chunks(total).len() - 1 ==> (#[trigger] chunks(total)[j]).spec_len()
                == MAX_INSTANCES,
        forall|j: int|
            0 <= j < chunks(total).len() ==> (#[trigger] chunks(total)[j]).start == j
                * MAX_INSTANCES,
        forall|j: int|
            0 <= j < chunks(total).len() - 1 ==> (#[trigger] chunks(total)[j]).end == chunks(
                total,
            )[j + 1].start,
        total > 0 ==> chunks(total).last().end == total,
{
    lemma_chunks_from(0, total);
}

/// The chunks of a frame hold all of its instances: their sizes add up to
/// the size of the frame.
pub proof fn lemma_chunks_cover(start: usize, total: usize)
    requires
        start <= total,
    ensures
        instances_in(chunks_from(start, total)) == total - start,
    decreases total - start,
{
    if start < total {
        let end = chunk_end(start, total);
        lemma_chunks_cover(end, total);
        assert(chunks_from(start, total).drop_first() == chunks_from(end, total));
    }
}

} // verus!
