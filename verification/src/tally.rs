//! Counting what a run of commands asks of the device.

use crate::batch::{chunk_count, chunks, instances_in, lemma_chunks, lemma_chunks_cover, Chunk};
use crate::command::{Command, ScissorBox};
use crate::frame::{
    batch_commands, binding_commands, chunk_commands, draw_commands, frame_commands,
    unbinding_commands,
};
use crate::uniform::UniformChanges;
use vstd::prelude::*;

verus! {

/// How many commands of a run were uploads of vertex records, and how many
/// were draw calls.
pub struct Tally {
    /// The number of uploads to the device buffer.
    pub uploads: int,
    /// The number of draw calls.
    pub draw_calls: int,
}

/// What one command adds to a tally.
pub open spec fn tally_of(command: Command) -> Tally {
    Tally {
        uploads: if command is Upload {
            1
        } else {
            0
        },
        draw_calls: if command is DrawStrip {
            1
        } else {
            0
        },
    }
}

/// The tally of a run of commands.
pub open spec fn tally(commands: Seq<Command>) -> Tally
    decreases commands.len(),
{
    if commands.len() == 0 {
        Tally { uploads: 0, draw_calls: 0 }
    } else {
        let before = tally(commands.drop_last());
        let last = tally_of(commands.last());
        Tally {
            uploads: before.uploads + last.uploads,
            draw_calls: before.draw_calls + last.draw_calls,
        }
    }
}

/// The tally of two runs, one after the other, is the sum of their tallies.
pub proof fn lemma_tally_concat(first: Seq<Command>, second: Seq<Command>)
    ensures
        tally(first + second).uploads == tally(first).uploads + tally(second).uploads,
        tally(first + second).draw_calls == tally(first).draw_calls + tally(second).draw_calls,
    decreases second.len(),
{
    if second.len() > 0 {
        assert((first + second).drop_last() =~= first + second.drop_last());
        lemma_tally_concat(first, second.drop_last());
    }
}

/// A run without uploads and draw calls has an empty tally.
proof fn lemma_tally_none(commands: Seq<Command>)
    requires
        forall|i: int|
            0 <= i < commands.len() ==> !(#[trigger] commands[i] is Upload) && !(
            commands[i] is DrawStrip),
    ensures
        tally(commands).uploads == 0,
        tally(commands).draw_calls == 0,
    decreases commands.len(),
{
    if commands.len() > 0 {
        lemma_tally_none(commands.drop_last());
    }
}

/// The draw calls of a chunk are as many as asked for, and no upload is
/// among them.
proof fn lemma_tally_draws(from: int, count: int)
    requires
        0 <= from <= count,
    ensures
        tally(draw_commands(from, count)).uploads == 0,
        tally(draw_commands(from, count)).draw_calls == count - from,
    decreases count - from,
{
    if from < count {
        lemma_tally_draws(from, count - 1);
        assert(draw_commands(from, count).drop_last() =~= draw_commands(from, count - 1));
    }
}

/// Drawing chunks takes one upload for each chunk and one draw call for
/// each of their instances.
pub proof fn lemma_tally_batch(chunks: Seq<Chunk>)
    requires
        forall|j: int| 0 <= j < chunks.len() ==> (#[trigger] chunks[j]).start <= chunks[j].end,
    ensures
        tally(batch_commands(chunks)).uploads == chunks.len(),
        tally(batch_commands(chunks)).draw_calls == instances_in(chunks),
    decreases chunks.len(),
{
    if chunks.len() > 0 {
        let first = chunks[0];
        let rest = chunks.drop_first();
        lemma_tally_batch(rest);
        lemma_tally_draws(0, first.spec_len());
        let upload = seq![Command::Upload(first)];
        assert(tally(upload).uploads == 1 && tally(upload).draw_calls == 0) by {
            reveal_with_fuel(tally, 2);
        }
        lemma_tally_concat(upload, draw_commands(0, first.spec_len()));
        lemma_tally_concat(chunk_commands(first), batch_commands(rest));
    }
}

/// A frame of `total` instances issues exactly `total` draw calls, in
/// `total / MAX_INSTANCES` uploads, rounded up: none for an empty frame, one
/// while the frame fits the device buffer.
pub proof fn lemma_tally_frame(scissor: Option<ScissorBox>, changes: UniformChanges, total: usize)
    ensures
        tally(frame_commands(scissor, changes, total)).draw_calls == total,
        tally(frame_commands(scissor, changes, total)).uploads == chunk_count(total as int),
        tally(frame_commands(scissor, changes, total)).uploads == chunks(total).len(),
        total == 0 <==> tally(frame_commands(scissor, changes, total)).uploads == 0,
{
    let binding = binding_commands(scissor, changes);
    let drawing = batch_commands(chunks(total));
    let unbinding = unbinding_commands(scissor);
    lemma_tally_none(binding);
    lemma_tally_none(unbinding);
    lemma_chunks(total);
    lemma_chunks_cover(0, total);
    lemma_tally_batch(chunks(total));
    lemma_tally_concat(binding, drawing);
    lemma_tally_concat(binding + drawing, unbinding);
}

} // verus!
