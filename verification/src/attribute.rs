//! How the device is told to read a vertex record.
//!
//! Every field of the record is one vertex attribute. The attributes have
//! to describe the record exactly as [`Quad::words`] lays it out: a field
//! that moves in the record moves here too.

use crate::quad::{Quad, VERTEX_BYTES, WORD_BYTES};
use vstd::prelude::*;

verus! {

/// The number of vertex attributes, one for each field of the record.
pub const ATTRIBUTE_COUNT: u32 = 7;

/// One vertex attribute: where a field lies in a record, how many numbers
/// it holds, and how far apart two records are.
#[derive(Clone, Copy, Debug, PartialEq, Eq, Structural)]
pub struct Attribute {
    /// The attribute's location in the shader.
    pub index: u32,
    /// The count of single-precision numbers in the field.
    pub size: i32,
    /// The bytes from the start of one record to the start of the next.
    pub stride: i32,
    /// The bytes from the start of a record to the field.
    pub offset: i32,
}

impl Quad {
    /// The numbers of the record's field with the given index, counting the
    /// fields in the order in which the record holds them.
    pub open spec fn field(self, index: int) -> Seq<u32> {
        if index == 0 {
            self.q_pos@
        } else if index == 1 {
            self.i_pos@
        } else if index == 2 {
            self.i_scale@
        } else if index == 3 {
            self.color@
        } else if index == 4 {
            self.border_color@
        } else if index == 5 {
            seq![self.border_radius]
        } else {
            seq![self.border_width]
        }
    }
}

/// The count of numbers in the field with the given index: two for the
/// corner, the position and the size, four for each colour, one for the
/// radius and one for the width.
pub open spec fn field_size(index: int) -> int {
    if index < 3 {
        2
    } else if index < 5 {
        4
    } else {
        1
    }
}

/// The count of numbers that a record holds before the field with the
/// given index.
pub open spec fn words_before(index: int) -> int
    decreases index,
{
    if index <= 0 {
        0
    } else {
        words_before(index - 1) + field_size(index - 1)
    }
}

/// The attribute that describes the field with the given index.
pub open spec fn spec_attribute(index: u32) -> Attribute {
    Attribute {
        index,
        size: field_size(index as int) as i32,
        stride: VERTEX_BYTES as i32,
        offset: (WORD_BYTES * words_before(index as int)) as i32,
    }
}

/// The attribute that describes the field with the given index.
#[verifier::when_used_as_spec(spec_attribute)]
pub fn attribute(index: u32) -> (attribute: Attribute)
    requires
        index < ATTRIBUTE_COUNT,
    ensures
        attribute == spec_attribute(index),
{
    proof {
        reveal_with_fuel(words_before, 8);
    }
    let (size, offset): (i32, i32) = if index == 0 {
        (2, 0)
    } else if index == 1 {
        (2, 8)
    } else if index == 2 {
        (2, 16)
    } else if index == 3 {
        (4, 24)
    } else if index == 4 {
        (4, 40)
    } else if index == 5 {
        (1, 56)
    } else {
        (1, 60)
    };
    Attribute { index, size, stride: 64, offset }
}

/// The attributes describe the record and nothing else: the first field
/// begins the record, every other field begins where the one before it
/// ends, and the last one ends the record, whose length is the stride.
pub proof fn lemma_attributes_tile_record()
    ensures
        spec_attribute(0).offset == 0,
        forall|index: u32|
            index + 1 < ATTRIBUTE_COUNT ==> spec_attribute((index + 1) as u32).offset == (
            #[trigger] spec_attribute(index)).offset + WORD_BYTES * spec_attribute(index).size,
        spec_attribute(6).offset + WORD_BYTES * spec_attribute(6).size == VERTEX_BYTES,
        forall|index: u32|
            index < ATTRIBUTE_COUNT ==> (#[trigger] spec_attribute(index)).stride == VERTEX_BYTES,
{
    reveal_with_fuel(words_before, 8);
}

/// What the device reads through an attribute is the field it stands for:
/// the numbers of a record that lie at the attribute's offset are those of
/// the field with the attribute's index.
pub proof fn lemma_attribute_reads_field(vertex: Quad, index: u32)
    requires
        index < ATTRIBUTE_COUNT,
    ensures
        spec_attribute(index).offset as int % (WORD_BYTES as int) == 0,
        vertex.field(index as int).len() == spec_attribute(index).size,
        vertex.words().subrange(
            spec_attribute(index).offset as int / (WORD_BYTES as int),
            spec_attribute(index).offset as int / (WORD_BYTES as int) + spec_attribute(index).size,
        ) == vertex.field(index as int),
{
    reveal_with_fuel(words_before, 8);
}

} // verus!
