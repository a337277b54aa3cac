//! The index tables of the flat shapes.
//!
//! The vertex buffer holds a pentagon of five vertices and, after it, a
//! fan of thirteen. The index buffer holds the pentagon's triangles first
//! and the fan's after them; the fan's indices count from the fan's first
//! vertex.

use vstd::prelude::*;

verus! {

/// Vertices of the pentagon, which come first in the vertex buffer.
pub const PENTAGON_VERTICES: u32 = 5;

/// Vertices of the fan, which follow the pentagon's.
pub const SHAPE_VERTICES: u32 = 13;

/// Place in the index buffer at which the fan's indices begin.
pub const SHAPE_FIRST_INDEX: u32 = 9;

/// Number added to each of the fan's indices to find its vertex.
pub const SHAPE_BASE_VERTEX: i32 = 5;

/// Number of indices of both shapes.
pub const NUM_INDICES: u32 = 42;

/// The indices of both shapes.
pub open spec fn index_table() -> Seq<u16> {
    seq![
        0, 1, 4, 1, 2, 4, 2, 3, 4,
        0, 1, 2, 0, 2, 3, 0, 3, 4, 0, 4, 5, 0, 5, 6, 0, 6, 7, 0, 7, 8, 0, 8, 9, 0, 9, 10, 0, 10, 11,
        0, 11, 12,
    ]
}

/// The indices of the quad that shows the depth buffer: two triangles over four vertices.
pub open spec fn depth_index_table() -> Seq<u16> {
    seq![0, 2, 3, 0, 1, 2]
}

/// Builds the index buffer of both shapes.
pub fn indices() -> (table: Vec<u16>)
    ensures
        table@ == index_table(),
        table@.len() == NUM_INDICES,
{
    let table: Vec<u16> = vec![
        0, 1, 4, 1, 2, 4, 2, 3, 4,
        0, 1, 2, 0, 2, 3, 0, 3, 4, 0, 4, 5, 0, 5, 6, 0, 6, 7, 0, 7, 8, 0, 8, 9, 0, 9, 10, 0, 10, 11,
        0, 11, 12,
    ];
    assert(table@ =~= index_table());
    table
}

/// Builds the index buffer of the depth quad.
pub fn depth_indices() -> (table: Vec<u16>)
    ensures
        table@ == depth_index_table(),
        table@.len() == 6,
{
    let table: Vec<u16> = vec![0, 2, 3, 0, 1, 2];
    assert(table@ =~= depth_index_table());
    table
}

/// Every index names a vertex of its own shape: the pentagon's indices
/// stay below its five vertices, and the fan's, moved by the base vertex,
/// stay within the fan.
pub proof fn lemma_indices_in_range(i: int)
    requires
        0 <= i < NUM_INDICES,
    ensures
        i < SHAPE_FIRST_INDEX ==> index_table()[i] < PENTAGON_VERTICES,
        i >= SHAPE_FIRST_INDEX ==> SHAPE_BASE_VERTEX <= index_table()[i] + SHAPE_BASE_VERTEX
            < PENTAGON_VERTICES + SHAPE_VERTICES,
{
}

/// Every index of the depth quad names one of its four vertices.
pub proof fn lemma_depth_indices_in_range(i: int)
    requires
        0 <= i < 6,
    ensures
        depth_index_table()[i] < 4,
{
}

} // verus!
