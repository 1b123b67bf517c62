//! Index lists of triangle meshes. Vertices carry floating-point positions and
//! stay with the caller; the functions here only need to know how many
//! vertices a mesh already holds.
use vstd::prelude::*;

verus! {

/// Vertices that a rectangle adds to a mesh: its four corners.
pub const RECTANGLE_VERTICES: u32 = 4;

/// Segments of a circle for which no number of segments is asked.
pub const DEFAULT_CIRCLE_SEGMENTS: u32 = 16;

/// The two triangles of a rectangle whose corners are the vertices `start`
/// to `start + 3`, in the order in which they go round the rectangle.
pub open spec fn rectangle_triangles(start: int) -> Seq<u32> {
    seq![
        start as u32,
        (start + 1) as u32,
        (start + 2) as u32,
        (start + 2) as u32,
        (start + 3) as u32,
        start as u32,
    ]
}

/// The `k`-th index of a fan of `segments` triangles round the vertex `start`,
/// whose rim is the vertices `start + 1` to `start + segments`. Triangle `s`
/// joins the center, rim vertex `s` and the next rim vertex; the last triangle
/// closes the fan on the first rim vertex.
pub open spec fn fan_index(start: int, segments: int, k: int) -> int {
    let s = k / 3;
    if k % 3 == 0 {
        start
    } else if k % 3 == 1 {
        start + s + 1
    } else {
        start + (s + 1) % segments + 1
    }
}

/// The indices of the first `count` triangles of such a fan.
pub open spec fn fan_triangles(start: int, segments: int, count: int) -> Seq<u32> {
    Seq::new((3 * count) as nat, |k: int| fan_index(start, segments, k) as u32)
}

/// The indices `source`, each raised by `offset`.
pub open spec fn raised(source: Seq<u32>, offset: int) -> Seq<u32> {
    Seq::new(source.len(), |k: int| (source[k] + offset) as u32)
}

/// Appends the two triangles of a rectangle whose four corners are the next
/// vertices of the mesh, the first of them being vertex `index_start`.
pub fn push_rectangle_indices(indices: &mut Vec<u32>, index_start: u32)
    requires
        index_start + 3 <= u32::MAX,
    ensures
        final(indices)@ == old(indices)@ + rectangle_triangles(index_start as int),
        final(indices)@.len() == old(indices)@.len() + 6,
{
    indices.push(index_start);
    indices.push(index_start + 1);
    indices.push(index_start + 2);
    indices.push(index_start + 2);
    indices.push(index_start + 3);
    indices.push(index_start);
    assert(indices@ =~= old(indices)@ + rectangle_triangles(index_start as int));
}

/// Appends the fan of a circle of `segments` segments whose center is vertex
/// `index_start` and whose rim is the `segments` vertices that follow.
pub fn push_circle_indices(indices: &mut Vec<u32>, index_start: u32, segments: u32)
    requires
        index_start + segments <= u32::MAX,
    ensures
        final(indices)@ == old(indices)@ + fan_triangles(
            index_start as int,
            segments as int,
            segments as int,
        ),
        final(indices)@.len() == old(indices)@.len() + 3 * segments,
{
    let mut s: u32 = 0;
    assert(indices@ =~= old(indices)@ + fan_triangles(index_start as int, segments as int, 0));
    while s < segments
        invariant
            s <= segments,
            index_start + segments <= u32::MAX,
            indices@ == old(indices)@ + fan_triangles(
                index_start as int,
                segments as int,
                s as int,
            ),
        decreases segments - s,
    {
        let next: u32 = (s + 1) % segments;
        indices.push(index_start);
        indices.push(index_start + s + 1);
        indices.push(index_start + next + 1);
        assert(indices@ =~= old(indices)@ + fan_triangles(
            index_start as int,
            segments as int,
            s + 1,
        ));
        s = s + 1;
    }
}

/// Appends the indices of one mesh to those of a batch whose vertices so far
/// number `start_index`, so that they point at the mesh's vertices once these
/// are appended to the batch.
pub fn append_raised_indices(indices: &mut Vec<u32>, source: &Vec<u32>, start_index: u32)
    requires
        forall|k: int| 0 <= k < source@.len() ==> source@[k] + start_index <= u32::MAX,
    ensures
        final(indices)@ == old(indices)@ + raised(source@, start_index as int),
        final(indices)@.len() == old(indices)@.len() + source@.len(),
{
    let mut k: usize = 0;
    assert(indices@ =~= old(indices)@ + raised(source@.take(0), start_index as int));
    while k < source.len()
        invariant
            k <= source@.len(),
            forall|j: int| 0 <= j < source@.len() ==> source@[j] + start_index <= u32::MAX,
            indices@ == old(indices)@ + raised(source@.take(k as int), start_index as int),
        decreases source@.len() - k,
    {
        indices.push(source[k] + start_index);
        assert(indices@ =~= old(indices)@ + raised(
            source@.take(k + 1),
            start_index as int,
        ));
        k = k + 1;
    }
    assert(source@.take(k as int) =~= source@);
}

/// Every index of a circle's fan points at the center or at one of the rim
/// vertices, so a batch that holds the circle's vertices holds every vertex
/// that its triangles name.
pub proof fn lemma_fan_stays_in_circle(start: int, segments: int, k: int)
    requires
        0 <= start,
        start + segments <= u32::MAX,
        0 <= k < 3 * segments,
    ensures
        start <= fan_triangles(start, segments, segments)[k] <= start + segments,
        k % 3 == 0 ==> fan_triangles(start, segments, segments)[k] == start,
        k % 3 != 0 ==> fan_triangles(start, segments, segments)[k] > start,
{
    let s = k / 3;
    assert(0 <= s < segments);
    assert(0 <= (s + 1) % segments < segments);
}

/// Every index of a rectangle's two triangles points at one of its four
/// corners.
pub proof fn lemma_rectangle_stays_in_corners(start: int, k: int)
    requires
        0 <= start,
        start + 3 <= u32::MAX,
        0 <= k < 6,
    ensures
        start <= rectangle_triangles(start)[k] < start + RECTANGLE_VERTICES,
{
}

} // verus!
