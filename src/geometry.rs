use vstd::prelude::*;

verus! {

/// Coordinates per vertex in the vertex buffer.
pub const COMPONENTS_PER_VERTEX: usize = 3;

/// Vertices in the line list: two endpoints per edge.
pub const VERTEX_COUNT: usize = 24;

/// Edges of the cube.
pub const EDGE_COUNT: usize = 12;

/// The 24 endpoints of the cube's 12 edges, three coordinates each, in the
/// order in which they are drawn as a line list.
pub open spec fn cube_edge_data() -> Seq<int> {
    seq![
        -1, -1, -1, 1, -1, -1, 1, 1, -1, -1, 1, -1, -1, -1, 1, 1,
        -1, 1, 1, 1, 1, -1, 1, 1, -1, -1, -1, -1, 1, -1, -1, 1,
        1, -1, -1, 1, 1, -1, -1, 1, 1, -1, 1, 1, 1, 1, -1, 1, -1,
        -1, -1, -1, -1, 1, 1, -1, -1, 1, -1, 1, -1, 1, -1, -1, 1,
        1, 1, 1, -1, 1, 1, 1,
    ]
}

/// The coordinates of `v` as integers.
pub open spec fn as_ints(v: Seq<i8>) -> Seq<int> {
    v.map_values(|x: i8| x as int)
}

/// Coordinate `axis` of vertex `v` in `d`.
pub open spec fn coord(d: Seq<int>, v: int, axis: int) -> int {
    d[3 * v + axis]
}

/// Vertices `a` and `b` of `d` differ in exactly one coordinate.
pub open spec fn differ_in_one_axis(d: Seq<int>, a: int, b: int) -> bool {
    let dx = coord(d, a, 0) != coord(d, b, 0);
    let dy = coord(d, a, 1) != coord(d, b, 1);
    let dz = coord(d, a, 2) != coord(d, b, 2);
    (dx && !dy && !dz) || (!dx && dy && !dz) || (!dx && !dy && dz)
}

/// Edges `i` and `j` (pairs of consecutive vertices) join the same two corners.
pub open spec fn same_edge(d: Seq<int>, i: int, j: int) -> bool {
    let (a, b, c, e) = (2 * i, 2 * i + 1, 2 * j, 2 * j + 1);
    let same = |p: int, q: int|
        coord(d, p, 0) == coord(d, q, 0) && coord(d, p, 1) == coord(d, q, 1)
            && coord(d, p, 2) == coord(d, q, 2);
    (same(a, c) && same(b, e)) || (same(a, e) && same(b, c))
}

/// `d` is a wireframe of the cube `[-1, 1]^3` drawn as a line list: every
/// coordinate is a corner coordinate, each edge joins two corners that differ
/// along one axis, and no edge is drawn twice. Twelve such edges are all the
/// edges of the cube.
pub open spec fn is_cube_wireframe(d: Seq<int>) -> bool {
    &&& d.len() == 3 * 2 * EDGE_COUNT
    &&& forall|k: int| 0 <= k < d.len() ==> #[trigger] d[k] == 1 || d[k] == -1
    &&& forall|i: int| 0 <= i < EDGE_COUNT ==> #[trigger] differ_in_one_axis(d, 2 * i, 2 * i + 1)
    &&& forall|i: int, j: int|
        0 <= i < EDGE_COUNT && 0 <= j < EDGE_COUNT && i != j ==> !#[trigger] same_edge(d, i, j)
}

/// The fixed edge data is a wireframe of the cube.
pub proof fn lemma_cube_edge_data_is_wireframe()
    ensures
        is_cube_wireframe(cube_edge_data()),
{
    let d = cube_edge_data();
    assert(d.len() == 72);
    assert forall|k: int| 0 <= k < d.len() implies #[trigger] d[k] == 1 || d[k] == -1 by {
    }
    assert forall|i: int| 0 <= i < EDGE_COUNT implies #[trigger] differ_in_one_axis(
        d,
        2 * i,
        2 * i + 1,
    ) by {
    }
    assert forall|i: int, j: int|
        0 <= i < EDGE_COUNT && 0 <= j < EDGE_COUNT && i != j implies !#[trigger] same_edge(
        d,
        i,
        j,
    ) by {
    }
}

/// The vertex data of the cube's wireframe: 72 coordinates, 24 vertices of
/// three coordinates each, each pair of consecutive vertices one edge.
pub fn cube_edge_vertices() -> (r: Vec<i8>)
    ensures
        as_ints(r@) == cube_edge_data(),
        r@.len() == VERTEX_COUNT * COMPONENTS_PER_VERTEX,
        is_cube_wireframe(as_ints(r@)),
{
    let r: Vec<i8> = vec![
        -1, -1, -1, 1, -1, -1, 1, 1, -1, -1, 1, -1, -1, -1, 1, 1,
        -1, 1, 1, 1, 1, -1, 1, 1, -1, -1, -1, -1, 1, -1, -1, 1,
        1, -1, -1, 1, 1, -1, -1, 1, 1, -1, 1, 1, 1, 1, -1, 1, -1,
        -1, -1, -1, -1, 1, 1, -1, -1, 1, -1, 1, -1, 1, -1, -1, 1,
        1, 1, 1, -1, 1, 1, 1,
    ];
    proof {
        assert(as_ints(r@) =~= cube_edge_data());
        lemma_cube_edge_data_is_wireframe();
    }
    r
}

} // verus!
