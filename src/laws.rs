use vstd::prelude::*;
use crate::faces::{
    faces_distinct, faces_view, indices_in_range, lemma_ring_well_formed, prism_faces, ring,
    side_face, next_index,
};
use crate::mesh::{Floorplan2DMesh, Floorplan3DMesh};
use crate::point::{Elevations, Point};

verus! {

/// A side wall of an outline of `n` points names roof and floor indices in
/// `1..=2n`, and names no vertex twice unless the outline has one point.
proof fn lemma_side_face_well_formed(i: nat, n: nat)
    requires
        1 <= i <= n,
        2 * n <= usize::MAX,
    ensures
        side_face(i, n).len() == 4,
        forall|j: int| 0 <= j < 4 ==> 1 <= #[trigger] side_face(i, n)[j] <= 2 * n,
        n != 1 ==> side_face(i, n).no_duplicates(),
{
    let s = side_face(i, n);
    let nx = next_index(i, n);
    assert(s[0] == i && s[1] == nx && s[2] == nx + n && s[3] == i + n);
    if n != 1 {
        assert(i != nx);
        assert forall|a: int, b: int| 0 <= a < s.len() && 0 <= b < s.len() && a != b implies s[a]
            != s[b] by {}
    }
}

/// Every face of the prism over `n` points names indices in `1..=2n`, and, for
/// any `n` other than 1, no face names a vertex twice.
pub proof fn lemma_prism_faces_well_formed(n: nat)
    requires
        2 * n <= usize::MAX,
    ensures
        prism_faces(n).len() == n + 2,
        indices_in_range(prism_faces(n), 2 * n),
        n != 1 ==> faces_distinct(prism_faces(n)),
{
    let fs = prism_faces(n);
    lemma_ring_well_formed(0, n);
    lemma_ring_well_formed(n, n);
    assert(fs[0] == ring(0, n));
    assert(fs[n + 1 as int] == ring(n, n));
    assert forall|f: int| 1 <= f <= n implies #[trigger] fs[f] == side_face(f as nat, n) by {}
    assert forall|f: int, j: int| 0 <= f < fs.len() && 0 <= j < fs[f].len() implies 1
        <= #[trigger] fs[f][j] <= 2 * n by {
        if 1 <= f <= n {
            lemma_side_face_well_formed(f as nat, n);
        }
    }
    if n != 1 {
        assert forall|f: int| 0 <= f < fs.len() implies (#[trigger] fs[f]).no_duplicates() by {
            if 1 <= f <= n {
                lemma_side_face_well_formed(f as nat, n);
            }
        }
    }
}

/// Index range law of the prism: every face index lies in `1..=len(vertices)`,
/// and no face repeats an index, unless the outline has a single point (its
/// one side wall then joins that point to itself).
pub proof fn lemma_prism_index_range<C: Copy>(
    poly: Seq<Point<C>>,
    levels: Elevations<C>,
    mesh: Floorplan3DMesh<C>,
)
    requires
        2 * poly.len() <= usize::MAX,
        mesh.is_prism_of(poly, levels),
    ensures
        indices_in_range(faces_view(mesh.faces@), mesh.vertices@.len()),
        poly.len() != 1 ==> faces_distinct(faces_view(mesh.faces@)),
{
    lemma_prism_faces_well_formed(poly.len());
}

/// Index range law of the flat mesh: its one face names each vertex once, in
/// `1..=len(vertices)`.
pub proof fn lemma_flat_index_range<C: Copy>(poly: Seq<Point<C>>, mesh: Floorplan2DMesh<C>)
    requires
        poly.len() <= usize::MAX,
        mesh.is_flat_mesh_of(poly),
    ensures
        indices_in_range(faces_view(mesh.faces@), mesh.vertices@.len()),
        faces_distinct(faces_view(mesh.faces@)),
{
    lemma_ring_well_formed(0, poly.len());
    assert(faces_view(mesh.faces@)[0] == ring(0, poly.len()));
}

/// Wraparound law: the last side wall of a prism joins roof index `n` back to
/// roof index 1, and their floor counterparts `2n` and `n + 1`.
pub proof fn lemma_prism_wraparound<C: Copy>(
    poly: Seq<Point<C>>,
    levels: Elevations<C>,
    mesh: Floorplan3DMesh<C>,
)
    requires
        poly.len() >= 1,
        2 * poly.len() <= usize::MAX,
        mesh.is_prism_of(poly, levels),
    ensures
        mesh.faces@[poly.len() as int]@ == seq![
            poly.len() as usize,
            1usize,
            (poly.len() + 1) as usize,
            (2 * poly.len()) as usize,
        ],
{
    let n = poly.len();
    lemma_prism_faces_well_formed(n);
    assert(faces_view(mesh.faces@)[n as int] == mesh.faces@[n as int]@);
    assert(prism_faces(n)[n as int] == side_face(n, n));
    assert(side_face(n, n) =~= seq![n as usize, 1usize, (n + 1) as usize, (2 * n) as usize]);
}

/// Top and bottom law: the first face of a prism is `[1, ..., n]` and the
/// last is `[n + 1, ..., 2n]`, both in the outline's order.
pub proof fn lemma_prism_top_bottom<C: Copy>(
    poly: Seq<Point<C>>,
    levels: Elevations<C>,
    mesh: Floorplan3DMesh<C>,
)
    requires
        2 * poly.len() <= usize::MAX,
        mesh.is_prism_of(poly, levels),
    ensures
        mesh.faces@[0]@ == Seq::new(poly.len(), |k: int| (k + 1) as usize),
        mesh.faces@[poly.len() + 1 as int]@ == Seq::new(poly.len(), |k: int| (poly.len() + k + 1) as usize),
{
    let n = poly.len();
    lemma_prism_faces_well_formed(n);
    assert(faces_view(mesh.faces@)[0] == mesh.faces@[0]@);
    assert(faces_view(mesh.faces@)[n + 1 as int] == mesh.faces@[n + 1 as int]@);
    assert(prism_faces(n)[0] == ring(0, n));
    assert(prism_faces(n)[n + 1 as int] == ring(n, n));
    assert(ring(0, n) =~= Seq::new(n, |k: int| (k + 1) as usize));
    assert(ring(n, n) =~= Seq::new(n, |k: int| (n + k + 1) as usize));
}

} // verus!
