use vstd::prelude::*;
use crate::faces::{
    faces_distinct, faces_view, indices_in_range, next_index, prism_faces, ring, ring_face,
    side_face,
};
use crate::laws::{lemma_flat_index_range, lemma_prism_index_range};
use crate::point::{Elevations, Point, PointZ};

verus! {

/// A flat mesh: the outline's own points and one face that runs through all
/// of them in order. Face indices are 1-based.
#[derive(Debug, PartialEq)]
pub struct Floorplan2DMesh<C> {
    pub vertices: Vec<Point<C>>,
    pub faces: Vec<Vec<usize>>,
}

/// A closed prism: the roof ring followed by the floor ring, and the top,
/// side and bottom faces over them. Face indices are 1-based.
#[derive(Debug, PartialEq)]
pub struct Floorplan3DMesh<C> {
    pub vertices: Vec<PointZ<C>>,
    pub faces: Vec<Vec<usize>>,
}

impl<C: Copy> Floorplan2DMesh<C> {
    /// Every face index points at one of the vertices.
    pub open spec fn wf(&self) -> bool {
        indices_in_range(faces_view(self.faces@), self.vertices@.len())
    }

    /// Is this the flat mesh of the outline `poly`?
    pub open spec fn is_flat_mesh_of(&self, poly: Seq<Point<C>>) -> bool {
        &&& self.vertices@ == poly
        &&& faces_view(self.faces@) == seq![ring(0, poly.len())]
    }

    /// The flat mesh of `points`: the points unchanged, and the single face
    /// `[1, 2, ..., n]`.
    pub fn from_points(points: Vec<Point<C>>) -> (r: Self)
        ensures
            r.is_flat_mesh_of(points@),
            r.wf(),
            faces_distinct(faces_view(r.faces@)),
            r.vertices@.len() == points@.len(),
            r.faces@.len() == 1,
            r.faces@[0]@.len() == points@.len(),
    {
        let face = ring_face(0, points.len());
        let mut faces: Vec<Vec<usize>> = Vec::new();
        faces.push(face);
        let r = Floorplan2DMesh { vertices: points, faces };
        assert(faces_view(r.faces@) =~= seq![ring(0, points@.len())]);
        proof {
            lemma_flat_index_range(points@, r);
        }
        r
    }
}

impl<C: Copy> Floorplan3DMesh<C> {
    /// Every face index points at one of the vertices.
    pub open spec fn wf(&self) -> bool {
        indices_in_range(faces_view(self.faces@), self.vertices@.len())
    }

    /// Is this the prism over the outline `poly` between the elevations of
    /// `levels`? Roof point `i` stands at index `i`, floor point `i` at
    /// index `n + i` (1-based), and the faces are those of `prism_faces`.
    pub open spec fn is_prism_of(&self, poly: Seq<Point<C>>, levels: Elevations<C>) -> bool {
        let n = poly.len();
        &&& self.vertices@.len() == 2 * n
        &&& forall|i: int| 0 <= i < n ==> #[trigger] self.vertices@[i] == poly[i].at_roof(levels)
        &&& forall|i: int| n <= i < 2 * n ==> #[trigger] self.vertices@[i] == poly[i - n].at_floor(levels)
        &&& faces_view(self.faces@) == prism_faces(n)
    }

    /// The prism over `points` between `levels.floor_z` and `levels.roof_z`.
    pub fn extrude(points: Vec<Point<C>>, levels: &Elevations<C>) -> (r: Self)
        requires
            2 * points@.len() <= usize::MAX,
        ensures
            r.is_prism_of(points@, *levels),
            r.wf(),
            points@.len() != 1 ==> faces_distinct(faces_view(r.faces@)),
            r.vertices@.len() == 2 * points@.len(),
            r.faces@.len() == points@.len() + 2,
    {
        let n = points.len();
        let mut vertices: Vec<PointZ<C>> = Vec::with_capacity(2 * n);
        let mut i: usize = 0;
        while i < n
            invariant
                n == points@.len(),
                i <= n,
                vertices@.len() == i,
                forall|j: int| 0 <= j < i ==> #[trigger] vertices@[j] == points@[j].at_roof(*levels),
            decreases n - i,
        {
            vertices.push(PointZ::roof(points[i].x, points[i].y, levels));
            i = i + 1;
        }
        let mut i: usize = 0;
        while i < n
            invariant
                n == points@.len(),
                i <= n,
                vertices@.len() == n + i,
                forall|j: int| 0 <= j < n ==> #[trigger] vertices@[j] == points@[j].at_roof(*levels),
                forall|j: int| n <= j < n + i ==> #[trigger] vertices@[j] == points@[j - n].at_floor(*levels),
            decreases n - i,
        {
            vertices.push(PointZ::floor(points[i].x, points[i].y, levels));
            i = i + 1;
        }

        let mut faces: Vec<Vec<usize>> = Vec::with_capacity(n + 2);
        faces.push(ring_face(0, n));
        let mut index: usize = 1;
        while index <= n
            invariant
                2 * n <= usize::MAX,
                1 <= index <= n + 1,
                faces@.len() == index,
                faces@[0]@ == ring(0, n as nat),
                forall|k: int| 1 <= k < index ==> (#[trigger] faces@[k])@ == side_face(k as nat, n as nat),
            decreases n + 1 - index,
        {
            let next = if index == n { 1 } else { index + 1 };
            let p1 = index;
            let p2 = next;
            let p3 = p2 + n;
            let p4 = p1 + n;
            assert(next as nat == next_index(index as nat, n as nat));
            let side = vec![p1, p2, p3, p4];
            assert(side@ =~= side_face(index as nat, n as nat));
            faces.push(side);
            index = index + 1;
        }
        faces.push(ring_face(n, n));
        let r = Floorplan3DMesh { vertices, faces };
        assert(faces_view(r.faces@) =~= prism_faces(n as nat));
        proof {
            lemma_prism_index_range(points@, *levels, r);
        }
        r
    }
}

} // verus!
