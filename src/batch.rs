use vstd::prelude::*;
use crate::mesh::Floorplan3DMesh;
use crate::point::{Elevations, Point};

verus! {

/// The outlines of `shapes` that hold at least one point, in their order.
pub open spec fn nonempty_polygons<C>(shapes: Seq<Vec<Point<C>>>) -> Seq<Vec<Point<C>>> {
    shapes.filter(|p: Vec<Point<C>>| p@.len() > 0)
}

/// The outlines that hold at least one point, in their order. Outlines of
/// one or two points are kept: they give degenerate but well-formed prisms.
pub fn select_polygons<C: Copy>(shapes: Vec<Vec<Point<C>>>) -> (r: Vec<Vec<Point<C>>>)
    ensures
        r@ == nonempty_polygons(shapes@),
{
    let ghost all = shapes@;
    let mut r: Vec<Vec<Point<C>>> = Vec::new();
    for shape in it: shapes
        invariant
            it.seq() == all,
            r@ == nonempty_polygons(all.take(it.index() as int)),
    {
        let ghost k = it.index() as int;
        proof {
            assert(all.take(k + 1).drop_last() =~= all.take(k));
            assert(all.take(k + 1).last() == shape);
            reveal(Seq::filter);
            assert(nonempty_polygons(all.take(k + 1)) == if shape@.len() > 0 {
                nonempty_polygons(all.take(k)).push(shape)
            } else {
                nonempty_polygons(all.take(k))
            });
        }
        if shape.len() > 0 {
            r.push(shape);
        }
    }
    proof {
        assert(all.take(all.len() as int) =~= all);
    }
    r
}

/// The prism of each outline, in input order: one mesh per outline, and none
/// for an empty list.
pub fn process_shapes<C: Copy>(polygons: Vec<Vec<Point<C>>>, levels: &Elevations<C>) -> (r: Vec<
    Floorplan3DMesh<C>,
>)
    requires
        forall|i: int| 0 <= i < polygons@.len() ==> 2 * (#[trigger] polygons@[i])@.len() <= usize::MAX,
    ensures
        r@.len() == polygons@.len(),
        forall|i: int| 0 <= i < r@.len() ==> (#[trigger] r@[i]).is_prism_of(polygons@[i]@, *levels),
        forall|i: int| 0 <= i < r@.len() ==> (#[trigger] r@[i]).wf(),
{
    let ghost all = polygons@;
    let mut r: Vec<Floorplan3DMesh<C>> = Vec::new();
    for poly in it: polygons
        invariant
            it.seq() == all,
            forall|i: int| 0 <= i < all.len() ==> 2 * (#[trigger] all[i])@.len() <= usize::MAX,
            r@.len() == it.index(),
            forall|i: int| 0 <= i < r@.len() ==> (#[trigger] r@[i]).is_prism_of(all[i]@, *levels),
            forall|i: int| 0 <= i < r@.len() ==> (#[trigger] r@[i]).wf(),
    {
        r.push(Floorplan3DMesh::extrude(poly, levels));
    }
    r
}

} // verus!
