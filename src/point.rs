use vstd::prelude::*;

verus! {

/// A point of a floor outline.
#[derive(Clone, Copy, Debug, PartialEq)]
pub struct Point<C> {
    pub x: C,
    pub y: C,
}

/// A point in space: an outline point lifted to an elevation `z`.
#[derive(Clone, Copy, Debug, PartialEq)]
pub struct PointZ<C> {
    pub x: C,
    pub y: C,
    pub z: C,
}

/// The two elevations between which an outline is extruded.
#[derive(Clone, Copy, Debug, PartialEq)]
pub struct Elevations<C> {
    pub floor_z: C,
    pub roof_z: C,
}

impl<C: Copy> Point<C> {
    pub fn new(x: C, y: C) -> (r: Self)
        ensures
            r == (Point { x, y }),
    {
        Point { x, y }
    }

    /// This point lifted to the roof elevation.
    pub open spec fn at_roof(self, levels: Elevations<C>) -> PointZ<C> {
        PointZ { x: self.x, y: self.y, z: levels.roof_z }
    }

    /// This point lowered to the floor elevation.
    pub open spec fn at_floor(self, levels: Elevations<C>) -> PointZ<C> {
        PointZ { x: self.x, y: self.y, z: levels.floor_z }
    }
}

impl<C: Copy> PointZ<C> {
    pub fn new(x: C, y: C, z: C) -> (r: Self)
        ensures
            r == (PointZ { x, y, z }),
    {
        PointZ { x, y, z }
    }

    /// The point `(x, y)` at the floor elevation of `levels`.
    pub fn floor(x: C, y: C, levels: &Elevations<C>) -> (r: Self)
        ensures
            r == (PointZ { x, y, z: levels.floor_z }),
    {
        PointZ::new(x, y, levels.floor_z)
    }

    /// The point `(x, y)` at the roof elevation of `levels`.
    pub fn roof(x: C, y: C, levels: &Elevations<C>) -> (r: Self)
        ensures
            r == (PointZ { x, y, z: levels.roof_z }),
    {
        PointZ::new(x, y, levels.roof_z)
    }
}

impl<C: Copy> Elevations<C> {
    pub fn new(floor_z: C, roof_z: C) -> (r: Self)
        ensures
            r == (Elevations { floor_z, roof_z }),
    {
        Elevations { floor_z, roof_z }
    }
}

} // verus!
