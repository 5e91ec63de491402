use vstd::prelude::*;

verus! {

/// The granularity at which a surface's geometry is given.
#[derive(Clone, Copy, Debug, PartialEq, Eq, Hash, Structural)]
pub enum LevelOfDetail {
    Zero,
    One,
    Two,
    Three,
}

/// A planar face: one outer boundary and any number of holes.
///
/// A ring is an ordered list of vertices that is closed implicitly: the last
/// vertex joins the first, which is not stored a second time. The vertex type
/// `P` is carried through untouched.
#[derive(Clone, Debug)]
pub struct Polygon<P> {
    pub id: String,
    pub exterior: Vec<P>,
    pub interior: Vec<Vec<P>>,
}

/// An ordered collection of polygons under one identifier.
#[derive(Clone, Debug)]
pub struct MultiSurface<P> {
    pub id: String,
    pub surface_member: Vec<Polygon<P>>,
}

/// What every semantic surface has: an identifier and at most one
/// multi-surface per level of detail.
#[derive(Clone, Debug)]
pub struct ThematicSurface<P> {
    pub id: String,
    pub lod0_multi_surface: Option<MultiSurface<P>>,
    pub lod1_multi_surface: Option<MultiSurface<P>>,
    pub lod2_multi_surface: Option<MultiSurface<P>>,
    pub lod3_multi_surface: Option<MultiSurface<P>>,
}

#[derive(Clone, Debug)]
pub struct WindowSurface<P> {
    pub thematic_surface: ThematicSurface<P>,
}

#[derive(Clone, Debug)]
pub struct DoorSurface<P> {
    pub thematic_surface: ThematicSurface<P>,
}

/// A wall, with the windows and doors that are set into it.
#[derive(Clone, Debug)]
pub struct WallSurface<P> {
    pub thematic_surface: ThematicSurface<P>,
    pub window_surface: Vec<WindowSurface<P>>,
    pub door_surface: Vec<DoorSurface<P>>,
}

#[derive(Clone, Debug)]
pub struct RoofSurface<P> {
    pub thematic_surface: ThematicSurface<P>,
}

#[derive(Clone, Debug)]
pub struct GroundSurface<P> {
    pub thematic_surface: ThematicSurface<P>,
}

/// An axis-aligned bounding box, given by two opposite corners.
#[derive(Clone, Debug)]
pub struct Envelope<P> {
    pub lower_corner: P,
    pub upper_corner: P,
}

/// A building: its bounding surfaces by role, and its envelope if it has one.
#[derive(Clone, Debug)]
pub struct Building<P> {
    pub id: String,
    pub wall_surface: Vec<WallSurface<P>>,
    pub roof_surface: Vec<RoofSurface<P>>,
    pub ground_surface: Vec<GroundSurface<P>>,
    pub envelope: Option<Envelope<P>>,
}

impl<P> Polygon<P> {
    /// The holes, each as the sequence of its vertices.
    pub open spec fn interior_rings(self) -> Seq<Seq<P>> {
        self.interior@.map_values(|ring: Vec<P>| ring@)
    }

    /// Every vertex of the polygon: the outer boundary first, then each hole
    /// in turn.
    pub open spec fn all_points(self) -> Seq<P> {
        self.exterior@ + self.interior_rings().flatten()
    }
}

impl<P> MultiSurface<P> {
    /// The outer boundaries of the polygons, in order.
    pub open spec fn exterior_rings(self) -> Seq<Seq<P>> {
        self.surface_member@.map_values(|polygon: Polygon<P>| polygon.exterior@)
    }

    /// The vertices of all outer boundaries, polygon after polygon.
    pub open spec fn exterior_points(self) -> Seq<P> {
        self.exterior_rings().flatten()
    }
}

impl<P> ThematicSurface<P> {
    /// The multi-surface that the surface has at a level of detail.
    pub open spec fn at(self, lod: LevelOfDetail) -> Option<MultiSurface<P>> {
        match lod {
            LevelOfDetail::Zero => self.lod0_multi_surface,
            LevelOfDetail::One => self.lod1_multi_surface,
            LevelOfDetail::Two => self.lod2_multi_surface,
            LevelOfDetail::Three => self.lod3_multi_surface,
        }
    }

    /// The multi-surface at a level of detail, if the surface has one there.
    pub fn multi_surface_at(&self, lod: LevelOfDetail) -> (found: Option<&MultiSurface<P>>)
        ensures
            match found {
                Some(multi_surface) => self.at(lod) == Some(*multi_surface),
                None => self.at(lod).is_none(),
            },
    {
        match lod {
            LevelOfDetail::Zero => self.lod0_multi_surface.as_ref(),
            LevelOfDetail::One => self.lod1_multi_surface.as_ref(),
            LevelOfDetail::Two => self.lod2_multi_surface.as_ref(),
            LevelOfDetail::Three => self.lod3_multi_surface.as_ref(),
        }
    }
}

} // verus!
