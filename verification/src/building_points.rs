use crate::model::{
    Building, GroundSurface, MultiSurface, Polygon, RoofSurface, ThematicSurface, WallSurface,
};
use crate::rings::append_ring;
use vstd::prelude::*;

verus! {

impl<P> ThematicSurface<P> {
    /// The outer-boundary points of the surface's polygons at the second
    /// level of detail; none where it has no geometry there.
    pub open spec fn lod2_points(self) -> Seq<P> {
        match self.lod2_multi_surface {
            Some(multi_surface) => multi_surface.exterior_points(),
            None => Seq::empty(),
        }
    }
}

/// The points of each wall of a list.
pub open spec fn wall_point_parts<P>(walls: Seq<WallSurface<P>>) -> Seq<Seq<P>> {
    walls.map_values(|wall: WallSurface<P>| wall.thematic_surface.lod2_points())
}

/// The points of each roof of a list.
pub open spec fn roof_point_parts<P>(roofs: Seq<RoofSurface<P>>) -> Seq<Seq<P>> {
    roofs.map_values(|roof: RoofSurface<P>| roof.thematic_surface.lod2_points())
}

/// The points of each ground surface of a list.
pub open spec fn ground_point_parts<P>(grounds: Seq<GroundSurface<P>>) -> Seq<Seq<P>> {
    grounds.map_values(|ground: GroundSurface<P>| ground.thematic_surface.lod2_points())
}

impl<P> Building<P> {
    /// The outer-boundary points of the building's shell: those of the ground
    /// surfaces, then those of the roofs, then those of the walls.
    pub open spec fn component_points(self) -> Seq<P> {
        ground_point_parts(self.ground_surface@).flatten() + roof_point_parts(
            self.roof_surface@,
        ).flatten() + wall_point_parts(self.wall_surface@).flatten()
    }
}

/// The points of a polygon's outer boundary.
pub fn process_surface_member_sequential<P: Copy>(input_surface_member: &Polygon<P>) -> (all_points:
    Vec<P>)
    ensures
        all_points@ == input_surface_member.exterior@,
{
    let mut all_points: Vec<P> = Vec::new();
    append_ring(&mut all_points, &input_surface_member.exterior);
    all_points
}

/// The outer-boundary points of all polygons of a multi-surface, polygon
/// after polygon.
pub fn process_multi_surface_sequential<P: Copy>(input_multi_surface: &MultiSurface<P>) -> (all_points:
    Vec<P>)
    ensures
        all_points@ == input_multi_surface.exterior_points(),
{
    let mut all_points: Vec<P> = Vec::new();
    let ghost rings = input_multi_surface.exterior_rings();
    assert(rings.take(0).flatten() =~= Seq::<P>::empty());
    let mut i: usize = 0;
    while i < input_multi_surface.surface_member.len()
        invariant
            i <= rings.len(),
            rings == input_multi_surface.exterior_rings(),
            all_points@ == rings.take(i as int).flatten(),
        decreases rings.len() - i,
    {
        let all_points_tmp = process_surface_member_sequential(
            &input_multi_surface.surface_member[i],
        );
        append_ring(&mut all_points, &all_points_tmp);
        proof {
            assert(rings.take(i + 1) =~= rings.take(i as int).push(rings[i as int]));
            rings.take(i as int).lemma_flatten_push(rings[i as int]);
        }
        i += 1;
    }
    assert(rings.take(rings.len() as int) =~= rings);
    all_points
}

/// The points of a semantic surface at the second level of detail.
fn lod2_surface_points<P: Copy>(surface: &ThematicSurface<P>) -> (all_points: Vec<P>)
    ensures
        all_points@ == surface.lod2_points(),
{
    match &surface.lod2_multi_surface {
        Some(multi_surface) => process_multi_surface_sequential(multi_surface),
        None => Vec::new(),
    }
}

/// The points of a wall at the second level of detail; none where the wall
/// has no geometry there.
pub fn process_wall_surface_sequential<P: Copy>(input_wall_surface: &WallSurface<P>) -> (all_points:
    Vec<P>)
    ensures
        all_points@ == input_wall_surface.thematic_surface.lod2_points(),
{
    lod2_surface_points(&input_wall_surface.thematic_surface)
}

/// The points of a roof at the second level of detail; none where the roof
/// has no geometry there.
pub fn process_roof_surface_sequential<P: Copy>(input_roof_surface: &RoofSurface<P>) -> (all_points:
    Vec<P>)
    ensures
        all_points@ == input_roof_surface.thematic_surface.lod2_points(),
{
    lod2_surface_points(&input_roof_surface.thematic_surface)
}

/// The points of a ground surface at the second level of detail; none where
/// it has no geometry there.
pub fn process_ground_surface_sequential<P: Copy>(input_ground_surface: &GroundSurface<P>) -> (all_points:
    Vec<P>)
    ensures
        all_points@ == input_ground_surface.thematic_surface.lod2_points(),
{
    lod2_surface_points(&input_ground_surface.thematic_surface)
}

/// The outer-boundary points of a building's shell at the second level of
/// detail: ground surfaces first, then roofs, then walls. A translation into
/// a local frame that centres the building on the mean of its points is
/// computed from this list.
pub fn process_building_components_sequential<P: Copy>(input_building: &Building<P>) -> (all_building_points:
    Vec<P>)
    ensures
        all_building_points@ == input_building.component_points(),
{
    let mut all_building_points: Vec<P> = Vec::new();

    let ghost grounds = input_building.ground_surface@;
    assert(ground_point_parts(grounds.take(0)).flatten() =~= Seq::<P>::empty());
    let mut i: usize = 0;
    while i < input_building.ground_surface.len()
        invariant
            i <= grounds.len(),
            grounds == input_building.ground_surface@,
            all_building_points@ == ground_point_parts(grounds.take(i as int)).flatten(),
        decreases grounds.len() - i,
    {
        let all_ground_points_tmp = process_ground_surface_sequential(
            &input_building.ground_surface[i],
        );
        append_ring(&mut all_building_points, &all_ground_points_tmp);
        proof {
            let done = ground_point_parts(grounds.take(i as int));
            let next = grounds[i as int].thematic_surface.lod2_points();
            assert(ground_point_parts(grounds.take(i + 1)) =~= done.push(next));
            done.lemma_flatten_push(next);
        }
        i += 1;
    }
    assert(grounds.take(grounds.len() as int) =~= grounds);
    let ghost with_grounds = ground_point_parts(grounds).flatten();

    let ghost roofs = input_building.roof_surface@;
    assert(roof_point_parts(roofs.take(0)).flatten() =~= Seq::<P>::empty());
    let mut j: usize = 0;
    while j < input_building.roof_surface.len()
        invariant
            j <= roofs.len(),
            roofs == input_building.roof_surface@,
            all_building_points@ == with_grounds + roof_point_parts(
                roofs.take(j as int),
            ).flatten(),
        decreases roofs.len() - j,
    {
        let all_roof_points_tmp = process_roof_surface_sequential(&input_building.roof_surface[j]);
        append_ring(&mut all_building_points, &all_roof_points_tmp);
        proof {
            let done = roof_point_parts(roofs.take(j as int));
            let next = roofs[j as int].thematic_surface.lod2_points();
            assert(roof_point_parts(roofs.take(j + 1)) =~= done.push(next));
            done.lemma_flatten_push(next);
        }
        j += 1;
    }
    assert(roofs.take(roofs.len() as int) =~= roofs);
    let ghost with_roofs = with_grounds + roof_point_parts(roofs).flatten();

    let ghost walls = input_building.wall_surface@;
    assert(wall_point_parts(walls.take(0)).flatten() =~= Seq::<P>::empty());
    let mut k: usize = 0;
    while k < input_building.wall_surface.len()
        invariant
            k <= walls.len(),
            walls == input_building.wall_surface@,
            all_building_points@ == with_roofs + wall_point_parts(walls.take(k as int)).flatten(),
        decreases walls.len() - k,
    {
        let all_wall_points_tmp = process_wall_surface_sequential(&input_building.wall_surface[k]);
        append_ring(&mut all_building_points, &all_wall_points_tmp);
        proof {
            let done = wall_point_parts(walls.take(k as int));
            let next = walls[k as int].thematic_surface.lod2_points();
            assert(wall_point_parts(walls.take(k + 1)) =~= done.push(next));
            done.lemma_flatten_push(next);
        }
        k += 1;
    }
    assert(walls.take(walls.len() as int) =~= walls);
    all_building_points
}

} // verus!
