use crate::fragment::SourceIds;
use crate::model::{
    Building, DoorSurface, GroundSurface, LevelOfDetail, MultiSurface, Polygon, RoofSurface,
    ThematicSurface, WallSurface, WindowSurface,
};
use crate::semantic_class::CityObjectClass;
use vstd::prelude::*;

verus! {

/// One multi-surface found in a building, as a mathematical value: the class
/// and the identifier of the semantic surface that owns it, and the level of
/// detail at which it was found.
pub struct Collected<P> {
    pub semantic_class: CityObjectClass,
    pub level_of_detail: LevelOfDetail,
    pub surface_id: Seq<char>,
    pub multi_surface: MultiSurface<P>,
}

/// One multi-surface found in a building, borrowed from it.
pub struct CollectedSurface<'a, P> {
    pub semantic_class: CityObjectClass,
    pub level_of_detail: LevelOfDetail,
    pub surface_id: &'a String,
    pub multi_surface: &'a MultiSurface<P>,
}

impl<'a, P> View for CollectedSurface<'a, P> {
    type V = Collected<P>;

    open spec fn view(&self) -> Collected<P> {
        Collected {
            semantic_class: self.semantic_class,
            level_of_detail: self.level_of_detail,
            surface_id: self.surface_id@,
            multi_surface: *self.multi_surface,
        }
    }
}

/// A list of borrowed finds as mathematical values.
pub open spec fn views<'a, P>(found: Seq<CollectedSurface<'a, P>>) -> Seq<Collected<P>> {
    found.map_values(|one: CollectedSurface<'a, P>| one@)
}

/// What one semantic surface contributes at a level of detail: its
/// multi-surface there, or nothing where it has none.
pub open spec fn contribution<P>(
    class: CityObjectClass,
    lod: LevelOfDetail,
    surface: ThematicSurface<P>,
) -> Seq<Collected<P>> {
    match surface.at(lod) {
        Some(multi_surface) => seq![
            Collected {
                semantic_class: class,
                level_of_detail: lod,
                surface_id: surface.id@,
                multi_surface,
            },
        ],
        None => Seq::empty(),
    }
}

/// What each window of a list contributes.
pub open spec fn window_parts<P>(lod: LevelOfDetail, windows: Seq<WindowSurface<P>>) -> Seq<
    Seq<Collected<P>>,
> {
    windows.map_values(
        |window: WindowSurface<P>|
            contribution(CityObjectClass::WindowSurface, lod, window.thematic_surface),
    )
}

/// What each door of a list contributes.
pub open spec fn door_parts<P>(lod: LevelOfDetail, doors: Seq<DoorSurface<P>>) -> Seq<
    Seq<Collected<P>>,
> {
    doors.map_values(
        |door: DoorSurface<P>| contribution(CityObjectClass::DoorSurface, lod, door.thematic_surface),
    )
}

/// What a wall contributes: its own multi-surface, then those of its windows,
/// then those of its doors.
pub open spec fn wall_contribution<P>(lod: LevelOfDetail, wall: WallSurface<P>) -> Seq<
    Collected<P>,
> {
    contribution(CityObjectClass::WallSurface, lod, wall.thematic_surface) + window_parts(
        lod,
        wall.window_surface@,
    ).flatten() + door_parts(lod, wall.door_surface@).flatten()
}

/// What each wall of a list contributes.
pub open spec fn wall_parts<P>(lod: LevelOfDetail, walls: Seq<WallSurface<P>>) -> Seq<
    Seq<Collected<P>>,
> {
    walls.map_values(|wall: WallSurface<P>| wall_contribution(lod, wall))
}

/// What each roof of a list contributes.
pub open spec fn roof_parts<P>(lod: LevelOfDetail, roofs: Seq<RoofSurface<P>>) -> Seq<
    Seq<Collected<P>>,
> {
    roofs.map_values(
        |roof: RoofSurface<P>| contribution(CityObjectClass::RoofSurface, lod, roof.thematic_surface),
    )
}

/// What each ground surface of a list contributes.
pub open spec fn ground_parts<P>(lod: LevelOfDetail, grounds: Seq<GroundSurface<P>>) -> Seq<
    Seq<Collected<P>>,
> {
    grounds.map_values(
        |ground: GroundSurface<P>|
            contribution(CityObjectClass::GroundSurface, lod, ground.thematic_surface),
    )
}

/// The multi-surfaces of a building at a level of detail, depth first: each
/// wall with its windows and doors, then the roofs, then the ground surfaces.
/// A surface without geometry at that level contributes nothing.
pub open spec fn collected<P>(building: Building<P>, lod: LevelOfDetail) -> Seq<Collected<P>> {
    wall_parts(lod, building.wall_surface@).flatten() + roof_parts(
        lod,
        building.roof_surface@,
    ).flatten() + ground_parts(lod, building.ground_surface@).flatten()
}

/// Adds what one semantic surface contributes.
fn collect_surface<'a, P>(
    found: &mut Vec<CollectedSurface<'a, P>>,
    class: CityObjectClass,
    lod: LevelOfDetail,
    surface: &'a ThematicSurface<P>,
)
    ensures
        views(final(found)@) == views(old(found)@) + contribution(class, lod, *surface),
{
    match surface.multi_surface_at(lod) {
        Some(multi_surface) => {
            found.push(
                CollectedSurface {
                    semantic_class: class,
                    level_of_detail: lod,
                    surface_id: &surface.id,
                    multi_surface,
                },
            );
            assert(views(found@) =~= views(old(found)@) + contribution(class, lod, *surface));
        },
        None => {
            assert(views(found@) =~= views(old(found)@) + contribution(class, lod, *surface));
        },
    }
}

/// Adds what a wall contributes.
fn collect_wall<'a, P>(
    found: &mut Vec<CollectedSurface<'a, P>>,
    lod: LevelOfDetail,
    wall: &'a WallSurface<P>,
)
    ensures
        views(final(found)@) == views(old(found)@) + wall_contribution(lod, *wall),
{
    let ghost start = views(found@);
    let ghost own = contribution(CityObjectClass::WallSurface, lod, wall.thematic_surface);
    collect_surface(found, CityObjectClass::WallSurface, lod, &wall.thematic_surface);

    let ghost windows = wall.window_surface@;
    let mut i: usize = 0;
    assert(window_parts(lod, windows.take(0)).flatten() =~= Seq::<Collected<P>>::empty());
    while i < wall.window_surface.len()
        invariant
            i <= windows.len(),
            windows == wall.window_surface@,
            views(found@) == start + own + window_parts(lod, windows.take(i as int)).flatten(),
        decreases windows.len() - i,
    {
        collect_surface(
            found,
            CityObjectClass::WindowSurface,
            lod,
            &wall.window_surface[i].thematic_surface,
        );
        proof {
            let done = window_parts(lod, windows.take(i as int));
            let next = contribution(
                CityObjectClass::WindowSurface,
                lod,
                windows[i as int].thematic_surface,
            );
            assert(window_parts(lod, windows.take(i + 1)) =~= done.push(next));
            done.lemma_flatten_push(next);
        }
        i += 1;
    }
    assert(windows.take(windows.len() as int) =~= windows);
    let ghost with_windows = start + own + window_parts(lod, windows).flatten();

    let ghost doors = wall.door_surface@;
    let mut j: usize = 0;
    assert(door_parts(lod, doors.take(0)).flatten() =~= Seq::<Collected<P>>::empty());
    while j < wall.door_surface.len()
        invariant
            j <= doors.len(),
            doors == wall.door_surface@,
            views(found@) == with_windows + door_parts(lod, doors.take(j as int)).flatten(),
        decreases doors.len() - j,
    {
        collect_surface(
            found,
            CityObjectClass::DoorSurface,
            lod,
            &wall.door_surface[j].thematic_surface,
        );
        proof {
            let done = door_parts(lod, doors.take(j as int));
            let next = contribution(
                CityObjectClass::DoorSurface,
                lod,
                doors[j as int].thematic_surface,
            );
            assert(door_parts(lod, doors.take(j + 1)) =~= done.push(next));
            done.lemma_flatten_push(next);
        }
        j += 1;
    }
    assert(doors.take(doors.len() as int) =~= doors);
    assert(views(found@) =~= start + wall_contribution(lod, *wall));
}

/// Walks a building depth first and lists its multi-surfaces at a level of
/// detail, each with the class and the identifier of the surface that owns it.
pub fn collect<'a, P>(building: &'a Building<P>, lod: LevelOfDetail) -> (found: Vec<
    CollectedSurface<'a, P>,
>)
    ensures
        views(found@) == collected(*building, lod),
{
    let mut found: Vec<CollectedSurface<'a, P>> = Vec::new();
    assert(views(found@) =~= Seq::<Collected<P>>::empty());

    let ghost walls = building.wall_surface@;
    let mut i: usize = 0;
    assert(wall_parts(lod, walls.take(0)).flatten() =~= Seq::<Collected<P>>::empty());
    while i < building.wall_surface.len()
        invariant
            i <= walls.len(),
            walls == building.wall_surface@,
            views(found@) == wall_parts(lod, walls.take(i as int)).flatten(),
        decreases walls.len() - i,
    {
        collect_wall(&mut found, lod, &building.wall_surface[i]);
        proof {
            let done = wall_parts(lod, walls.take(i as int));
            let next = wall_contribution(lod, walls[i as int]);
            assert(wall_parts(lod, walls.take(i + 1)) =~= done.push(next));
            done.lemma_flatten_push(next);
        }
        i += 1;
    }
    assert(walls.take(walls.len() as int) =~= walls);
    let ghost with_walls = wall_parts(lod, walls).flatten();

    let ghost roofs = building.roof_surface@;
    let mut j: usize = 0;
    assert(roof_parts(lod, roofs.take(0)).flatten() =~= Seq::<Collected<P>>::empty());
    while j < building.roof_surface.len()
        invariant
            j <= roofs.len(),
            roofs == building.roof_surface@,
            views(found@) == with_walls + roof_parts(lod, roofs.take(j as int)).flatten(),
        decreases roofs.len() - j,
    {
        collect_surface(
            &mut found,
            CityObjectClass::RoofSurface,
            lod,
            &building.roof_surface[j].thematic_surface,
        );
        proof {
            let done = roof_parts(lod, roofs.take(j as int));
            let next = contribution(
                CityObjectClass::RoofSurface,
                lod,
                roofs[j as int].thematic_surface,
            );
            assert(roof_parts(lod, roofs.take(j + 1)) =~= done.push(next));
            done.lemma_flatten_push(next);
        }
        j += 1;
    }
    assert(roofs.take(roofs.len() as int) =~= roofs);
    let ghost with_roofs = with_walls + roof_parts(lod, roofs).flatten();

    let ghost grounds = building.ground_surface@;
    let mut k: usize = 0;
    assert(ground_parts(lod, grounds.take(0)).flatten() =~= Seq::<Collected<P>>::empty());
    while k < building.ground_surface.len()
        invariant
            k <= grounds.len(),
            grounds == building.ground_surface@,
            views(found@) == with_roofs + ground_parts(lod, grounds.take(k as int)).flatten(),
        decreases grounds.len() - k,
    {
        collect_surface(
            &mut found,
            CityObjectClass::GroundSurface,
            lod,
            &building.ground_surface[k].thematic_surface,
        );
        proof {
            let done = ground_parts(lod, grounds.take(k as int));
            let next = contribution(
                CityObjectClass::GroundSurface,
                lod,
                grounds[k as int].thematic_surface,
            );
            assert(ground_parts(lod, grounds.take(k + 1)) =~= done.push(next));
            done.lemma_flatten_push(next);
        }
        k += 1;
    }
    assert(grounds.take(grounds.len() as int) =~= grounds);
    found
}

impl<'a, P> CollectedSurface<'a, P> {
    /// The origin of the triangulation of one polygon of this multi-surface.
    pub fn source_of(&self, building_id: &String, polygon: &Polygon<P>) -> (source: SourceIds)
        ensures
            source.building_id@ == building_id@,
            source.surface_id@ == self@.surface_id,
            source.multi_surface_id@ == self@.multi_surface.id@,
            source.polygon_id@ == polygon.id@,
            source.semantic_class == self@.semantic_class,
    {
        SourceIds {
            building_id: building_id.clone(),
            surface_id: self.surface_id.clone(),
            multi_surface_id: self.multi_surface.id.clone(),
            polygon_id: polygon.id.clone(),
            semantic_class: self.semantic_class,
        }
    }
}

} // verus!
