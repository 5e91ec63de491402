use citymesh::building_points::{
    process_building_components_sequential, process_ground_surface_sequential,
    process_multi_surface_sequential, process_roof_surface_sequential,
    process_surface_member_sequential, process_wall_surface_sequential,
};
use citymesh::collector::collect;
use citymesh::model::{
    Building, DoorSurface, Envelope, GroundSurface, LevelOfDetail, MultiSurface, Polygon, RoofSurface,
    ThematicSurface, WallSurface, WindowSurface,
};
use citymesh::pipeline::triangulation_jobs;
use citymesh::rings::GeometryError;
use citymesh::semantic_class::{city_object_class_to_str, CityObjectClass};
use citymesh::translation::{offset_input, OffsetInput, TranslationStrategy};

type Point = [f64; 3];

fn ring(tag: f64, n: usize) -> Vec<Point> {
    (0..n).map(|i| [tag, i as f64, 0.0]).collect()
}

fn polygon(id: &str, tag: f64, n: usize) -> Polygon<Point> {
    Polygon { id: String::from(id), exterior: ring(tag, n), interior: vec![] }
}

fn multi(id: &str, polygons: Vec<Polygon<Point>>) -> MultiSurface<Point> {
    MultiSurface { id: String::from(id), surface_member: polygons }
}

fn surface(id: &str, lod2: Option<MultiSurface<Point>>, lod3: Option<MultiSurface<Point>>) -> ThematicSurface<Point> {
    ThematicSurface {
        id: String::from(id),
        lod0_multi_surface: None,
        lod1_multi_surface: None,
        lod2_multi_surface: lod2,
        lod3_multi_surface: lod3,
    }
}

fn building() -> Building<Point> {
    let wall_1 = WallSurface {
        thematic_surface: surface("wall_1", Some(multi("ms_w1", vec![polygon("pw1a", 1.0, 4), polygon("pw1b", 2.0, 3)])), None),
        window_surface: vec![
            WindowSurface { thematic_surface: surface("win_1", Some(multi("ms_win1", vec![polygon("pwin1", 3.0, 4)])), None) },
            WindowSurface { thematic_surface: surface("win_2", None, Some(multi("ms_win2", vec![polygon("pwin2", 4.0, 4)]))) },
        ],
        door_surface: vec![
            DoorSurface { thematic_surface: surface("door_1", None, None) },
            DoorSurface { thematic_surface: surface("door_2", Some(multi("ms_door2", vec![polygon("pdoor2", 5.0, 4)])), None) },
        ],
    };
    let wall_2 = WallSurface {
        thematic_surface: surface("wall_2", None, None),
        window_surface: vec![],
        door_surface: vec![DoorSurface {
            thematic_surface: surface("door_3", Some(multi("ms_door3", vec![polygon("pdoor3", 6.0, 5)])), None),
        }],
    };
    Building {
        id: String::from("B1"),
        wall_surface: vec![wall_1, wall_2],
        roof_surface: vec![RoofSurface {
            thematic_surface: surface("roof_1", Some(multi("ms_r1", vec![polygon("pr1", 7.0, 3)])), None),
        }],
        ground_surface: vec![
            GroundSurface { thematic_surface: surface("ground_1", Some(multi("ms_g1", vec![polygon("pg1", 8.0, 4)])), None) },
            GroundSurface { thematic_surface: surface("ground_2", None, None) },
        ],
        envelope: Some(Envelope { lower_corner: [0.0, 0.0, 0.0], upper_corner: [10.0, 20.0, 30.0] }),
    }
}

#[test]
fn class_names_are_the_identifiers() {
    assert_eq!(city_object_class_to_str(CityObjectClass::WallSurface), "WallSurface");
    assert_eq!(city_object_class_to_str(CityObjectClass::RoofSurface), "RoofSurface");
    assert_eq!(city_object_class_to_str(CityObjectClass::GroundSurface), "GroundSurface");
    assert_eq!(city_object_class_to_str(CityObjectClass::Door), "Door");
    assert_eq!(city_object_class_to_str(CityObjectClass::DoorSurface), "DoorSurface");
    assert_eq!(city_object_class_to_str(CityObjectClass::Window), "Window");
    assert_eq!(city_object_class_to_str(CityObjectClass::WindowSurface), "WindowSurface");
    assert_eq!(city_object_class_to_str(CityObjectClass::AuxiliaryTrafficArea), "AuxiliaryTrafficArea");
    assert_eq!(city_object_class_to_str(CityObjectClass::SolitaryVegetationObject), "SolitaryVegetationObject");
    assert_eq!(city_object_class_to_str(CityObjectClass::WaterGroundSurface), "WaterGroundSurface");
    assert_eq!(city_object_class_to_str(CityObjectClass::Waterway), "Waterway");
}

#[test]
fn multi_surface_is_looked_up_by_level_of_detail() {
    let s = surface("s", Some(multi("two", vec![])), Some(multi("three", vec![])));
    assert!(s.multi_surface_at(LevelOfDetail::Zero).is_none());
    assert!(s.multi_surface_at(LevelOfDetail::One).is_none());
    assert_eq!(s.multi_surface_at(LevelOfDetail::Two).unwrap().id, "two");
    assert_eq!(s.multi_surface_at(LevelOfDetail::Three).unwrap().id, "three");
}

#[test]
fn walk_goes_depth_first_through_walls_then_roofs_then_grounds() {
    let b = building();
    let found = collect(&b, LevelOfDetail::Two);
    let seen: Vec<(&str, &str, &str)> = found
        .iter()
        .map(|c| (city_object_class_to_str(c.semantic_class), c.surface_id.as_str(), c.multi_surface.id.as_str()))
        .collect();
    assert_eq!(
        seen,
        vec![
            ("WallSurface", "wall_1", "ms_w1"),
            ("WindowSurface", "win_1", "ms_win1"),
            ("DoorSurface", "door_2", "ms_door2"),
            ("DoorSurface", "door_3", "ms_door3"),
            ("RoofSurface", "roof_1", "ms_r1"),
            ("GroundSurface", "ground_1", "ms_g1"),
        ]
    );
    for c in &found {
        assert_eq!(c.level_of_detail, LevelOfDetail::Two);
    }
}

#[test]
fn walk_skips_surfaces_without_geometry_at_the_level() {
    let b = building();
    let found = collect(&b, LevelOfDetail::Three);
    assert_eq!(found.len(), 1);
    assert_eq!(found[0].surface_id, "win_2");
    assert_eq!(found[0].semantic_class, CityObjectClass::WindowSurface);
    assert_eq!(found[0].level_of_detail, LevelOfDetail::Three);
    assert!(collect(&b, LevelOfDetail::Zero).is_empty());
    assert!(collect(&b, LevelOfDetail::One).is_empty());
}

#[test]
fn origin_names_building_surface_multi_surface_and_polygon() {
    let b = building();
    let found = collect(&b, LevelOfDetail::Two);
    let ids = found[1].source_of(&b.id, &found[1].multi_surface.surface_member[0]);
    assert_eq!(ids.building_id, "B1");
    assert_eq!(ids.surface_id, "win_1");
    assert_eq!(ids.multi_surface_id, "ms_win1");
    assert_eq!(ids.polygon_id, "pwin1");
    assert_eq!(ids.semantic_class, CityObjectClass::WindowSurface);
}

#[test]
fn jobs_follow_the_walk_polygon_by_polygon() {
    let b = building();
    let jobs = triangulation_jobs(&b, LevelOfDetail::Two).unwrap();
    let polygons: Vec<&str> = jobs.iter().map(|j| j.source.polygon_id.as_str()).collect();
    assert_eq!(polygons, vec!["pw1a", "pw1b", "pwin1", "pdoor2", "pdoor3", "pr1", "pg1"]);
    assert_eq!(jobs[1].source.surface_id, "wall_1");
    assert_eq!(jobs[1].source.multi_surface_id, "ms_w1");
    assert_eq!(jobs[1].source.semantic_class, CityObjectClass::WallSurface);
    assert_eq!(jobs[1].input.points, ring(2.0, 3));
    assert_eq!(jobs[1].input.exterior_len, 3);
    assert!(jobs[1].input.hole_indices.is_empty());
    assert_eq!(jobs[4].input.points.len(), 5);
    assert!(triangulation_jobs(&b, LevelOfDetail::Zero).unwrap().is_empty());
}

#[test]
fn jobs_fail_on_a_polygon_that_is_too_large() {
    let huge = Polygon { id: String::from("huge"), exterior: vec![[0u8; 0]; 0x1_0000_0000], interior: vec![] };
    let roof = RoofSurface {
        thematic_surface: ThematicSurface {
            id: String::from("roof"),
            lod0_multi_surface: None,
            lod1_multi_surface: None,
            lod2_multi_surface: Some(MultiSurface { id: String::from("ms"), surface_member: vec![huge] }),
            lod3_multi_surface: None,
        },
    };
    let b = Building {
        id: String::from("B"),
        wall_surface: vec![],
        roof_surface: vec![roof],
        ground_surface: vec![],
        envelope: None,
    };
    assert!(matches!(triangulation_jobs(&b, LevelOfDetail::Two), Err(GeometryError::TooManyPoints)));
    assert!(triangulation_jobs(&b, LevelOfDetail::Three).unwrap().is_empty());
}

#[test]
fn points_of_a_polygon_are_those_of_its_outer_boundary() {
    let mut p = polygon("p", 1.0, 4);
    p.interior.push(ring(9.0, 3));
    assert_eq!(process_surface_member_sequential(&p), ring(1.0, 4));
}

#[test]
fn points_of_a_multi_surface_follow_its_polygons() {
    let ms = multi("ms", vec![polygon("a", 1.0, 3), polygon("b", 2.0, 0), polygon("c", 3.0, 2)]);
    let mut expected = ring(1.0, 3);
    expected.extend(ring(3.0, 2));
    assert_eq!(process_multi_surface_sequential(&ms), expected);
    assert!(process_multi_surface_sequential(&multi("empty", vec![])).is_empty());
}

#[test]
fn points_of_a_surface_come_from_the_second_level_of_detail() {
    let b = building();
    let mut wall_points = ring(1.0, 4);
    wall_points.extend(ring(2.0, 3));
    assert_eq!(process_wall_surface_sequential(&b.wall_surface[0]), wall_points);
    assert!(process_wall_surface_sequential(&b.wall_surface[1]).is_empty());
    assert_eq!(process_roof_surface_sequential(&b.roof_surface[0]), ring(7.0, 3));
    assert_eq!(process_ground_surface_sequential(&b.ground_surface[0]), ring(8.0, 4));
    assert!(process_ground_surface_sequential(&b.ground_surface[1]).is_empty());
    let only_lod3 = RoofSurface { thematic_surface: surface("r", None, Some(multi("m", vec![polygon("p", 1.0, 3)]))) };
    assert!(process_roof_surface_sequential(&only_lod3).is_empty());
}

#[test]
fn points_of_a_building_are_ground_then_roof_then_wall() {
    let b = building();
    let mut expected = ring(8.0, 4);
    expected.extend(ring(7.0, 3));
    expected.extend(ring(1.0, 4));
    expected.extend(ring(2.0, 3));
    assert_eq!(process_building_components_sequential(&b), expected);
}

#[test]
fn offset_comes_from_the_envelope_where_there_is_one() {
    let mut b = building();
    match offset_input(true, TranslationStrategy::EnvelopeCentre, &b) {
        OffsetInput::Corners { lower, upper } => {
            assert_eq!(lower, [0.0, 0.0, 0.0]);
            assert_eq!(upper, [10.0, 20.0, 30.0]);
            // minus the midpoint, applied to the midpoint, is the origin
            for axis in 0..3 {
                let offset = -((upper[axis] + lower[axis]) / 2.0);
                assert_eq!((upper[axis] + lower[axis]) / 2.0 + offset, 0.0);
            }
        }
        _ => panic!("the building has an envelope"),
    }
    assert!(matches!(offset_input(false, TranslationStrategy::EnvelopeCentre, &b), OffsetInput::Disabled));
    b.envelope = None;
    assert!(matches!(offset_input(true, TranslationStrategy::EnvelopeCentre, &b), OffsetInput::Undefined));
    assert!(matches!(offset_input(false, TranslationStrategy::EnvelopeCentre, &b), OffsetInput::Disabled));
}

#[test]
fn offset_comes_from_the_points_where_there_are_some() {
    let mut b = building();
    match offset_input(true, TranslationStrategy::MeanOfPoints, &b) {
        OffsetInput::Points { points } => assert_eq!(points.len(), 14),
        _ => panic!("the building has points"),
    }
    b.wall_surface.clear();
    b.roof_surface.clear();
    b.ground_surface.clear();
    assert!(matches!(offset_input(true, TranslationStrategy::MeanOfPoints, &b), OffsetInput::Undefined));
    assert!(matches!(offset_input(false, TranslationStrategy::MeanOfPoints, &b), OffsetInput::Disabled));
}
