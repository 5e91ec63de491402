use citymesh::fragment::{FragmentError, SourceIds, TriangulatedFragment};
use citymesh::model::Polygon;
use citymesh::rings::{flatten_rings, hole_indices, prepare, GeometryError};
use citymesh::semantic_class::CityObjectClass;
use earcut::utils3d::project3d_to_2d;
use earcut::Earcut;

type Point = [f64; 3];

fn source(polygon_id: &str) -> SourceIds {
    SourceIds {
        building_id: String::from("building"),
        surface_id: String::from("surface"),
        multi_surface_id: String::from("multi"),
        polygon_id: String::from(polygon_id),
        semantic_class: CityObjectClass::WallSurface,
    }
}

fn polygon(exterior: Vec<Point>, interior: Vec<Vec<Point>>) -> Polygon<Point> {
    Polygon { id: String::from("polygon"), exterior, interior }
}

fn square(x0: f64, y0: f64, side: f64) -> Vec<Point> {
    vec![[x0, y0, 0.0], [x0 + side, y0, 0.0], [x0 + side, y0 + side, 0.0], [x0, y0 + side, 0.0]]
}

fn triangulate(polygon: &Polygon<Point>) -> TriangulatedFragment<Point> {
    let input = prepare(polygon).unwrap();
    let mut projected: Vec<[f64; 2]> = Vec::new();
    let _ = project3d_to_2d(&input.points, input.exterior_len, &mut projected);
    let mut triangles: Vec<u32> = Vec::new();
    Earcut::new().earcut(projected.iter().copied(), &input.hole_indices, &mut triangles);
    TriangulatedFragment::new(input.points, triangles, source(&polygon.id)).unwrap()
}

fn area(fragment: &TriangulatedFragment<Point>) -> f64 {
    let points = fragment.vertices();
    let indices = fragment.triangle_indices();
    let mut total = 0.0;
    let mut k = 0;
    while k + 2 < indices.len() {
        let a = points[indices[k] as usize];
        let b = points[indices[k + 1] as usize];
        let c = points[indices[k + 2] as usize];
        let u = [b[0] - a[0], b[1] - a[1], b[2] - a[2]];
        let v = [c[0] - a[0], c[1] - a[1], c[2] - a[2]];
        let n = [u[1] * v[2] - u[2] * v[1], u[2] * v[0] - u[0] * v[2], u[0] * v[1] - u[1] * v[0]];
        total += 0.5 * (n[0] * n[0] + n[1] * n[1] + n[2] * n[2]).sqrt();
        k += 3;
    }
    total
}

#[test]
fn flatten_puts_exterior_first_then_each_hole() {
    let p = polygon(square(0.0, 0.0, 10.0), vec![square(1.0, 1.0, 1.0), square(5.0, 5.0, 2.0)]);
    let points = flatten_rings(&p);
    assert_eq!(points.len(), 12);
    assert_eq!(&points[0..4], &square(0.0, 0.0, 10.0)[..]);
    assert_eq!(&points[4..8], &square(1.0, 1.0, 1.0)[..]);
    assert_eq!(&points[8..12], &square(5.0, 5.0, 2.0)[..]);
}

#[test]
fn hole_indices_point_at_the_first_vertex_of_each_hole() {
    let p = polygon(
        square(0.0, 0.0, 10.0),
        vec![square(1.0, 1.0, 1.0), vec![[5.0, 5.0, 0.0], [6.0, 5.0, 0.0], [6.0, 6.0, 0.0]], square(7.0, 7.0, 1.0)],
    );
    assert_eq!(hole_indices(&p), Ok(vec![4, 8, 11]));
    let points = flatten_rings(&p);
    assert_eq!(points[4], [1.0, 1.0, 0.0]);
    assert_eq!(points[8], [5.0, 5.0, 0.0]);
    assert_eq!(points[11], [7.0, 7.0, 0.0]);
}

#[test]
fn hole_indices_of_a_polygon_without_holes_are_empty() {
    let p = polygon(square(0.0, 0.0, 10.0), vec![]);
    assert_eq!(hole_indices(&p), Ok(vec![]));
}

#[test]
fn an_empty_hole_shares_its_start_with_the_next_ring() {
    let p = polygon(square(0.0, 0.0, 10.0), vec![vec![], square(1.0, 1.0, 1.0), vec![]]);
    assert_eq!(hole_indices(&p), Ok(vec![4, 4, 8]));
    assert_eq!(flatten_rings(&p).len(), 8);
}

#[test]
fn prepare_gives_points_exterior_length_and_hole_starts() {
    let p = polygon(square(0.0, 0.0, 10.0), vec![square(4.0, 4.0, 2.0)]);
    let input = prepare(&p).unwrap();
    assert_eq!(input.points.len(), 8);
    assert_eq!(input.exterior_len, 4);
    assert_eq!(input.hole_indices, vec![4]);
    assert_eq!(input.points[4], [4.0, 4.0, 0.0]);
}

#[test]
fn a_polygon_with_more_points_than_an_index_counts_is_refused() {
    let exterior: Vec<[u8; 0]> = vec![[]; 0xffff_ffff];
    let p = Polygon { id: String::from("huge"), exterior, interior: vec![vec![[]; 1]] };
    assert_eq!(hole_indices(&p), Err(GeometryError::TooManyPoints));
    assert!(matches!(prepare(&p), Err(GeometryError::TooManyPoints)));
}

#[test]
fn a_polygon_with_exactly_the_most_points_is_accepted() {
    let exterior: Vec<[u8; 0]> = vec![[]; 0xffff_fffe];
    let p = Polygon { id: String::from("large"), exterior, interior: vec![vec![[]; 1]] };
    assert_eq!(hole_indices(&p), Ok(vec![0xffff_fffe]));
}

#[test]
fn simple_polygons_without_holes_give_two_triangles_less_than_points() {
    let triangle = polygon(vec![[0.0, 0.0, 0.0], [4.0, 0.0, 0.0], [0.0, 3.0, 0.0]], vec![]);
    let quad = polygon(square(0.0, 0.0, 10.0), vec![]);
    let ell = polygon(
        vec![
            [0.0, 0.0, 0.0],
            [4.0, 0.0, 0.0],
            [4.0, 1.0, 0.0],
            [1.0, 1.0, 0.0],
            [1.0, 4.0, 0.0],
            [0.0, 4.0, 0.0],
        ],
        vec![],
    );
    for p in [triangle, quad, ell] {
        let fragment = triangulate(&p);
        assert_eq!(fragment.triangle_count(), p.exterior.len() - 2);
        assert_eq!(fragment.triangle_indices().len(), 3 * (p.exterior.len() - 2));
        for index in fragment.triangle_indices() {
            assert!((*index as usize) < fragment.vertices().len());
        }
    }
}

#[test]
fn a_concave_polygon_keeps_its_area() {
    let ell = polygon(
        vec![
            [0.0, 0.0, 0.0],
            [4.0, 0.0, 0.0],
            [4.0, 1.0, 0.0],
            [1.0, 1.0, 0.0],
            [1.0, 4.0, 0.0],
            [0.0, 4.0, 0.0],
        ],
        vec![],
    );
    assert!((area(&triangulate(&ell)) - 7.0).abs() < 1e-9);
}

#[test]
fn square_with_centered_hole_has_area_of_ring() {
    let exterior = vec![[0.0, 0.0, 0.0], [10.0, 0.0, 0.0], [10.0, 10.0, 0.0], [0.0, 10.0, 0.0]];
    let interior = vec![[4.0, 4.0, 0.0], [6.0, 4.0, 0.0], [6.0, 6.0, 0.0], [4.0, 6.0, 0.0]];
    let p = polygon(exterior, vec![interior.clone()]);
    let fragment = triangulate(&p);
    assert_eq!(fragment.vertices().len(), 8);
    assert_eq!(&fragment.vertices()[4..8], &interior[..]);
    assert_eq!(fragment.triangle_count(), 8);
    for index in fragment.triangle_indices() {
        assert!(*index < 8);
    }
    assert!((area(&fragment) - 96.0).abs() < 1e-9);
}

#[test]
fn two_holes_are_left_out_of_the_area() {
    let p = polygon(square(0.0, 0.0, 10.0), vec![square(1.0, 1.0, 2.0), square(6.0, 6.0, 3.0)]);
    let fragment = triangulate(&p);
    assert_eq!(fragment.vertices().len(), 12);
    assert!((area(&fragment) - (100.0 - 4.0 - 9.0)).abs() < 1e-9);
}

#[test]
fn a_vertical_facade_with_a_window_keeps_its_area() {
    let exterior = vec![[2.0, 3.0, 0.0], [8.0, 11.0, 0.0], [8.0, 11.0, 5.0], [2.0, 3.0, 5.0]];
    let window = vec![[3.2, 4.6, 1.0], [4.4, 6.2, 1.0], [4.4, 6.2, 3.0], [3.2, 4.6, 3.0]];
    let fragment = triangulate(&polygon(exterior, vec![window]));
    assert!((area(&fragment) - (50.0 - 4.0)).abs() < 1e-9);
}

#[test]
fn a_degenerate_ring_gives_an_empty_but_valid_fragment() {
    let line = polygon(vec![[0.0, 0.0, 0.0], [1.0, 1.0, 1.0], [2.0, 2.0, 2.0]], vec![]);
    let fragment = triangulate(&line);
    assert_eq!(fragment.triangle_count(), 0);
    assert_eq!(fragment.vertices().len(), 3);
    let nothing = polygon(vec![], vec![]);
    let fragment = triangulate(&nothing);
    assert_eq!(fragment.triangle_count(), 0);
    assert_eq!(fragment.vertices().len(), 0);
}

#[test]
fn fragment_keeps_vertices_indices_and_origin() {
    let fragment =
        TriangulatedFragment::new(square(0.0, 0.0, 1.0), vec![0, 1, 2, 0, 2, 3], source("poly_g")).unwrap();
    assert_eq!(fragment.vertices(), &square(0.0, 0.0, 1.0));
    assert_eq!(fragment.triangle_indices(), &vec![0, 1, 2, 0, 2, 3]);
    assert_eq!(fragment.triangle_count(), 2);
    assert_eq!(fragment.source().polygon_id, "poly_g");
    assert_eq!(fragment.source().semantic_class, CityObjectClass::WallSurface);
    let (vertices, indices, origin) = fragment.into_parts();
    assert_eq!(vertices.len(), 4);
    assert_eq!(indices, vec![0, 1, 2, 0, 2, 3]);
    assert_eq!(origin.building_id, "building");
}

#[test]
fn fragment_refuses_indices_that_do_not_come_in_triples() {
    let made = TriangulatedFragment::new(square(0.0, 0.0, 1.0), vec![0, 1, 2, 3], source("p"));
    assert!(matches!(made, Err(FragmentError::NotTriangles)));
    let made = TriangulatedFragment::new(square(0.0, 0.0, 1.0), vec![0, 1, 9, 3], source("p"));
    assert!(matches!(made, Err(FragmentError::NotTriangles)));
}

#[test]
fn fragment_refuses_an_index_without_vertex() {
    let made = TriangulatedFragment::new(square(0.0, 0.0, 1.0), vec![0, 1, 4], source("p"));
    assert!(matches!(made, Err(FragmentError::IndexOutOfRange)));
    let made = TriangulatedFragment::new(Vec::<Point>::new(), vec![0, 0, 0], source("p"));
    assert!(matches!(made, Err(FragmentError::IndexOutOfRange)));
    let made = TriangulatedFragment::new(square(0.0, 0.0, 1.0), vec![3, 3, 3], source("p"));
    assert!(made.is_ok());
}
