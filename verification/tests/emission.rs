use citymesh::emit::{
    face_records, import_bbox_from_file, import_bounding_box, metadata_file_name, obj_file_name, EmitError,
};

#[test]
fn file_names_join_building_and_output_with_three_underscores() {
    assert_eq!(obj_file_name("B1", "poly_a"), "B1___poly_a.obj");
    assert_eq!(metadata_file_name("B1", "poly_a"), "B1___poly_a.json");
    assert_eq!(obj_file_name("", ""), "___.obj");
    assert_eq!(obj_file_name("B1", "B1_WallSurface.obj"), "B1___B1_WallSurface.obj.obj");
}

#[test]
fn faces_count_from_one() {
    assert_eq!(face_records(4, &vec![0, 1, 2, 0, 2, 3], &vec![]), Ok(vec![[1, 2, 3], [1, 3, 4]]));
    assert_eq!(face_records(0, &vec![], &vec![]), Ok(vec![]));
    assert_eq!(
        face_records(3, &vec![0xffff_ffff, 0, 1], &vec![]),
        Ok(vec![[0x1_0000_0000, 1, 2]])
    );
}

#[test]
fn decoration_faces_follow_the_mesh_and_are_moved_past_its_vertices() {
    let decoration = vec![[8, 0, 9], [8, 0, 10]];
    assert_eq!(
        face_records(4, &vec![0, 1, 2, 0, 2, 3], &decoration),
        Ok(vec![[1, 2, 3], [1, 3, 4], [13, 5, 14], [13, 5, 15]])
    );
    assert_eq!(face_records(0, &vec![], &decoration), Ok(vec![[9, 1, 10], [9, 1, 11]]));
}

#[test]
fn indices_that_do_not_come_in_triples_are_refused() {
    assert_eq!(face_records(4, &vec![0, 1, 2, 3], &vec![]), Err(EmitError::NotTriangles));
    assert_eq!(face_records(4, &vec![0], &vec![[u64::MAX, 0, 0]]), Err(EmitError::NotTriangles));
}

#[test]
fn a_decoration_face_that_does_not_fit_is_refused() {
    assert_eq!(face_records(4, &vec![0, 1, 2], &vec![[0, 1, u64::MAX - 4]]), Err(EmitError::IndexOverflow));
    assert_eq!(face_records(4, &vec![0, 1, 2], &vec![[0, u64::MAX, 0]]), Err(EmitError::IndexOverflow));
    assert_eq!(
        face_records(4, &vec![0, 1, 2], &vec![[0, 1, u64::MAX - 5]]),
        Ok(vec![[1, 2, 3], [5, 6, u64::MAX]])
    );
}

#[test]
fn importing_a_bounding_box_does_nothing() {
    import_bounding_box("bbox.obj");
    import_bbox_from_file();
}
