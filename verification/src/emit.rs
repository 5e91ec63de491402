use vstd::prelude::*;

verus! {

/// Why the faces of a mesh cannot be written out.
#[derive(Clone, Copy, Debug, PartialEq, Eq, Structural)]
pub enum EmitError {
    /// The number of triangle indices is not a multiple of three.
    NotTriangles,
    /// A face of the decoration, moved behind the mesh's own vertices and
    /// counted from one, does not fit an unsigned 64-bit number.
    IndexOverflow,
}

/// The name of the file that holds one mesh.
pub open spec fn obj_name(building_id: Seq<char>, output_id: Seq<char>) -> Seq<char> {
    building_id + "___"@ + output_id + ".obj"@
}

/// The name of the file that holds the description of one mesh.
pub open spec fn metadata_name(building_id: Seq<char>, output_id: Seq<char>) -> Seq<char> {
    building_id + "___"@ + output_id + ".json"@
}

/// The faces of a mesh as they are written: one for every three indices,
/// each index counted from one.
pub open spec fn mesh_faces(indices: Seq<u32>) -> Seq<Seq<int>> {
    Seq::new(
        indices.len() / 3,
        |k: int| seq![indices[3 * k] + 1, indices[3 * k + 1] + 1, indices[3 * k + 2] + 1],
    )
}

/// The faces of a decoration as they are written behind a mesh of
/// `vertex_count` vertices: each index moved past the mesh's own vertices and
/// counted from one.
pub open spec fn decoration_faces(vertex_count: nat, faces: Seq<[u64; 3]>) -> Seq<Seq<int>> {
    Seq::new(
        faces.len(),
        |k: int|
            seq![
                faces[k][0] + vertex_count + 1,
                faces[k][1] + vertex_count + 1,
                faces[k][2] + vertex_count + 1,
            ],
    )
}

/// Whether every face of a decoration can be written behind `vertex_count`
/// vertices.
pub open spec fn decoration_fits(vertex_count: nat, faces: Seq<[u64; 3]>) -> bool {
    forall|k: int, c: int|
        0 <= k < faces.len() && 0 <= c < 3 ==> (#[trigger] faces[k][c]) + vertex_count + 1
            <= u64::MAX
}

/// Face records as lists of mathematical integers.
pub open spec fn face_values(records: Seq<[u64; 3]>) -> Seq<Seq<int>> {
    records.map_values(|record: [u64; 3]| record@.map_values(|index: u64| index as int))
}

/// The name of the file that holds one mesh: the building, three
/// underscores, the output's identifier, `.obj`.
pub fn obj_file_name(building_id: &str, output_id: &str) -> (name: String)
    ensures
        name@ == obj_name(building_id@, output_id@),
{
    let mut name = String::from_str(building_id);
    name.append("___");
    name.append(output_id);
    name.append(".obj");
    name
}

/// The name of the file that holds the description of one mesh: the
/// building, three underscores, the output's identifier, `.json`.
pub fn metadata_file_name(building_id: &str, output_id: &str) -> (name: String)
    ensures
        name@ == metadata_name(building_id@, output_id@),
{
    let mut name = String::from_str(building_id);
    name.append("___");
    name.append(output_id);
    name.append(".json");
    name
}

/// The face records of a mesh and its decoration, in the order in which they
/// are written: the mesh's own faces first, then those of the decoration,
/// whose vertices follow the `vertex_count` vertices of the mesh.
///
/// Fails where the indices do not come in triples, and otherwise where a face
/// of the decoration does not fit.
pub fn face_records(vertex_count: usize, triangle_indices: &Vec<u32>, decoration: &Vec<[u64; 3]>) -> (records:
    Result<Vec<[u64; 3]>, EmitError>)
    ensures
        match records {
            Ok(records) => {
                &&& triangle_indices@.len() % 3 == 0
                &&& decoration_fits(vertex_count as nat, decoration@)
                &&& face_values(records@) == mesh_faces(triangle_indices@) + decoration_faces(
                    vertex_count as nat,
                    decoration@,
                )
            },
            Err(EmitError::NotTriangles) => triangle_indices@.len() % 3 != 0,
            Err(EmitError::IndexOverflow) => {
                &&& triangle_indices@.len() % 3 == 0
                &&& !decoration_fits(vertex_count as nat, decoration@)
            },
        },
{
    if triangle_indices.len() % 3 != 0 {
        return Err(EmitError::NotTriangles);
    }
    let triangle_count = triangle_indices.len() / 3;
    let mut records: Vec<[u64; 3]> = Vec::new();
    let mut k: usize = 0;
    while k < triangle_count
        invariant
            k <= triangle_count,
            3 * triangle_count == triangle_indices@.len(),
            triangle_indices@.len() <= usize::MAX,
            records@.len() == k,
            forall|j: int|
                0 <= j < k ==> (#[trigger] face_values(records@)[j]) == mesh_faces(
                    triangle_indices@,
                )[j],
        decreases triangle_count - k,
    {
        let ghost before = records@;
        let record = [
            triangle_indices[3 * k] as u64 + 1,
            triangle_indices[3 * k + 1] as u64 + 1,
            triangle_indices[3 * k + 2] as u64 + 1,
        ];
        records.push(record);
        proof {
            assert(face_values(records@)[k as int] =~= mesh_faces(triangle_indices@)[k as int]);
            assert forall|j: int| 0 <= j < k + 1 implies (#[trigger] face_values(records@)[j])
                == mesh_faces(triangle_indices@)[j] by {
                if j < k {
                    assert(face_values(records@)[j] == face_values(before)[j]);
                }
            }
        }
        k += 1;
    }
    let base: u64 = vertex_count as u64;
    let mut d: usize = 0;
    while d < decoration.len()
        invariant
            d <= decoration@.len(),
            base == vertex_count,
            3 * triangle_count == triangle_indices@.len(),
            records@.len() == triangle_count + d,
            forall|j: int|
                0 <= j < triangle_count ==> (#[trigger] face_values(records@)[j]) == mesh_faces(
                    triangle_indices@,
                )[j],
            forall|j: int|
                0 <= j < d ==> (#[trigger] face_values(records@)[triangle_count + j])
                    == decoration_faces(vertex_count as nat, decoration@)[j],
            forall|j: int, c: int|
                0 <= j < d && 0 <= c < 3 ==> (#[trigger] decoration@[j][c]) + vertex_count + 1
                    <= u64::MAX,
        decreases decoration@.len() - d,
    {
        let face = decoration[d];
        if face[0] >= u64::MAX - base || face[1] >= u64::MAX - base || face[2] >= u64::MAX - base {
            proof {
                let c = if face[0] >= u64::MAX - base {
                    0int
                } else if face[1] >= u64::MAX - base {
                    1int
                } else {
                    2int
                };
                assert(decoration@[d as int][c] + vertex_count + 1 > u64::MAX);
            }
            return Err(EmitError::IndexOverflow);
        }
        let ghost before = records@;
        let record = [face[0] + base + 1, face[1] + base + 1, face[2] + base + 1];
        records.push(record);
        proof {
            assert(face_values(records@)[triangle_count + d] =~= decoration_faces(
                vertex_count as nat,
                decoration@,
            )[d as int]);
            assert forall|j: int| 0 <= j < triangle_count implies (#[trigger] face_values(
                records@,
            )[j]) == mesh_faces(triangle_indices@)[j] by {
                assert(face_values(records@)[j] == face_values(before)[j]);
            }
            assert forall|j: int| 0 <= j < d + 1 implies (#[trigger] face_values(
                records@,
            )[triangle_count + j]) == decoration_faces(vertex_count as nat, decoration@)[j] by {
                if j < d {
                    assert(face_values(records@)[triangle_count + j] == face_values(
                        before,
                    )[triangle_count + j]);
                }
            }
        }
        d += 1;
    }
    proof {
        let written = mesh_faces(triangle_indices@) + decoration_faces(
            vertex_count as nat,
            decoration@,
        );
        assert forall|i: int| 0 <= i < records@.len() implies face_values(records@)[i]
            == written[i] by {
            if i >= triangle_count {
                let j = i - triangle_count;
                assert(face_values(records@)[triangle_count + j] == decoration_faces(
                    vertex_count as nat,
                    decoration@,
                )[j]);
            }
        }
        assert(face_values(records@) =~= written);
    }
    Ok(records)
}

/// Reading a bounding box from a file at the given path is not supported:
/// the call has no effect, and a run that asks for an imported box goes on
/// without decoration.
pub fn import_bounding_box(path_to_bounding_box: &str) {
}

/// Reading a bounding box from a file is not supported: the call has no
/// effect.
pub fn import_bbox_from_file() {
}

} // verus!
