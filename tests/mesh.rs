use raytracing::materials::MaterialKind;
use raytracing::mesh::{load_objects, LoadError, MaterialRef, MeshInfo, TriangleRef};

fn mesh(n_positions: usize, indices: Vec<u32>, face_arities: Vec<u32>, material_id: Option<usize>) -> MeshInfo {
    MeshInfo { n_positions, indices, face_arities, material_id }
}

#[test]
fn meshes_become_triangles_in_order() {
    let materials = vec![Some(MaterialKind::Metal), None];
    let objects = vec![
        mesh(12, vec![0, 1, 2, 2, 3, 0], Vec::new(), Some(0)),
        mesh(9, vec![2, 1, 0], Vec::new(), Some(1)),
        mesh(9, vec![0, 1, 2], Vec::new(), None),
    ];
    let tris = load_objects(&materials, &objects).unwrap();
    assert_eq!(
        tris,
        vec![
            TriangleRef { mesh: 0, a: 0, b: 1, c: 2, material: MaterialRef::Loaded(0) },
            TriangleRef { mesh: 0, a: 2, b: 3, c: 0, material: MaterialRef::Loaded(0) },
            TriangleRef { mesh: 1, a: 2, b: 1, c: 0, material: MaterialRef::Fallback },
            TriangleRef { mesh: 2, a: 0, b: 1, c: 2, material: MaterialRef::Fallback },
        ]
    );
}

#[test]
fn non_triangle_meshes_are_skipped() {
    let objects = vec![mesh(7, vec![0, 1, 2, 3], vec![4], Some(9))];
    assert_eq!(load_objects(&Vec::new(), &objects), Ok(Vec::new()));
}

#[test]
fn empty_scene_has_no_triangles() {
    assert_eq!(load_objects(&Vec::new(), &Vec::new()), Ok(Vec::new()));
}

#[test]
fn ragged_positions_are_refused() {
    let objects = vec![mesh(9, vec![0, 1, 2], Vec::new(), None), mesh(10, vec![0, 1, 2], Vec::new(), None)];
    assert_eq!(load_objects(&Vec::new(), &objects), Err(LoadError::RaggedPositions { mesh: 1 }));
}

#[test]
fn unknown_material_is_refused() {
    let objects = vec![mesh(9, vec![0, 1, 2], Vec::new(), Some(1))];
    let materials = vec![Some(MaterialKind::Lambertian)];
    assert_eq!(load_objects(&materials, &objects), Err(LoadError::UnknownMaterial { mesh: 0 }));
}

#[test]
fn ragged_indices_are_refused() {
    let objects = vec![mesh(9, vec![0, 1, 2, 0], Vec::new(), None)];
    assert_eq!(load_objects(&Vec::new(), &objects), Err(LoadError::RaggedIndices { mesh: 0 }));
}

#[test]
fn missing_vertex_is_refused() {
    let objects = vec![mesh(9, vec![0, 1, 3], Vec::new(), None), mesh(8, vec![], Vec::new(), None)];
    assert_eq!(load_objects(&Vec::new(), &objects), Err(LoadError::VertexOutOfRange { mesh: 0 }));
}
