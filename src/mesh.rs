use vstd::prelude::*;

use crate::materials::MaterialKind;

verus! {

/// What the triangle builder reads of one mesh of a Wavefront `.obj` scene.
#[derive(Debug)]
pub struct MeshInfo {
    /// Number of vertex coordinates; three make one vertex.
    pub n_positions: usize,
    /// Vertex indices, three per triangle.
    pub indices: Vec<u32>,
    /// Vertices per face; empty when every face is a triangle.
    pub face_arities: Vec<u32>,
    /// Index into the material table, if the mesh names a material.
    pub material_id: Option<usize>,
}

/// The material a triangle is shaded with.
#[derive(Clone, Copy, Debug, PartialEq, Eq, Structural)]
pub enum MaterialRef {
    /// The entry of the material table at this index.
    Loaded(usize),
    /// The stand-in used when a mesh has no usable material.
    Fallback,
}

/// One triangle of a scene, as indices into its mesh's vertices.
#[derive(Clone, Copy, Debug, PartialEq, Eq, Structural)]
pub struct TriangleRef {
    pub mesh: usize,
    pub a: usize,
    pub b: usize,
    pub c: usize,
    pub material: MaterialRef,
}

/// Why a scene's meshes cannot be turned into triangles; `mesh` is the index
/// of the first mesh at fault.
#[derive(Clone, Copy, Debug, PartialEq, Eq, Structural)]
pub enum LoadError {
    /// The coordinate count is not a multiple of three.
    RaggedPositions { mesh: usize },
    /// The material id lies past the end of the material table.
    UnknownMaterial { mesh: usize },
    /// The index count is not a multiple of three.
    RaggedIndices { mesh: usize },
    /// An index names a vertex the mesh does not have.
    VertexOutOfRange { mesh: usize },
}

/// The material a mesh's triangles get: its table entry when it names one that
/// was understood, the fallback otherwise.
pub open spec fn material_ref_of(id: Option<usize>, materials: Seq<Option<MaterialKind>>) -> MaterialRef {
    match id {
        Some(i) => if i < materials.len() && materials[i as int] is Some {
            MaterialRef::Loaded(i)
        } else {
            MaterialRef::Fallback
        },
        None => MaterialRef::Fallback,
    }
}

/// What is wrong with mesh number `mesh`, if anything. A mesh whose faces are
/// not all triangles is skipped, so nothing can be wrong with it.
pub open spec fn mesh_error(mesh: usize, m: MeshInfo, materials: Seq<Option<MaterialKind>>) -> Option<LoadError> {
    if m.face_arities@.len() > 0 {
        None
    } else if m.n_positions % 3 != 0 {
        Some(LoadError::RaggedPositions { mesh })
    } else if m.material_id matches Some(i) && i >= materials.len() {
        Some(LoadError::UnknownMaterial { mesh })
    } else if m.indices@.len() % 3 != 0 {
        Some(LoadError::RaggedIndices { mesh })
    } else if exists|k: int| 0 <= k < m.indices@.len() && m.indices@[k] >= m.n_positions / 3 {
        Some(LoadError::VertexOutOfRange { mesh })
    } else {
        None
    }
}

/// The triangles of mesh number `mesh`: one per three indices, in order, or none
/// when its faces are not all triangles.
pub open spec fn mesh_triangles(mesh: usize, m: MeshInfo, materials: Seq<Option<MaterialKind>>) -> Seq<TriangleRef> {
    if m.face_arities@.len() > 0 {
        Seq::empty()
    } else {
        Seq::new(
            (m.indices@.len() / 3) as nat,
            |t: int|
                TriangleRef {
                    mesh,
                    a: m.indices@[3 * t] as usize,
                    b: m.indices@[3 * t + 1] as usize,
                    c: m.indices@[3 * t + 2] as usize,
                    material: material_ref_of(m.material_id, materials),
                },
        )
    }
}

/// The first fault among `objects`, in mesh order.
pub open spec fn first_error(objects: Seq<MeshInfo>, materials: Seq<Option<MaterialKind>>) -> Option<LoadError>
    decreases objects.len(),
{
    if objects.len() == 0 {
        None
    } else {
        match first_error(objects.drop_last(), materials) {
            Some(e) => Some(e),
            None => mesh_error((objects.len() - 1) as usize, objects.last(), materials),
        }
    }
}

/// The triangles of all `objects`, mesh after mesh.
pub open spec fn all_triangles(objects: Seq<MeshInfo>, materials: Seq<Option<MaterialKind>>) -> Seq<TriangleRef>
    decreases objects.len(),
{
    if objects.len() == 0 {
        Seq::empty()
    } else {
        all_triangles(objects.drop_last(), materials) + mesh_triangles(
            (objects.len() - 1) as usize,
            objects.last(),
            materials,
        )
    }
}

/// Once a prefix of the meshes holds a fault, every longer prefix reports that
/// same fault.
proof fn lemma_first_error_sticks(objects: Seq<MeshInfo>, materials: Seq<Option<MaterialKind>>, i: int, j: int)
    requires
        0 <= i <= j <= objects.len(),
        first_error(objects.subrange(0, i), materials) is Some,
    ensures
        first_error(objects.subrange(0, j), materials) == first_error(objects.subrange(0, i), materials),
    decreases j - i,
{
    if j > i {
        lemma_first_error_sticks(objects, materials, i, j - 1);
        assert(objects.subrange(0, j).drop_last() =~= objects.subrange(0, j - 1));
    }
}

/// The fault of one mesh, if any.
fn check_mesh(mesh: usize, m: &MeshInfo, materials: &Vec<Option<MaterialKind>>) -> (r: Option<LoadError>)
    ensures
        r == mesh_error(mesh, *m, materials@),
{
    if m.face_arities.len() > 0 {
        return None;
    }
    if m.n_positions % 3 != 0 {
        return Some(LoadError::RaggedPositions { mesh });
    }
    if let Some(i) = m.material_id {
        if i >= materials.len() {
            return Some(LoadError::UnknownMaterial { mesh });
        }
    }
    if m.indices.len() % 3 != 0 {
        return Some(LoadError::RaggedIndices { mesh });
    }
    let n_vertices = m.n_positions / 3;
    let mut k: usize = 0;
    while k < m.indices.len()
        invariant
            k <= m.indices@.len(),
            n_vertices == m.n_positions / 3,
            m.face_arities@.len() == 0,
            m.n_positions % 3 == 0,
            !(m.material_id matches Some(i) && i >= materials@.len()),
            m.indices@.len() % 3 == 0,
            forall|j: int| 0 <= j < k ==> m.indices@[j] < n_vertices,
        decreases m.indices@.len() - k,
    {
        if m.indices[k] as usize >= n_vertices {
            assert(m.indices@[k as int] >= m.n_positions / 3);
            return Some(LoadError::VertexOutOfRange { mesh });
        }
        k = k + 1;
    }
    None
}

/// Appends the triangles of one sound mesh.
fn push_mesh_triangles(
    out: &mut Vec<TriangleRef>,
    mesh: usize,
    m: &MeshInfo,
    materials: &Vec<Option<MaterialKind>>,
)
    requires
        mesh_error(mesh, *m, materials@) is None,
    ensures
        final(out)@ == old(out)@ + mesh_triangles(mesh, *m, materials@),
{
    let ghost tris = mesh_triangles(mesh, *m, materials@);
    if m.face_arities.len() > 0 {
        assert(old(out)@ + tris =~= old(out)@);
        return;
    }
    let material = match m.material_id {
        Some(i) => match materials[i] {
            Some(_) => MaterialRef::Loaded(i),
            None => MaterialRef::Fallback,
        },
        None => MaterialRef::Fallback,
    };
    let n = m.indices.len() / 3;
    let mut t: usize = 0;
    while t < n
        invariant
            n == m.indices@.len() / 3,
            t <= n,
            tris == mesh_triangles(mesh, *m, materials@),
            tris.len() == n,
            material == material_ref_of(m.material_id, materials@),
            out@ == old(out)@ + tris.subrange(0, t as int),
        decreases n - t,
    {
        let len = m.indices.len();
        assert(3 * t + 2 < len) by (nonlinear_arith)
            requires
                t < n,
                n == len / 3,
        ;
        let tri = TriangleRef {
            mesh,
            a: m.indices[3 * t] as usize,
            b: m.indices[3 * t + 1] as usize,
            c: m.indices[3 * t + 2] as usize,
            material,
        };
        out.push(tri);
        t = t + 1;
        assert(tris.subrange(0, t as int) =~= tris.subrange(0, t - 1) + seq![tri]);
    }
    assert(tris.subrange(0, n as int) =~= tris);
}

/// Turns the meshes of a scene into its triangles, mesh after mesh, or reports
/// the first mesh at fault. Meshes whose faces are not all triangles are
/// skipped.
pub fn load_objects(materials: &Vec<Option<MaterialKind>>, objects: &Vec<MeshInfo>) -> (r: Result<
    Vec<TriangleRef>,
    LoadError,
>)
    ensures
        r is Ok <==> first_error(objects@, materials@) is None,
        r matches Ok(tris) ==> tris@ == all_triangles(objects@, materials@),
        r matches Err(e) ==> first_error(objects@, materials@) == Some(e),
{
    let mut out: Vec<TriangleRef> = Vec::new();
    let mut i: usize = 0;
    while i < objects.len()
        invariant
            i <= objects@.len(),
            first_error(objects@.subrange(0, i as int), materials@) is None,
            out@ == all_triangles(objects@.subrange(0, i as int), materials@),
        decreases objects@.len() - i,
    {
        let ghost before = objects@.subrange(0, i as int);
        let ghost after = objects@.subrange(0, i + 1);
        assert(after.drop_last() =~= before);
        assert(after.last() == objects@[i as int]);
        if let Some(e) = check_mesh(i, &objects[i], materials) {
            proof {
                lemma_first_error_sticks(objects@, materials@, i + 1, objects@.len() as int);
                assert(objects@.subrange(0, objects@.len() as int) =~= objects@);
            }
            return Err(e);
        }
        push_mesh_triangles(&mut out, i, &objects[i], materials);
        i = i + 1;
    }
    assert(objects@.subrange(0, objects@.len() as int) =~= objects@);
    Ok(out)
}

} // verus!
