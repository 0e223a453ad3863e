use vstd::prelude::*;

verus! {

/// The scattering models a surface can have.
#[derive(Clone, Copy, Debug, PartialEq, Eq, Structural)]
pub enum MaterialKind {
    /// Diffuse: scatters around the surface normal, never absorbs.
    Lambertian,
    /// Mirror-like: reflects, blurred by a fuzz factor; may absorb.
    Metal,
    /// Glass: reflects or refracts, absorbs nothing.
    Dielectric,
}

/// Which properties a material description in a `.mtl` file sets.
#[derive(Clone, Copy, Debug, PartialEq, Eq, Structural)]
pub struct MaterialFields {
    /// `Ni`, the optical density (index of refraction).
    pub has_optical_density: bool,
    /// `Ka`, the ambient color.
    pub has_ambient: bool,
    /// `Kd`, the diffuse color.
    pub has_diffuse: bool,
    /// `Ns`, the specular exponent, read as the fuzz of a metal.
    pub has_shininess: bool,
}

/// The model a material description stands for: glass when it has an optical
/// density; otherwise diffuse when it has ambient and diffuse colors; otherwise
/// metal when it has an ambient color and a shininess; otherwise none.
pub open spec fn kind_of_fields(m: MaterialFields) -> Option<MaterialKind> {
    if m.has_optical_density {
        Some(MaterialKind::Dielectric)
    } else if m.has_ambient && m.has_diffuse {
        Some(MaterialKind::Lambertian)
    } else if m.has_ambient && m.has_shininess {
        Some(MaterialKind::Metal)
    } else {
        None
    }
}

/// The model a material description stands for, if any.
pub fn extract_material(material: &MaterialFields) -> (r: Option<MaterialKind>)
    ensures
        r == kind_of_fields(*material),
{
    if material.has_optical_density {
        Some(MaterialKind::Dielectric)
    } else if material.has_ambient && material.has_diffuse {
        Some(MaterialKind::Lambertian)
    } else if material.has_ambient && material.has_shininess {
        Some(MaterialKind::Metal)
    } else {
        None
    }
}

/// The model of each material description, in order; material ids of meshes
/// index this table.
pub fn load_materials(materials: &Vec<MaterialFields>) -> (r: Vec<Option<MaterialKind>>)
    ensures
        r@.len() == materials@.len(),
        forall|i: int| 0 <= i < materials@.len() ==> r@[i] == kind_of_fields(#[trigger] materials@[i]),
{
    let mut out: Vec<Option<MaterialKind>> = Vec::new();
    let mut i: usize = 0;
    while i < materials.len()
        invariant
            i <= materials@.len(),
            out@.len() == i,
            forall|j: int| 0 <= j < i ==> out@[j] == kind_of_fields(#[trigger] materials@[j]),
        decreases materials@.len() - i,
    {
        out.push(extract_material(&materials[i]));
        i = i + 1;
    }
    out
}

} // verus!
