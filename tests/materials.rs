use raytracing::materials::{extract_material, load_materials, MaterialFields, MaterialKind};

fn fields(optical: bool, ambient: bool, diffuse: bool, shininess: bool) -> MaterialFields {
    MaterialFields {
        has_optical_density: optical,
        has_ambient: ambient,
        has_diffuse: diffuse,
        has_shininess: shininess,
    }
}

#[test]
fn optical_density_makes_glass() {
    assert_eq!(extract_material(&fields(true, true, true, true)), Some(MaterialKind::Dielectric));
}

#[test]
fn ambient_and_diffuse_make_lambertian() {
    assert_eq!(extract_material(&fields(false, true, true, true)), Some(MaterialKind::Lambertian));
}

#[test]
fn ambient_and_shininess_make_metal() {
    assert_eq!(extract_material(&fields(false, true, false, true)), Some(MaterialKind::Metal));
}

#[test]
fn too_little_makes_nothing() {
    assert_eq!(extract_material(&fields(false, false, true, true)), None);
    assert_eq!(extract_material(&fields(false, true, false, false)), None);
}

#[test]
fn table_keeps_order() {
    let table = load_materials(&vec![fields(false, true, false, true), fields(false, false, false, false), fields(true, false, false, false)]);
    assert_eq!(table, vec![Some(MaterialKind::Metal), None, Some(MaterialKind::Dielectric)]);
}
