use vstd::prelude::*;

use crate::materials::MaterialKind;

verus! {

#[verifier::external_type_specification]
#[verifier::external_body]
pub struct ExStdRng(rand::rngs::StdRng);

/// Cells per side of the grid of small spheres in the demo scene.
pub const GRID_SIDE: u32 = 22;

/// Grid coordinate of the first cell on each axis.
pub const GRID_FIRST: i32 = -11;

/// One cell of the demo scene's grid: the sphere placed near `(a, b)` on the
/// ground plane and the kind of its material.
#[derive(Clone, Copy, Debug, PartialEq, Eq, Structural)]
pub struct SphereSlot {
    pub a: i32,
    pub b: i32,
    pub kind: MaterialKind,
}

/// The material picked by a uniform draw below 100: diffuse for 80 of the
/// values, metal for 15, glass for the other 5.
pub open spec fn kind_for_draw(draw: u32) -> MaterialKind {
    if draw < 80 {
        MaterialKind::Lambertian
    } else if draw < 95 {
        MaterialKind::Metal
    } else {
        MaterialKind::Dielectric
    }
}

/// Relies on rand's `Rng::gen_range` over `0..100` on the given generator: a
/// value below 100.
#[verifier::external_body]
fn draw_percent(rng: &mut rand::rngs::StdRng) -> (r: u32)
    ensures
        r < 100,
{
    rand::Rng::gen_range(rng, 0u32..100u32)
}

/// The material for a uniform draw below 100.
pub fn material_for_draw(draw: u32) -> (r: MaterialKind)
    ensures
        r == kind_for_draw(draw),
{
    if draw < 80 {
        MaterialKind::Lambertian
    } else if draw < 95 {
        MaterialKind::Metal
    } else {
        MaterialKind::Dielectric
    }
}

/// The grid of small spheres of the demo scene: every cell `(a, b)` with both
/// coordinates in `-11..11`, `a` major, each with a material drawn from `rng`.
pub fn plan_small_spheres(rng: &mut rand::rngs::StdRng) -> (r: Vec<SphereSlot>)
    ensures
        r@.len() == GRID_SIDE * GRID_SIDE,
        forall|k: int|
            0 <= k < r@.len() ==> (#[trigger] r@[k]).a == GRID_FIRST + k / GRID_SIDE as int && r@[k].b
                == GRID_FIRST + k % GRID_SIDE as int,
{
    let mut out: Vec<SphereSlot> = Vec::new();
    let n: u32 = GRID_SIDE * GRID_SIDE;
    let mut k: u32 = 0;
    while k < n
        invariant
            n == GRID_SIDE * GRID_SIDE,
            k <= n,
            out@.len() == k,
            forall|j: int|
                0 <= j < k ==> (#[trigger] out@[j]).a == GRID_FIRST + j / GRID_SIDE as int
                    && out@[j].b == GRID_FIRST + j % GRID_SIDE as int,
        decreases n - k,
    {
        let draw = draw_percent(rng);
        let slot = SphereSlot {
            a: GRID_FIRST + (k / GRID_SIDE) as i32,
            b: GRID_FIRST + (k % GRID_SIDE) as i32,
            kind: material_for_draw(draw),
        };
        out.push(slot);
        k = k + 1;
    }
    out
}

} // verus!
