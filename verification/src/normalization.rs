//! Screen-space size normalization: rescaling a part every frame so it
//! covers a constant number of pixels regardless of camera distance.
//!
//! Projecting world points to pixel coordinates belongs to the camera; this
//! module takes the two projected points — the part's origin and a point
//! `size_in_world` along its local X — and derives the required scale.

use vstd::prelude::*;
use crate::num::{div_t, div_trunc, isqrt_u128, lemma_mul_bound, sqrt_floor};
use crate::transform::Transform;
use crate::vec3::{s_in_range, Vec3, WideVec3, MAX_COORD};

verus! {

/// Schedules the per-frame normalization pass.
#[derive(Clone, Copy, Debug, Default)]
pub struct Ui3dNormalization;

/// A position in pixel coordinates on the viewport.
#[derive(Clone, Copy, Debug, PartialEq, Eq, Structural)]
pub struct Vec2 {
    pub x: i64,
    pub y: i64,
}

impl Vec2 {
    pub open spec fn in_range(self) -> bool {
        -MAX_COORD <= self.x <= MAX_COORD && -MAX_COORD <= self.y <= MAX_COORD
    }

    pub fn new(x: i64, y: i64) -> (r: Vec2)
        ensures
            r.x == x,
            r.y == y,
    {
        Vec2 { x, y }
    }
}

/// The pixel distance between two projected points, rounded down.
pub open spec fn s_pixel_distance(a: Vec2, b: Vec2) -> int {
    sqrt_floor((b.x - a.x) * (b.x - a.x) + (b.y - a.y) * (b.y - a.y))
}

/// Marker struct that marks entities with meshes that should be scaled
/// relative to the camera.
#[derive(Clone, Copy, Debug, PartialEq, Eq, Structural)]
pub struct Normalize3d {
    /// Length of the object in world space units (fixed-point, `ONE` per
    /// unit).
    pub size_in_world: i64,
    /// Desired length of the object in pixels.
    pub desired_pixel_size: i64,
}

impl Normalize3d {
    pub open spec fn in_range(self) -> bool {
        0 <= self.size_in_world <= MAX_COORD && 0 <= self.desired_pixel_size <= MAX_COORD
    }

    pub fn new(size_in_world: i64, desired_pixel_size: i64) -> (r: Normalize3d)
        ensures
            r.size_in_world == size_in_world,
            r.desired_pixel_size == desired_pixel_size,
    {
        Normalize3d { size_in_world, desired_pixel_size }
    }
}

/// The scale a normalized part needs: each component of the part's current
/// world scale, multiplied by the desired pixel size over the actual pixel
/// size.
pub open spec fn s_normalized_scale(scale: Vec3, desired: int, actual: int) -> (int, int, int)
    recommends
        actual > 0,
{
    (
        div_t(scale.s().0 * desired, actual),
        div_t(scale.s().1 * desired, actual),
        div_t(scale.s().2 * desired, actual),
    )
}

/// Rescale one normalized part so that it covers `desired_pixel_size`
/// pixels on screen.
///
/// `pixel_root` and `pixel_end` are the camera's projections of the part's
/// origin and of a point `size_in_world` along its local X — both measured
/// under the part's world scale, so the rescale is seeded from the world
/// scale too. Either projection is `None` when the point is behind the
/// camera, and the part is then left alone for the frame rather than given
/// a degenerate scale — as it also is when the two projections coincide (a
/// zero pixel size) or the required scale leaves the representable range.
/// On success the part's world transform is re-derived from its local one.
pub fn normalize(
    normalize: &Normalize3d,
    transform: &mut Transform,
    global_transform: &mut Transform,
    pixel_root: Option<Vec2>,
    pixel_end: Option<Vec2>,
)
    requires
        normalize.in_range(),
        old(global_transform).in_range(),
        pixel_root matches Some(p) ==> p.in_range(),
        pixel_end matches Some(p) ==> p.in_range(),
    ensures
        pixel_root is Some && pixel_end is Some && s_pixel_distance(pixel_root->0, pixel_end->0)
            > 0 && s_in_range(
            s_normalized_scale(
                old(global_transform).scale,
                normalize.desired_pixel_size as int,
                s_pixel_distance(pixel_root->0, pixel_end->0),
            ),
        ) ==> {
            &&& final(transform).scale.s() == s_normalized_scale(
                old(global_transform).scale,
                normalize.desired_pixel_size as int,
                s_pixel_distance(pixel_root->0, pixel_end->0),
            )
            &&& final(transform).translation == old(transform).translation
            &&& final(transform).rotation == old(transform).rotation
            &&& *final(global_transform) == *final(transform)
        },
        !(pixel_root is Some && pixel_end is Some && s_pixel_distance(
            pixel_root->0,
            pixel_end->0,
        ) > 0 && s_in_range(
            s_normalized_scale(
                old(global_transform).scale,
                normalize.desired_pixel_size as int,
                s_pixel_distance(pixel_root->0, pixel_end->0),
            ),
        )) ==> *final(transform) == *old(transform) && *final(global_transform) == *old(
            global_transform,
        ),
{
    let root = match pixel_root {
        Some(p) => p,
        None => {
            return ;
        },
    };
    let end = match pixel_end {
        Some(p) => p,
        None => {
            return ;
        },
    };
    let dx: i128 = end.x as i128 - root.x as i128;
    let dy: i128 = end.y as i128 - root.y as i128;
    proof {
        lemma_mul_bound(dx as int, dx as int, 0x400000, 0x400000);
        lemma_mul_bound(dy as int, dy as int, 0x400000, 0x400000);
        assert(dx * dx >= 0 && dy * dy >= 0) by (nonlinear_arith);
    }
    let sq: u128 = (dx * dx + dy * dy) as u128;
    let actual: u128 = isqrt_u128(sq);
    if actual == 0 {
        proof {
            crate::num::lemma_sqrt_floor_unique(0, sq as int);
        }
        return ;
    }
    proof {
        crate::num::lemma_sqrt_le(actual as int, sq as int, 0x800000);
        lemma_mul_bound(
            global_transform.scale.x as int,
            normalize.desired_pixel_size as int,
            0x200000,
            0x200000,
        );
        lemma_mul_bound(
            global_transform.scale.y as int,
            normalize.desired_pixel_size as int,
            0x200000,
            0x200000,
        );
        lemma_mul_bound(
            global_transform.scale.z as int,
            normalize.desired_pixel_size as int,
            0x200000,
            0x200000,
        );
    }
    let w = WideVec3 {
        x: div_trunc(
            (global_transform.scale.x as i128) * (normalize.desired_pixel_size as i128),
            actual as i128,
        ),
        y: div_trunc(
            (global_transform.scale.y as i128) * (normalize.desired_pixel_size as i128),
            actual as i128,
        ),
        z: div_trunc(
            (global_transform.scale.z as i128) * (normalize.desired_pixel_size as i128),
            actual as i128,
        ),
    };
    if let Some(scale) = w.narrow() {
        transform.scale = scale;
        *global_transform = *transform;
    }
}

} // verus!
