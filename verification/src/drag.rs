//! The drag math: turning the current pick ray into this frame's
//! translation or rotation and applying it to every selected entity's
//! snapshot.
//!
//! The discipline throughout is *project, don't accumulate*: each frame's
//! delta is derived from the frozen drag anchor and the current ray alone,
//! and applied to the transform snapshots taken when the drag began, so no
//! error can build up across frames and returning the cursor to its anchor
//! restores every entity exactly.

use vstd::prelude::*;
use crate::gizmo::{GizmoTarget, HoverState, InitialTransform, TransformGizmo};
use crate::interaction::TransformGizmoInteraction;
use crate::num::{div_t, div_trunc, lemma_mul_bound};
use crate::quat::{q_arc, q_mul, q_norm_sq, q_reduce, q_rotate, rotation_arc, Q4, Quat};
use crate::transform::Transform;
use crate::vec3::{cross_wide, s_bounded, s_cross, s_dot, s_in_range, s_sub, s_add, V3, Vec3,
    WideVec3, MAX_COORD};

verus! {

/// A world-space pick ray: an origin and a direction.
#[derive(Clone, Copy, Debug, PartialEq, Eq, Structural)]
pub struct Ray {
    pub origin: Vec3,
    pub direction: Vec3,
}

impl Ray {
    pub open spec fn in_range(self) -> bool {
        self.origin.in_range() && self.direction.in_range()
    }

    pub fn new(origin: Vec3, direction: Vec3) -> (r: Ray)
        ensures
            r.origin == origin,
            r.direction == direction,
    {
        Ray { origin, direction }
    }
}

/// The plane normal used for a constrained axis drag: a plane that contains
/// the axis and faces the ray as squarely as possible,
/// `axis x (direction x axis)`.
pub open spec fn s_axis_normal(a: V3, d: V3) -> V3 {
    s_cross(a, s_cross(d, a))
}

/// Whether the ray `o + t d` (a half-line: `t >= 0`) meets the plane
/// through `p` with normal `n`: the ray must not be parallel to the plane,
/// and the hit parameter must not be behind the ray's origin.
pub open spec fn s_ray_hits(n: V3, p: V3, o: V3, d: V3) -> bool {
    let den = s_dot(n, d);
    let num = s_dot(n, s_sub(p, o));
    den != 0 && (if den < 0 {
        -num
    } else {
        num
    }) >= 0
}

/// Where the ray `o + t d` meets the plane through `p` with normal `n`,
/// rounded componentwise: `o + d * (n . (p - o)) / (n . d)`.
pub open spec fn s_ray_plane(n: V3, p: V3, o: V3, d: V3) -> V3
    recommends
        s_ray_hits(n, p, o, d),
{
    let den = s_dot(n, d);
    let num = s_dot(n, s_sub(p, o));
    let nn = if den < 0 {
        -num
    } else {
        num
    };
    let dd = if den < 0 {
        -den
    } else {
        den
    };
    (
        o.0 + div_t(d.0 * nn, dd),
        o.1 + div_t(d.1 * nn, dd),
        o.2 + div_t(d.2 * nn, dd),
    )
}

/// The 1D translation of an axis drag, as a vector along the axis: the
/// projection of the current cursor vector onto the axis minus the
/// projection of the anchor cursor vector, each rounded the same way — so
/// equal cursor vectors give a delta of exactly zero.
pub open spec fn s_axis_delta(a: V3, v: V3, v0: V3) -> V3
    recommends
        s_dot(a, a) > 0,
{
    let aa = s_dot(a, a);
    (
        div_t(a.0 * s_dot(v, a), aa) - div_t(a.0 * s_dot(v0, a), aa),
        div_t(a.1 * s_dot(v, a), aa) - div_t(a.1 * s_dot(v0, a), aa),
        div_t(a.2 * s_dot(v, a), aa) - div_t(a.2 * s_dot(v0, a), aa),
    )
}

/// What one frame of an active drag does, before it is applied: nothing
/// (a geometric degeneracy), establishing the anchor, a uniform
/// translation, or a rotation.
pub enum DragOutcome {
    Skip,
    Arm(V3),
    Translate(V3),
    Rotate(Q4),
}

/// The outcome of one drag frame for the active interaction, the frozen
/// origin `g`, the current ray, and the anchor established so far.
pub open spec fn s_drag_outcome(
    i: TransformGizmoInteraction,
    g: V3,
    ray: Ray,
    drag_start: Option<Vec3>,
) -> DragOutcome {
    let o = ray.origin.s();
    let d = ray.direction.s();
    match i {
        TransformGizmoInteraction::TranslateAxis { original, axis } => {
            let a = axis.s();
            let n = s_axis_normal(a, d);
            if !s_ray_hits(n, g, o, d) {
                DragOutcome::Skip
            } else {
                let p = s_ray_plane(n, g, o, d);
                if !s_in_range(p) {
                    DragOutcome::Skip
                } else {
                    match drag_start {
                        None => DragOutcome::Arm(p),
                        Some(p0) => if s_dot(a, a) == 0 {
                            DragOutcome::Skip
                        } else {
                            DragOutcome::Translate(
                                s_axis_delta(a, s_sub(p, g), s_sub(p0.s(), g)),
                            )
                        },
                    }
                }
            }
        },
        TransformGizmoInteraction::TranslatePlane { original, normal } => {
            let n = normal.s();
            if !s_ray_hits(n, g, o, d) {
                DragOutcome::Skip
            } else {
                let p = s_ray_plane(n, g, o, d);
                if !s_in_range(p) {
                    DragOutcome::Skip
                } else {
                    match drag_start {
                        None => DragOutcome::Arm(p),
                        Some(p0) => DragOutcome::Translate(s_sub(p, p0.s())),
                    }
                }
            }
        },
        TransformGizmoInteraction::RotateAxis { original, axis } => {
            let a = axis.s();
            if !s_ray_hits(a, g, o, d) {
                DragOutcome::Skip
            } else {
                let p = s_ray_plane(a, g, o, d);
                if !s_in_range(p) {
                    DragOutcome::Skip
                } else {
                    let u = s_sub(p, g);
                    match drag_start {
                        None => DragOutcome::Arm(u),
                        Some(u0) => if q_arc(u0.s(), u) == (0int, 0int, 0int, 0int) {
                            DragOutcome::Skip
                        } else {
                            DragOutcome::Rotate(q_arc(u0.s(), u))
                        },
                    }
                }
            }
        },
        TransformGizmoInteraction::ScaleAxis { original, axis } => DragOutcome::Skip,
    }
}

/// What a target becomes under a uniform translation `delta`: a selected
/// entity with a snapshot gets the snapshot's translation plus the delta
/// (when that stays in range — otherwise it is left alone this frame), and
/// the snapshot's rotation and scale; anything else is untouched.
pub open spec fn s_translated_target(t: GizmoTarget, delta: V3) -> GizmoTarget {
    if t.is_selected && t.initial_transform is Some {
        let it = t.initial_transform->0;
        let nt = s_add(it.transform.translation.s(), delta);
        if s_in_range(nt) {
            GizmoTarget {
                transform: Transform {
                    translation: Vec3 { x: nt.0 as i64, y: nt.1 as i64, z: nt.2 as i64 },
                    rotation: it.transform.rotation,
                    scale: it.transform.scale,
                },
                ..t
            }
        } else {
            t
        }
    } else {
        t
    }
}

/// The pivot offset of a snapshot carried to world space: the snapshot's
/// rotation applied to the per-entity rotation offset.
pub open spec fn s_world_offset(it: InitialTransform) -> V3 {
    q_rotate(it.transform.rotation.s(), it.rotation_offset.s())
}

/// The translation a rotation frame gives an entity: the snapshot's
/// translation, corrected so the rotation pivots about the offset point:
/// `t0 + (offset_world - q offset_world)`.
pub open spec fn s_rotated_translation(it: InitialTransform, q: Q4) -> V3 {
    let offw = s_world_offset(it);
    s_add(it.transform.translation.s(), s_sub(offw, q_rotate(q, offw)))
}

/// Whether every step of applying rotation `q` to this snapshot stays
/// representable; when not, the entity is left alone for the frame.
pub open spec fn s_rotate_ok(it: InitialTransform, q: Q4) -> bool {
    &&& q_norm_sq(it.transform.rotation.s()) > 0
    &&& s_in_range(s_world_offset(it))
    &&& q_norm_sq(q) > 0
    &&& s_in_range(q_rotate(q, s_world_offset(it)))
    &&& s_in_range(s_rotated_translation(it, q))
}

/// How a target before a rotation frame relates to the target after it: a
/// selected entity with a snapshot (whose steps all stay representable)
/// gets the pivot-corrected translation, the snapshot's scale, and the
/// snapshot's rotation composed under the frame's rotation (halved into the
/// storage bound, `q_reduce`); anything else is untouched.
pub open spec fn s_rotated_rel(t: GizmoTarget, r: GizmoTarget, q: Q4) -> bool {
    &&& (t.is_selected && t.initial_transform is Some && s_rotate_ok(t.initial_transform->0, q)
        ==> {
        let it = t.initial_transform->0;
        &&& r.is_selected == t.is_selected
        &&& r.global_transform == t.global_transform
        &&& r.rotation_origin_offset == t.rotation_origin_offset
        &&& r.initial_transform == t.initial_transform
        &&& r.transform.translation.s() == s_rotated_translation(it, q)
        &&& r.transform.scale == it.transform.scale
        &&& r.transform.rotation.s() == q_reduce(q_mul(q, it.transform.rotation.s()))
    })
    &&& (!(t.is_selected && t.initial_transform is Some && s_rotate_ok(t.initial_transform->0, q))
        ==> r == t)
}

/// Apply a uniform translation to one target, exactly as
/// `s_translated_target` describes.
fn apply_translation_target(t: GizmoTarget, dx: i128, dy: i128, dz: i128) -> (r: GizmoTarget)
    requires
        t.in_range(),
        -0x100000000000000000 <= dx <= 0x100000000000000000,
        -0x100000000000000000 <= dy <= 0x100000000000000000,
        -0x100000000000000000 <= dz <= 0x100000000000000000,
    ensures
        r == s_translated_target(t, (dx as int, dy as int, dz as int)),
        r.in_range(),
{
    if !t.is_selected {
        return t;
    }
    let it = match t.initial_transform {
        Some(it) => it,
        None => {
            return t;
        },
    };
    let nt = WideVec3 {
        x: it.transform.translation.x as i128 + dx,
        y: it.transform.translation.y as i128 + dy,
        z: it.transform.translation.z as i128 + dz,
    };
    match nt.narrow() {
        Some(v) => GizmoTarget {
            transform: Transform {
                translation: v,
                rotation: it.transform.rotation,
                scale: it.transform.scale,
            },
            ..t
        },
        None => t,
    }
}

/// Apply a rotation frame to one target: rotate about the axis through the
/// frozen origin, pivoting each entity about its own offset point, with the
/// snapshot's rotation composed under the frame's rotation.
fn apply_rotation_target(t: GizmoTarget, qd: Quat) -> (r: GizmoTarget)
    requires
        t.in_range(),
        qd.in_range(),
    ensures
        s_rotated_rel(t, r, qd.s()),
        r.in_range(),
{
    if !t.is_selected {
        return t;
    }
    let it = match t.initial_transform {
        Some(it) => it,
        None => {
            return t;
        },
    };
    let offw = match it.transform.rotation.rotate(it.rotation_offset) {
        Some(v) => v,
        None => {
            return t;
        },
    };
    let offr = match qd.rotate(offw) {
        Some(v) => v,
        None => {
            return t;
        },
    };
    let nt = WideVec3 {
        x: it.transform.translation.x as i128 + offw.x as i128 - offr.x as i128,
        y: it.transform.translation.y as i128 + offw.y as i128 - offr.y as i128,
        z: it.transform.translation.z as i128 + offw.z as i128 - offr.z as i128,
    };
    let translation = match nt.narrow() {
        Some(v) => v,
        None => {
            return t;
        },
    };
    let rotation = qd.mul_q(it.transform.rotation);
    GizmoTarget {
        transform: Transform { translation, rotation, scale: it.transform.scale },
        ..t
    }
}

/// Cross product of an in-range vector with an intermediate one.
fn cross_vec_wide(a: Vec3, b: &WideVec3) -> (r: WideVec3)
    requires
        a.in_range(),
        s_bounded(b.s(), 0x100000000000),
    ensures
        r.s() == s_cross(a.s(), b.s()),
        s_bounded(r.s(), 0x40000000000000000),
{
    proof {
        lemma_mul_bound(a.y as int, b.z as int, 0x200000, 0x100000000000);
        lemma_mul_bound(a.z as int, b.y as int, 0x200000, 0x100000000000);
        lemma_mul_bound(a.z as int, b.x as int, 0x200000, 0x100000000000);
        lemma_mul_bound(a.x as int, b.z as int, 0x200000, 0x100000000000);
        lemma_mul_bound(a.x as int, b.y as int, 0x200000, 0x100000000000);
        lemma_mul_bound(a.y as int, b.x as int, 0x200000, 0x100000000000);
    }
    WideVec3 {
        x: (a.y as i128) * b.z - (a.z as i128) * b.y,
        y: (a.z as i128) * b.x - (a.x as i128) * b.z,
        z: (a.x as i128) * b.y - (a.y as i128) * b.x,
    }
}

/// Intersect the pick ray (a half-line) with the plane through `p` with
/// normal `n`; `None` when the ray is parallel to the plane, the plane lies
/// behind the ray's origin, or the hit point leaves the coordinate range
/// (a transient degeneracy: the frame is skipped).
fn ray_plane(n: &WideVec3, p: Vec3, ray: Ray) -> (r: Option<Vec3>)
    requires
        s_bounded(n.s(), 0x40000000000000000),
        p.in_range(),
        ray.in_range(),
    ensures
        !s_ray_hits(n.s(), p.s(), ray.origin.s(), ray.direction.s()) ==> r is None,
        s_ray_hits(n.s(), p.s(), ray.origin.s(), ray.direction.s()) && s_in_range(
            s_ray_plane(n.s(), p.s(), ray.origin.s(), ray.direction.s()),
        ) ==> (r matches Some(v) && v.s() == s_ray_plane(
            n.s(),
            p.s(),
            ray.origin.s(),
            ray.direction.s(),
        ) && v.in_range()),
        s_ray_hits(n.s(), p.s(), ray.origin.s(), ray.direction.s()) && !s_in_range(
            s_ray_plane(n.s(), p.s(), ray.origin.s(), ray.direction.s()),
        ) ==> r is None,
{
    let o = ray.origin;
    let d = ray.direction;
    proof {
        lemma_mul_bound(n.x as int, d.x as int, 0x40000000000000000, 0x200000);
        lemma_mul_bound(n.y as int, d.y as int, 0x40000000000000000, 0x200000);
        lemma_mul_bound(n.z as int, d.z as int, 0x40000000000000000, 0x200000);
        lemma_mul_bound(n.x as int, p.x as int - o.x as int, 0x40000000000000000, 0x400000);
        lemma_mul_bound(n.y as int, p.y as int - o.y as int, 0x40000000000000000, 0x400000);
        lemma_mul_bound(n.z as int, p.z as int - o.z as int, 0x40000000000000000, 0x400000);
    }
    let den: i128 = n.x * (d.x as i128) + n.y * (d.y as i128) + n.z * (d.z as i128);
    if den == 0 {
        return None;
    }
    let num: i128 = n.x * (p.x as i128 - o.x as i128) + n.y * (p.y as i128 - o.y as i128) + n.z * (
    p.z as i128 - o.z as i128);
    let (nn, dd): (i128, i128) = if den < 0 {
        (-num, -den)
    } else {
        (num, den)
    };
    if nn < 0 {
        // the plane lies behind the ray's origin
        return None;
    }
    proof {
        lemma_mul_bound(d.x as int, nn as int, 0x200000, 0x200000000000000000000000);
        lemma_mul_bound(d.y as int, nn as int, 0x200000, 0x200000000000000000000000);
        lemma_mul_bound(d.z as int, nn as int, 0x200000, 0x200000000000000000000000);
    }
    let hit = WideVec3 {
        x: o.x as i128 + div_trunc((d.x as i128) * nn, dd),
        y: o.y as i128 + div_trunc((d.y as i128) * nn, dd),
        z: o.z as i128 + div_trunc((d.z as i128) * nn, dd),
    };
    proof {
        assert(hit.s() == s_ray_plane(n.s(), p.s(), ray.origin.s(), ray.direction.s()));
    }
    hit.narrow()
}

/// The reference origin of the active drag: frozen on the first dragged
/// frame, the gizmo's world position from then on.
pub open spec fn s_drag_origin(gz: TransformGizmo, gizmo_global: Transform) -> Vec3 {
    match gz.origin_drag_start {
        Some(o) => o,
        None => gizmo_global.translation,
    }
}

/// Whether this frame leaves the gizmo state and every target untouched:
/// no ray, or no drag in progress.
pub open spec fn s_drag_inactive(hover: HoverState, picking_ray: Option<Ray>) -> bool {
    picking_ray is None || hover != HoverState::Clicked
}

/// Updates the position of the gizmo and selected meshes while the gizmo is
/// being dragged.
///
/// Each frame of an active drag intersects the pick ray with the
/// interaction's reference plane through the frozen origin. The first frame
/// only arms the drag: it stores the hit as the anchor and moves nothing,
/// so clicking a handle never makes the scene jump. Later frames derive the
/// frame's delta from the anchor and the current hit alone and apply it to
/// every selected entity's snapshot. A frame whose geometry degenerates
/// (ray parallel to the plane, a value out of range) is skipped without
/// disturbing the drag.
pub fn drag_gizmo(
    gizmo: &mut TransformGizmo,
    hover: HoverState,
    gizmo_global: Transform,
    picking_ray: Option<Ray>,
    targets: &mut Vec<GizmoTarget>,
)
    requires
        old(gizmo).in_range(),
        gizmo_global.in_range(),
        picking_ray matches Some(r) ==> r.in_range(),
        forall|j: int| 0 <= j < old(targets)@.len() ==> (#[trigger] old(targets)@[j]).in_range(),
    ensures
        final(gizmo).in_range(),
        final(targets)@.len() == old(targets)@.len(),
        forall|j: int| 0 <= j < final(targets)@.len() ==> (#[trigger] final(targets)@[j]).in_range(),
        s_drag_inactive(hover, picking_ray) ==> *final(gizmo) == *old(gizmo) && final(targets)@
            == old(targets)@,
        !s_drag_inactive(hover, picking_ray) ==> {
            &&& final(gizmo).origin_drag_start == Some(s_drag_origin(*old(gizmo), gizmo_global))
            &&& final(gizmo).current_interaction == old(gizmo).current_interaction
        },
        !s_drag_inactive(hover, picking_ray) && old(gizmo).current_interaction is None ==> {
            &&& final(gizmo).drag_start == old(gizmo).drag_start
            &&& final(gizmo).initial_transform == old(gizmo).initial_transform
            &&& final(targets)@ == old(targets)@
        },
        !s_drag_inactive(hover, picking_ray) ==> (old(gizmo).current_interaction matches Some(i)
            ==> {
            let g = s_drag_origin(*old(gizmo), gizmo_global);
            let outcome = s_drag_outcome(i, g.s(), picking_ray->0, old(gizmo).drag_start);
            &&& final(gizmo).initial_transform == (if old(gizmo).initial_transform is Some {
                old(gizmo).initial_transform
            } else {
                Some(gizmo_global)
            })
            &&& (outcome is Skip ==> final(gizmo).drag_start == old(gizmo).drag_start
                && final(targets)@ == old(targets)@)
            &&& (outcome matches DragOutcome::Arm(v) ==> final(gizmo).drag_start == Some(
                (Vec3 { x: v.0 as i64, y: v.1 as i64, z: v.2 as i64 }),
            ) && final(targets)@ == old(targets)@)
            &&& (outcome matches DragOutcome::Translate(dv) ==> final(gizmo).drag_start
                == old(gizmo).drag_start && forall|j: int|
                0 <= j < old(targets)@.len() ==> final(targets)@[j] == s_translated_target(
                    #[trigger] old(targets)@[j],
                    dv,
                ))
            &&& (outcome matches DragOutcome::Rotate(q) ==> final(gizmo).drag_start
                == old(gizmo).drag_start && forall|j: int|
                0 <= j < old(targets)@.len() ==> s_rotated_rel(
                    #[trigger] old(targets)@[j],
                    final(targets)@[j],
                    q,
                ))
        }),
{
    let ray = match picking_ray {
        Some(r) => r,
        None => {
            return ;
        },
    };
    if !matches!(hover, HoverState::Clicked) {
        return ;
    }
    let g: Vec3 = match gizmo.origin_drag_start {
        Some(o) => o,
        None => {
            let o = gizmo_global.translation;
            gizmo.origin_drag_start = Some(o);
            o
        },
    };
    let interaction = match gizmo.current_interaction {
        Some(i) => i,
        None => {
            return ;
        },
    };
    if gizmo.initial_transform.is_none() {
        gizmo.initial_transform = Some(gizmo_global);
    }
    match interaction {
        TransformGizmoInteraction::TranslateAxis { original: _, axis } => {
            let n1 = cross_wide(ray.direction, axis, Ghost(0x200000));
            let n = cross_vec_wide(axis, &n1);
            let p = match ray_plane(&n, g, ray) {
                Some(p) => p,
                None => {
                    return ;
                },
            };
            let p0 = match gizmo.drag_start {
                Some(p0) => p0,
                None => {
                    // the anchor is the raw plane hit; its projection onto
                    // the axis is folded into every later frame's delta, so
                    // a cursor returning to the anchor gives exactly zero
                    gizmo.drag_start = Some(p);
                    return ;
                },
            };
            proof {
                lemma_mul_bound(axis.x as int, axis.x as int, 0x200000, 0x200000);
                lemma_mul_bound(axis.y as int, axis.y as int, 0x200000, 0x200000);
                lemma_mul_bound(axis.z as int, axis.z as int, 0x200000, 0x200000);
            }
            let aa: i128 = (axis.x as i128) * (axis.x as i128) + (axis.y as i128) * (axis.y
                as i128) + (axis.z as i128) * (axis.z as i128);
            if aa == 0 {
                return ;
            }
            proof {
                let q = axis.s();
                assert(q.0 * q.0 >= 0 && q.1 * q.1 >= 0 && q.2 * q.2 >= 0) by (nonlinear_arith);
            }
            let vx: i128 = p.x as i128 - g.x as i128;
            let vy: i128 = p.y as i128 - g.y as i128;
            let vz: i128 = p.z as i128 - g.z as i128;
            let wx: i128 = p0.x as i128 - g.x as i128;
            let wy: i128 = p0.y as i128 - g.y as i128;
            let wz: i128 = p0.z as i128 - g.z as i128;
            proof {
                lemma_mul_bound(vx as int, axis.x as int, 0x400000, 0x200000);
                lemma_mul_bound(vy as int, axis.y as int, 0x400000, 0x200000);
                lemma_mul_bound(vz as int, axis.z as int, 0x400000, 0x200000);
                lemma_mul_bound(wx as int, axis.x as int, 0x600000, 0x200000);
                lemma_mul_bound(wy as int, axis.y as int, 0x600000, 0x200000);
                lemma_mul_bound(wz as int, axis.z as int, 0x600000, 0x200000);
            }
            let kv: i128 = vx * (axis.x as i128) + vy * (axis.y as i128) + vz * (axis.z as i128);
            let kw: i128 = wx * (axis.x as i128) + wy * (axis.y as i128) + wz * (axis.z as i128);
            proof {
                lemma_mul_bound(axis.x as int, kv as int, 0x200000, 0x400000000000);
                lemma_mul_bound(axis.y as int, kv as int, 0x200000, 0x400000000000);
                lemma_mul_bound(axis.z as int, kv as int, 0x200000, 0x400000000000);
                lemma_mul_bound(axis.x as int, kw as int, 0x200000, 0x400000000000);
                lemma_mul_bound(axis.y as int, kw as int, 0x200000, 0x400000000000);
                lemma_mul_bound(axis.z as int, kw as int, 0x200000, 0x400000000000);
            }
            let dx: i128 = div_trunc((axis.x as i128) * kv, aa) - div_trunc(
                (axis.x as i128) * kw,
                aa,
            );
            let dy: i128 = div_trunc((axis.y as i128) * kv, aa) - div_trunc(
                (axis.y as i128) * kw,
                aa,
            );
            let dz: i128 = div_trunc((axis.z as i128) * kv, aa) - div_trunc(
                (axis.z as i128) * kw,
                aa,
            );
            apply_translation(targets, dx, dy, dz);
        },
        TransformGizmoInteraction::TranslatePlane { original: _, normal } => {
            let n = WideVec3 { x: normal.x as i128, y: normal.y as i128, z: normal.z as i128 };
            let p = match ray_plane(&n, g, ray) {
                Some(p) => p,
                None => {
                    return ;
                },
            };
            let p0 = match gizmo.drag_start {
                Some(p0) => p0,
                None => {
                    gizmo.drag_start = Some(p);
                    return ;
                },
            };
            let dx: i128 = p.x as i128 - p0.x as i128;
            let dy: i128 = p.y as i128 - p0.y as i128;
            let dz: i128 = p.z as i128 - p0.z as i128;
            apply_translation(targets, dx, dy, dz);
        },
        TransformGizmoInteraction::RotateAxis { original: _, axis } => {
            let n = WideVec3 { x: axis.x as i128, y: axis.y as i128, z: axis.z as i128 };
            let p = match ray_plane(&n, g, ray) {
                Some(p) => p,
                None => {
                    return ;
                },
            };
            let u = Vec3 { x: p.x - g.x, y: p.y - g.y, z: p.z - g.z };
            let u0 = match gizmo.drag_start {
                Some(u0) => u0,
                None => {
                    gizmo.drag_start = Some(u);
                    return ;
                },
            };
            let qd = match rotation_arc(u0, u) {
                Some(q) => q,
                None => {
                    return ;
                },
            };
            let mut out: Vec<GizmoTarget> = Vec::new();
            let mut i: usize = 0;
            while i < targets.len()
                invariant
                    i <= targets.len(),
                    out@.len() == i as int,
                    qd.in_range(),
                    forall|j: int| 0 <= j < targets@.len() ==> (#[trigger] targets@[j]).in_range(),
                    forall|j: int|
                        0 <= j < i as int ==> s_rotated_rel(#[trigger] targets@[j], out@[j], qd.s()),
                    forall|j: int| 0 <= j < i as int ==> (#[trigger] out@[j]).in_range(),
                decreases targets.len() - i,
            {
                out.push(apply_rotation_target(targets[i], qd));
                i = i + 1;
            }
            *targets = out;
        },
        TransformGizmoInteraction::ScaleAxis { original: _, axis: _ } => (),
    }
}

/// Apply a uniform translation to every target.
fn apply_translation(targets: &mut Vec<GizmoTarget>, dx: i128, dy: i128, dz: i128)
    requires
        forall|j: int| 0 <= j < old(targets)@.len() ==> (#[trigger] old(targets)@[j]).in_range(),
        -0x100000000000000000 <= dx <= 0x100000000000000000,
        -0x100000000000000000 <= dy <= 0x100000000000000000,
        -0x100000000000000000 <= dz <= 0x100000000000000000,
    ensures
        final(targets)@.len() == old(targets)@.len(),
        forall|j: int|
            0 <= j < old(targets)@.len() ==> final(targets)@[j] == s_translated_target(
                #[trigger] old(targets)@[j],
                (dx as int, dy as int, dz as int),
            ),
        forall|j: int| 0 <= j < final(targets)@.len() ==> (#[trigger] final(targets)@[j]).in_range(),
{
    let mut out: Vec<GizmoTarget> = Vec::new();
    let mut i: usize = 0;
    while i < targets.len()
        invariant
            i <= targets.len(),
            out@.len() == i as int,
            -0x100000000000000000 <= dx <= 0x100000000000000000,
            -0x100000000000000000 <= dy <= 0x100000000000000000,
            -0x100000000000000000 <= dz <= 0x100000000000000000,
            forall|j: int| 0 <= j < targets@.len() ==> (#[trigger] targets@[j]).in_range(),
            forall|j: int|
                0 <= j < i as int ==> out@[j] == s_translated_target(
                    #[trigger] targets@[j],
                    (dx as int, dy as int, dz as int),
                ),
            forall|j: int| 0 <= j < i as int ==> (#[trigger] out@[j]).in_range(),
        decreases targets.len() - i,
    {
        out.push(apply_translation_target(targets[i], dx, dy, dz));
        i = i + 1;
    }
    *targets = out;
}

} // verus!
