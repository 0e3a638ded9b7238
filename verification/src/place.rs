//! Gizmo placement and the setting-driven systems: positioning the gizmo at
//! the centroid of the selection, toggling its visibility, re-deriving the
//! handle axes when the alignment changes, re-propagating the gizmo's
//! children, and keeping the view-translate handle facing the camera.

use vstd::prelude::*;
use crate::gizmo::{GizmoSettings, GizmoTarget, Visibility};
use crate::interaction::{s_aligned, TransformGizmoInteraction};
use crate::num::{div_t, div_trunc};
use crate::quat::{q_mul, q_norm_sq, q_reduce, q_rotate, Quat};
use crate::transform::{s_scale_apply, Transform};
use crate::vec3::{s_add, s_div, s_in_range, V3, Vec3, WideVec3};

verus! {

/// The world position a selected entity contributes to the gizmo's
/// centroid: its world translation, adjusted by its rotation pivot carried
/// into world space. `None` when the adjustment cannot be represented — the
/// entity is skipped for the frame.
pub open spec fn s_adjusted_pos(t: GizmoTarget) -> Option<V3> {
    match t.rotation_origin_offset {
        None => Some(t.global_transform.translation.s()),
        Some(off) => {
            let rot = t.global_transform.rotation.s();
            if q_norm_sq(rot) > 0 && s_in_range(q_rotate(rot, off.s())) && s_in_range(
                s_add(t.global_transform.translation.s(), q_rotate(rot, off.s())),
            ) {
                Some(s_add(t.global_transform.translation.s(), q_rotate(rot, off.s())))
            } else {
                None
            }
        },
    }
}

/// How many targets are selected.
pub open spec fn s_selected_count(ts: Seq<GizmoTarget>) -> int
    decreases ts.len(),
{
    if ts.len() == 0 {
        0
    } else {
        s_selected_count(ts.drop_last()) + if ts.last().is_selected {
            1int
        } else {
            0int
        }
    }
}

/// How many selected targets contribute a position this frame.
pub open spec fn s_contrib_count(ts: Seq<GizmoTarget>) -> int
    decreases ts.len(),
{
    if ts.len() == 0 {
        0
    } else {
        s_contrib_count(ts.drop_last()) + if ts.last().is_selected && s_adjusted_pos(
            ts.last(),
        ) is Some {
            1int
        } else {
            0int
        }
    }
}

/// The sum of the contributed positions.
pub open spec fn s_contrib_sum(ts: Seq<GizmoTarget>) -> V3
    decreases ts.len(),
{
    if ts.len() == 0 {
        (0int, 0int, 0int)
    } else {
        let rest = s_contrib_sum(ts.drop_last());
        if ts.last().is_selected && s_adjusted_pos(ts.last()) is Some {
            s_add(rest, s_adjusted_pos(ts.last())->0)
        } else {
            rest
        }
    }
}

/// The centroid of the contributed positions.
pub open spec fn s_centroid(ts: Seq<GizmoTarget>) -> V3
    recommends
        s_contrib_count(ts) > 0,
{
    s_div(s_contrib_sum(ts), s_contrib_count(ts))
}

/// Places the gizmo in space relative to the selected entity(s).
///
/// Each frame the gizmo is moved to the centroid of the selected entities'
/// adjusted world positions, its rotation is set to the alignment setting,
/// and it is visible exactly when something is selected. With nothing
/// selected (or no representable centroid) the position is left alone —
/// the gizmo is hidden anyway.
pub fn place_gizmo(
    settings: &GizmoSettings,
    targets: &Vec<GizmoTarget>,
    transform: &mut Transform,
    global_transform: &mut Transform,
    visible: &mut Visibility,
)
    requires
        forall|j: int| 0 <= j < targets@.len() ==> (#[trigger] targets@[j]).in_range(),
    ensures
        *final(visible) == (if s_selected_count(targets@) > 0 {
            Visibility::Inherited
        } else {
            Visibility::Hidden
        }),
        final(transform).rotation == settings.alignment_rotation,
        final(global_transform).rotation == settings.alignment_rotation,
        final(transform).scale == old(transform).scale,
        final(global_transform).scale == old(global_transform).scale,
        s_contrib_count(targets@) > 0 && s_in_range(s_centroid(targets@)) ==> {
            &&& final(transform).translation.s() == s_centroid(targets@)
            &&& final(global_transform).translation.s() == s_centroid(targets@)
        },
        !(s_contrib_count(targets@) > 0 && s_in_range(s_centroid(targets@))) ==> {
            &&& final(transform).translation == old(transform).translation
            &&& final(global_transform).translation == old(global_transform).translation
        },
{
    let mut n_selected: usize = 0;
    let mut count: usize = 0;
    let mut sx: i128 = 0;
    let mut sy: i128 = 0;
    let mut sz: i128 = 0;
    let mut i: usize = 0;
    while i < targets.len()
        invariant
            i <= targets.len(),
            forall|j: int| 0 <= j < targets@.len() ==> (#[trigger] targets@[j]).in_range(),
            n_selected as int == s_selected_count(targets@.take(i as int)),
            n_selected <= i,
            count as int == s_contrib_count(targets@.take(i as int)),
            count <= i,
            sx as int == s_contrib_sum(targets@.take(i as int)).0,
            sy as int == s_contrib_sum(targets@.take(i as int)).1,
            sz as int == s_contrib_sum(targets@.take(i as int)).2,
            -(count as int) * 0x400000 <= sx as int <= (count as int) * 0x400000,
            -(count as int) * 0x400000 <= sy as int <= (count as int) * 0x400000,
            -(count as int) * 0x400000 <= sz as int <= (count as int) * 0x400000,
        decreases targets.len() - i,
    {
        let t = targets[i];
        proof {
            assert(targets@.take(i + 1).drop_last() == targets@.take(i as int));
            assert(targets@.take(i + 1).last() == targets@[i as int]);
        }
        if t.is_selected {
            n_selected = n_selected + 1;
            let pos: Option<Vec3> = match t.rotation_origin_offset {
                None => Some(t.global_transform.translation),
                Some(off) => match t.global_transform.rotation.rotate(off) {
                    Some(r) => {
                        let w = WideVec3 {
                            x: t.global_transform.translation.x as i128 + r.x as i128,
                            y: t.global_transform.translation.y as i128 + r.y as i128,
                            z: t.global_transform.translation.z as i128 + r.z as i128,
                        };
                        w.narrow()
                    },
                    None => None,
                },
            };
            if let Some(p) = pos {
                count = count + 1;
                sx = sx + p.x as i128;
                sy = sy + p.y as i128;
                sz = sz + p.z as i128;
            }
        }
        i = i + 1;
    }
    proof {
        assert(targets@.take(targets@.len() as int) == targets@);
    }
    *visible = if n_selected > 0 {
        Visibility::Inherited
    } else {
        Visibility::Hidden
    };
    transform.rotation = settings.alignment_rotation;
    global_transform.rotation = settings.alignment_rotation;
    if count > 0 {
        let c = WideVec3 {
            x: div_trunc(sx, count as i128),
            y: div_trunc(sy, count as i128),
            z: div_trunc(sz, count as i128),
        };
        if let Some(centroid) = c.narrow() {
            transform.translation = centroid;
            global_transform.translation = centroid;
        }
    }
}

/// How a part's world transform relates to the gizmo's after
/// re-propagation: composed when every step is representable, untouched
/// otherwise.
pub open spec fn s_propagated_rel(g: Transform, local: Transform, before: Transform, after: Transform) -> bool {
    if g.s_apply_point_ok(local.translation.s()) && s_in_range(
        s_scale_apply(g.scale.s(), local.scale.s()),
    ) {
        &&& after.translation.s() == g.s_apply_point(local.translation.s())
        &&& after.scale.s() == s_scale_apply(g.scale.s(), local.scale.s())
        &&& after.rotation.s() == q_reduce(q_mul(g.rotation.s(), local.rotation.s()))
    } else {
        after == before
    }
}

/// Re-derive the world transform of every gizmo part from the gizmo's own
/// world transform: `part_world = gizmo_world * part_local`. This runs
/// after placement, which moves the gizmo after the scene's ordinary
/// transform propagation has already happened this frame.
pub fn propagate_gizmo_elements(
    gizmo_global: &Transform,
    parts: &mut Vec<(Transform, Transform)>,
)
    requires
        gizmo_global.in_range(),
        forall|j: int|
            0 <= j < old(parts)@.len() ==> (#[trigger] old(parts)@[j]).0.in_range()
                && old(parts)@[j].1.in_range(),
    ensures
        final(parts)@.len() == old(parts)@.len(),
        forall|j: int|
            0 <= j < old(parts)@.len() ==> (#[trigger] final(parts)@[j]).0 == old(parts)@[j].0
                && s_propagated_rel(
                *gizmo_global,
                old(parts)@[j].0,
                old(parts)@[j].1,
                final(parts)@[j].1,
            ),
        forall|j: int|
            0 <= j < final(parts)@.len() ==> (#[trigger] final(parts)@[j]).0.in_range()
                && final(parts)@[j].1.in_range(),
{
    let mut out: Vec<(Transform, Transform)> = Vec::new();
    let mut i: usize = 0;
    while i < parts.len()
        invariant
            i <= parts.len(),
            out@.len() == i as int,
            gizmo_global.in_range(),
            forall|j: int|
                0 <= j < parts@.len() ==> (#[trigger] parts@[j]).0.in_range()
                    && parts@[j].1.in_range(),
            forall|j: int|
                0 <= j < i as int ==> (#[trigger] out@[j]).0 == parts@[j].0 && s_propagated_rel(
                    *gizmo_global,
                    parts@[j].0,
                    parts@[j].1,
                    out@[j].1,
                ),
            forall|j: int|
                0 <= j < i as int ==> (#[trigger] out@[j]).0.in_range() && out@[j].1.in_range(),
        decreases parts.len() - i,
    {
        let (local, global) = parts[i];
        let new_global = match gizmo_global.mul_transform(local) {
            Some(t) => t,
            None => global,
        };
        out.push((local, new_global));
        i = i + 1;
    }
    *parts = out;
}

/// Marks the rotation-ring parts of the gizmo, shown only while rotation
/// is allowed.
#[derive(Clone, Copy, Debug, Default)]
pub struct RotationGizmo;

/// Marks the view-aligned translate handle, kept facing the camera.
#[derive(Clone, Copy, Debug, Default)]
pub struct ViewTranslateGizmo;

/// Propagate a change of the alignment setting: every handle's working
/// axis or normal is re-derived from its untouched `original`, and the
/// rotation-ring parts are shown only while rotation is allowed.
pub fn update_gizmo_settings(
    settings: &GizmoSettings,
    interactions: &mut Vec<TransformGizmoInteraction>,
    rotation_parts: &mut Vec<Visibility>,
)
    requires
        settings.alignment_rotation.in_range(),
        forall|j: int|
            0 <= j < old(interactions)@.len() ==> (#[trigger] old(interactions)@[j]).in_range(),
    ensures
        final(interactions)@.len() == old(interactions)@.len(),
        forall|j: int|
            0 <= j < old(interactions)@.len() ==> final(interactions)@[j] == s_aligned(
                settings.alignment_rotation,
                #[trigger] old(interactions)@[j],
            ),
        forall|j: int|
            0 <= j < final(interactions)@.len() ==> (#[trigger] final(interactions)@[j]).in_range(),
        final(rotation_parts)@.len() == old(rotation_parts)@.len(),
        forall|j: int|
            0 <= j < final(rotation_parts)@.len() ==> final(rotation_parts)@[j] == (if settings.allow_rotation {
                Visibility::Inherited
            } else {
                Visibility::Hidden
            }),
{
    let mut out: Vec<TransformGizmoInteraction> = Vec::new();
    let mut i: usize = 0;
    while i < interactions.len()
        invariant
            i <= interactions.len(),
            out@.len() == i as int,
            settings.alignment_rotation.in_range(),
            forall|j: int|
                0 <= j < interactions@.len() ==> (#[trigger] interactions@[j]).in_range(),
            forall|j: int|
                0 <= j < i as int ==> out@[j] == s_aligned(
                    settings.alignment_rotation,
                    #[trigger] interactions@[j],
                ),
            forall|j: int| 0 <= j < i as int ==> (#[trigger] out@[j]).in_range(),
        decreases interactions.len() - i,
    {
        out.push(crate::interaction::align_interaction(settings.alignment_rotation, interactions[i]));
        i = i + 1;
    }
    *interactions = out;
    let mut vis: Vec<Visibility> = Vec::new();
    let mut i2: usize = 0;
    while i2 < rotation_parts.len()
        invariant
            i2 <= rotation_parts.len(),
            vis@.len() == i2 as int,
            forall|j: int|
                0 <= j < i2 as int ==> vis@[j] == (if settings.allow_rotation {
                    Visibility::Inherited
                } else {
                    Visibility::Hidden
                }),
        decreases rotation_parts.len() - i2,
    {
        if settings.allow_rotation {
            vis.push(Visibility::Inherited);
        } else {
            vis.push(Visibility::Hidden);
        }
        i2 = i2 + 1;
    }
    *rotation_parts = vis;
}

/// How the view-translate handle relates to the camera after adjustment:
/// when the camera's view direction (its rotation applied to local Z) is
/// representable, the interaction becomes a translate-plane with that
/// normal and the handle's world rotation becomes the camera's rotation
/// composed with the fixed half-turn about `(0, 1, 1)`, which maps the
/// handle's local axes onto the camera basis; otherwise nothing changes.
pub open spec fn s_view_adjust_rel(
    camera: Transform,
    i0: TransformGizmoInteraction,
    i1: TransformGizmoInteraction,
    g0: Transform,
    g1: Transform,
) -> bool {
    let z = (Vec3 { x: 0, y: 0, z: crate::transform::ONE });
    let local_z = q_rotate(camera.rotation.s(), z.s());
    if q_norm_sq(camera.rotation.s()) > 0 && s_in_range(local_z) {
        &&& i1 == (TransformGizmoInteraction::TranslatePlane {
            original: Vec3 { x: 0, y: 0, z: 0 },
            normal: Vec3 { x: local_z.0 as i64, y: local_z.1 as i64, z: local_z.2 as i64 },
        })
        &&& g1.translation == g0.translation
        &&& g1.scale == g0.scale
        &&& g1.rotation.s() == q_reduce(q_mul(camera.rotation.s(), (0int, 0int, 1int, 1int)))
    } else {
        i1 == i0 && g1 == g0
    }
}

/// Keep the view-translate handle facing the camera.
pub fn adjust_view_translate_gizmo(
    camera: &Transform,
    interaction: &mut TransformGizmoInteraction,
    part_global: &mut Transform,
)
    requires
        camera.in_range(),
    ensures
        s_view_adjust_rel(
            *camera,
            *old(interaction),
            *final(interaction),
            *old(part_global),
            *final(part_global),
        ),
{
    let z = Vec3 { x: 0, y: 0, z: crate::transform::ONE };
    let normal = match camera.rotation.rotate(z) {
        Some(n) => n,
        None => {
            return ;
        },
    };
    *interaction = TransformGizmoInteraction::TranslatePlane {
        original: Vec3 { x: 0, y: 0, z: 0 },
        normal,
    };
    let half_turn = Quat { w: 0, x: 0, y: 1, z: 1 };
    part_global.rotation = camera.rotation.mul_q(half_turn);
}

} // verus!
