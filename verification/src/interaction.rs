//! The closed set of handle interactions a gizmo offers, and the
//! re-derivation of their working axes when the alignment setting changes.

use vstd::prelude::*;
use crate::quat::{q_norm_sq, q_rotate, Quat};
use crate::vec3::{s_in_range, Vec3};

verus! {

/// Marks the current active gizmo interaction. Each variant keeps the
/// `original` (unaligned) vector beside the working one, so the working
/// vector can be re-derived whenever the alignment rotation changes.
#[derive(Clone, Copy, Debug, PartialEq, Eq, Structural)]
pub enum TransformGizmoInteraction {
    TranslateAxis { original: Vec3, axis: Vec3 },
    TranslatePlane { original: Vec3, normal: Vec3 },
    RotateAxis { original: Vec3, axis: Vec3 },
    ScaleAxis { original: Vec3, axis: Vec3 },
}

impl TransformGizmoInteraction {
    /// Both stored vectors within the coordinate range.
    pub open spec fn in_range(self) -> bool {
        match self {
            TransformGizmoInteraction::TranslateAxis { original, axis } => original.in_range()
                && axis.in_range(),
            TransformGizmoInteraction::TranslatePlane { original, normal } => original.in_range()
                && normal.in_range(),
            TransformGizmoInteraction::RotateAxis { original, axis } => original.in_range()
                && axis.in_range(),
            TransformGizmoInteraction::ScaleAxis { original, axis } => original.in_range()
                && axis.in_range(),
        }
    }

    pub open spec fn s_original(self) -> Vec3 {
        match self {
            TransformGizmoInteraction::TranslateAxis { original, axis } => original,
            TransformGizmoInteraction::TranslatePlane { original, normal } => original,
            TransformGizmoInteraction::RotateAxis { original, axis } => original,
            TransformGizmoInteraction::ScaleAxis { original, axis } => original,
        }
    }

    /// The working vector: the aligned axis or plane normal.
    pub open spec fn s_working(self) -> Vec3 {
        match self {
            TransformGizmoInteraction::TranslateAxis { original, axis } => axis,
            TransformGizmoInteraction::TranslatePlane { original, normal } => normal,
            TransformGizmoInteraction::RotateAxis { original, axis } => axis,
            TransformGizmoInteraction::ScaleAxis { original, axis } => axis,
        }
    }
}

/// What an interaction becomes under a new alignment rotation: the same
/// variant with the same `original`, and the working vector replaced by the
/// rotated `original` — unchanged when that rotation cannot be represented
/// (degenerate rotation or a result out of range).
pub open spec fn s_aligned(rotation: Quat, i: TransformGizmoInteraction) -> TransformGizmoInteraction {
    let o = i.s_original();
    if q_norm_sq(rotation.s()) > 0 && s_in_range(q_rotate(rotation.s(), o.s())) {
        let r = q_rotate(rotation.s(), o.s());
        let v = Vec3 { x: r.0 as i64, y: r.1 as i64, z: r.2 as i64 };
        match i {
            TransformGizmoInteraction::TranslateAxis { original, axis } =>
                TransformGizmoInteraction::TranslateAxis { original, axis: v },
            TransformGizmoInteraction::TranslatePlane { original, normal } =>
                TransformGizmoInteraction::TranslatePlane { original, normal: v },
            TransformGizmoInteraction::RotateAxis { original, axis } =>
                TransformGizmoInteraction::RotateAxis { original, axis: v },
            TransformGizmoInteraction::ScaleAxis { original, axis } =>
                TransformGizmoInteraction::ScaleAxis { original, axis: v },
        }
    } else {
        i
    }
}

/// Re-derive one interaction's working vector under `rotation`, leaving
/// `original` untouched.
pub fn align_interaction(rotation: Quat, i: TransformGizmoInteraction) -> (r:
    TransformGizmoInteraction)
    requires
        rotation.in_range(),
        i.in_range(),
    ensures
        r == s_aligned(rotation, i),
        r.s_original() == i.s_original(),
        r.in_range(),
{
    let original = match i {
        TransformGizmoInteraction::TranslateAxis { original, axis: _ } => original,
        TransformGizmoInteraction::TranslatePlane { original, normal: _ } => original,
        TransformGizmoInteraction::RotateAxis { original, axis: _ } => original,
        TransformGizmoInteraction::ScaleAxis { original, axis: _ } => original,
    };
    let rotated = rotation.rotate(original);
    match rotated {
        Some(v) => match i {
            TransformGizmoInteraction::TranslateAxis { original, axis: _ } =>
                TransformGizmoInteraction::TranslateAxis { original, axis: v },
            TransformGizmoInteraction::TranslatePlane { original, normal: _ } =>
                TransformGizmoInteraction::TranslatePlane { original, normal: v },
            TransformGizmoInteraction::RotateAxis { original, axis: _ } =>
                TransformGizmoInteraction::RotateAxis { original, axis: v },
            TransformGizmoInteraction::ScaleAxis { original, axis: _ } =>
                TransformGizmoInteraction::ScaleAxis { original, axis: v },
        },
        None => i,
    }
}

} // verus!
