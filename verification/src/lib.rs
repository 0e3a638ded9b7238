//! An interactive 3D transform-gizmo library: the drag math and state machine
//! that turn a picking ray into translations and rotations of selected
//! entities.
//!
//! All geometry is carried out over integer coordinates (fixed-point, with
//! `ONE` as the unit for scale factors), so every computation has an exact
//! specification. Rotations are quaternions with integer components,
//! interpreted projectively: `q` rotates `v` to `q v q* / (q . q)`, which
//! keeps rotation application and composition inside integer arithmetic.

use vstd::prelude::*;

pub mod drag;
pub mod gizmo;
pub mod interaction;
pub mod laws;
pub mod normalization;
pub mod num;
pub mod place;
pub mod plugin;
pub mod quat;
pub mod transform;
pub mod vec3;

pub use drag::{drag_gizmo, Ray};
pub use gizmo::{grab_gizmo, hover_gizmo, GizmoSettings, GizmoSystemsEnabled, GizmoTarget,
    GizmoTransformable, HoverState, InitialTransform, InternalGizmoCamera, PickingBlocker,
    RotationOriginOffset, TransformGizmo, TransformGizmoEvent, TransformGizmoSystem, Visibility};
pub use interaction::TransformGizmoInteraction;
pub use normalization::{normalize, Normalize3d, Ui3dNormalization, Vec2};
pub use place::{adjust_view_translate_gizmo, place_gizmo, propagate_gizmo_elements,
    update_gizmo_settings, RotationGizmo, ViewTranslateGizmo};
pub use plugin::{standard_handles, GizmoHandle, TransformGizmoBundle, TransformGizmoPlugin};
pub use quat::Quat;
pub use transform::{Transform, ONE};
pub use vec3::{Vec3, MAX_COORD};
