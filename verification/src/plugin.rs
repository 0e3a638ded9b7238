//! The plugin-level configuration surface and the bundle a gizmo entity is
//! spawned with.

use vstd::prelude::*;
use crate::gizmo::{HoverState, PickingBlocker, TransformGizmo, Visibility};
use crate::interaction::TransformGizmoInteraction;
use crate::normalization::Normalize3d;
use crate::quat::Quat;
use crate::transform::{Transform, ONE};
use crate::vec3::{Vec3, MAX_COORD};

verus! {

/// The gizmo plugin's startup configuration.
#[derive(Debug, Clone)]
pub struct TransformGizmoPlugin {
    // Rotation to apply to the gizmo when it is placed. Used to align the
    // gizmo to a different coordinate system.
    pub alignment_rotation: Quat,
}

impl TransformGizmoPlugin {
    pub fn new(alignment_rotation: Quat) -> (r: TransformGizmoPlugin)
        ensures
            r.alignment_rotation == alignment_rotation,
    {
        TransformGizmoPlugin { alignment_rotation }
    }
}

/// Everything a gizmo entity carries.
pub struct TransformGizmoBundle {
    pub gizmo: TransformGizmo,
    pub interaction: HoverState,
    pub picking_blocker: PickingBlocker,
    pub transform: Transform,
    pub global_transform: Transform,
    pub visible: Visibility,
    pub normalize: Normalize3d,
}

impl Default for TransformGizmoBundle {
    /// A fresh gizmo: idle, hidden, parked at the far corner of the
    /// coordinate range until the first placement, and normalized to a
    /// fixed on-screen size.
    fn default() -> (r: TransformGizmoBundle)
        ensures
            r.gizmo == TransformGizmo::s_default(),
            r.interaction == HoverState::NotHovering,
            r.transform.translation.s() == (-MAX_COORD as int, -MAX_COORD as int, -MAX_COORD as int),
            r.transform.rotation.s() == (1int, 0int, 0int, 0int),
            r.transform.scale.s() == (ONE as int, ONE as int, ONE as int),
            r.transform.in_range(),
            r.global_transform == Transform::s_identity(),
            r.visible == Visibility::Hidden,
            r.normalize.size_in_world == 98304,
            r.normalize.desired_pixel_size == 150,
    {
        TransformGizmoBundle {
            gizmo: TransformGizmo::new_default(),
            interaction: HoverState::NotHovering,
            picking_blocker: PickingBlocker,
            transform: Transform::from_translation(Vec3::new(-MAX_COORD, -MAX_COORD, -MAX_COORD)),
            global_transform: Transform::identity(),
            visible: Visibility::Hidden,
            // one and a half world units, 150 pixels on screen
            normalize: Normalize3d::new(98304, 150),
        }
    }
}

/// One pickable handle of the standard gizmo: its interaction tag, and
/// whether the part belongs to the rotation rings (hidden when rotation is
/// disallowed) or is the view-aligned handle (re-aimed at the camera every
/// frame).
#[derive(Clone, Copy, Debug, PartialEq, Eq, Structural)]
pub struct GizmoHandle {
    pub interaction: TransformGizmoInteraction,
    pub rotation_ring: bool,
    pub view_handle: bool,
}

/// The fixed catalog of handles the standard gizmo is built from: an arrow
/// per world axis, a translation plane per world axis, the view-aligned
/// sphere, and a rotation ring per world axis. Axes are unit vectors at the
/// fixed-point unit `ONE`; each handle's `original` equals its working
/// vector until an alignment change re-derives the latter.
pub fn standard_handles() -> (r: Vec<GizmoHandle>)
    ensures
        r@.len() == 10,
        r@[0] == (GizmoHandle {
            interaction: TransformGizmoInteraction::TranslateAxis {
                original: Vec3 { x: ONE, y: 0, z: 0 },
                axis: Vec3 { x: ONE, y: 0, z: 0 },
            },
            rotation_ring: false,
            view_handle: false,
        }),
        r@[1] == (GizmoHandle {
            interaction: TransformGizmoInteraction::TranslateAxis {
                original: Vec3 { x: 0, y: ONE, z: 0 },
                axis: Vec3 { x: 0, y: ONE, z: 0 },
            },
            rotation_ring: false,
            view_handle: false,
        }),
        r@[2] == (GizmoHandle {
            interaction: TransformGizmoInteraction::TranslateAxis {
                original: Vec3 { x: 0, y: 0, z: ONE },
                axis: Vec3 { x: 0, y: 0, z: ONE },
            },
            rotation_ring: false,
            view_handle: false,
        }),
        r@[3] == (GizmoHandle {
            interaction: TransformGizmoInteraction::TranslatePlane {
                original: Vec3 { x: ONE, y: 0, z: 0 },
                normal: Vec3 { x: ONE, y: 0, z: 0 },
            },
            rotation_ring: false,
            view_handle: false,
        }),
        r@[4] == (GizmoHandle {
            interaction: TransformGizmoInteraction::TranslatePlane {
                original: Vec3 { x: 0, y: ONE, z: 0 },
                normal: Vec3 { x: 0, y: ONE, z: 0 },
            },
            rotation_ring: false,
            view_handle: false,
        }),
        r@[5] == (GizmoHandle {
            interaction: TransformGizmoInteraction::TranslatePlane {
                original: Vec3 { x: 0, y: 0, z: ONE },
                normal: Vec3 { x: 0, y: 0, z: ONE },
            },
            rotation_ring: false,
            view_handle: false,
        }),
        r@[6] == (GizmoHandle {
            interaction: TransformGizmoInteraction::TranslatePlane {
                original: Vec3 { x: 0, y: 0, z: 0 },
                normal: Vec3 { x: 0, y: 0, z: ONE },
            },
            rotation_ring: false,
            view_handle: true,
        }),
        r@[7] == (GizmoHandle {
            interaction: TransformGizmoInteraction::RotateAxis {
                original: Vec3 { x: ONE, y: 0, z: 0 },
                axis: Vec3 { x: ONE, y: 0, z: 0 },
            },
            rotation_ring: true,
            view_handle: false,
        }),
        r@[8] == (GizmoHandle {
            interaction: TransformGizmoInteraction::RotateAxis {
                original: Vec3 { x: 0, y: ONE, z: 0 },
                axis: Vec3 { x: 0, y: ONE, z: 0 },
            },
            rotation_ring: true,
            view_handle: false,
        }),
        r@[9] == (GizmoHandle {
            interaction: TransformGizmoInteraction::RotateAxis {
                original: Vec3 { x: 0, y: 0, z: ONE },
                axis: Vec3 { x: 0, y: 0, z: ONE },
            },
            rotation_ring: true,
            view_handle: false,
        }),
        forall|j: int| 0 <= j < r@.len() ==> (#[trigger] r@[j]).interaction.in_range(),
{
    let x = Vec3 { x: ONE, y: 0, z: 0 };
    let y = Vec3 { x: 0, y: ONE, z: 0 };
    let z = Vec3 { x: 0, y: 0, z: ONE };
    let zero = Vec3 { x: 0, y: 0, z: 0 };
    let mut r: Vec<GizmoHandle> = Vec::new();
    r.push(GizmoHandle {
        interaction: TransformGizmoInteraction::TranslateAxis { original: x, axis: x },
        rotation_ring: false,
        view_handle: false,
    });
    r.push(GizmoHandle {
        interaction: TransformGizmoInteraction::TranslateAxis { original: y, axis: y },
        rotation_ring: false,
        view_handle: false,
    });
    r.push(GizmoHandle {
        interaction: TransformGizmoInteraction::TranslateAxis { original: z, axis: z },
        rotation_ring: false,
        view_handle: false,
    });
    r.push(GizmoHandle {
        interaction: TransformGizmoInteraction::TranslatePlane { original: x, normal: x },
        rotation_ring: false,
        view_handle: false,
    });
    r.push(GizmoHandle {
        interaction: TransformGizmoInteraction::TranslatePlane { original: y, normal: y },
        rotation_ring: false,
        view_handle: false,
    });
    r.push(GizmoHandle {
        interaction: TransformGizmoInteraction::TranslatePlane { original: z, normal: z },
        rotation_ring: false,
        view_handle: false,
    });
    r.push(GizmoHandle {
        interaction: TransformGizmoInteraction::TranslatePlane { original: zero, normal: z },
        rotation_ring: false,
        view_handle: true,
    });
    r.push(GizmoHandle {
        interaction: TransformGizmoInteraction::RotateAxis { original: x, axis: x },
        rotation_ring: true,
        view_handle: false,
    });
    r.push(GizmoHandle {
        interaction: TransformGizmoInteraction::RotateAxis { original: y, axis: y },
        rotation_ring: true,
        view_handle: false,
    });
    r.push(GizmoHandle {
        interaction: TransformGizmoInteraction::RotateAxis { original: z, axis: z },
        rotation_ring: true,
        view_handle: false,
    });
    r
}

} // verus!
