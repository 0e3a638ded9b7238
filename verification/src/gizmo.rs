//! The gizmo's data model and the hover and grab/release state machine:
//! `Idle -> Hovered -> Clicked -> Idle`, with per-entity transform snapshots
//! taken when a drag begins and exactly one event emitted per completed
//! click-drag-release cycle.

use vstd::prelude::*;
use crate::interaction::TransformGizmoInteraction;
use crate::quat::Quat;
use crate::transform::Transform;
use crate::vec3::{s_bounded, Vec3, MAX_COORD};

verus! {

/// Whether a part is drawn this frame.
#[derive(Clone, Copy, Debug, PartialEq, Eq, Structural)]
pub enum Visibility {
    Hidden,
    Inherited,
}

/// The interaction lifecycle of the gizmo: nothing under the cursor, a
/// handle under the cursor, or a handle held down (dragging).
#[derive(Clone, Copy, Debug, PartialEq, Eq, Structural)]
pub enum HoverState {
    NotHovering,
    Hovered,
    Clicked,
}

/// Master switch for the gizmo's per-frame systems.
#[derive(Clone, Debug)]
pub struct GizmoSystemsEnabled(pub bool);

/// Labels for the gizmo's per-frame systems, in their scheduling order.
#[derive(Debug, Hash, PartialEq, Eq, Clone)]
pub enum TransformGizmoSystem {
    InputsSet,
    MainSet,
    RaycastSet,
    NormalizeSet,
    UpdateSettings,
    AdjustViewTranslateGizmo,
    Place,
    Hover,
    Grab,
    Drag,
}

/// Configuration read by the per-frame systems.
#[derive(Clone, Copy, Debug)]
pub struct GizmoSettings {
    pub enabled: bool,
    /// Rotation to apply to the gizmo when it is placed. Used to align the
    /// gizmo to a different coordinate system.
    pub alignment_rotation: Quat,
    pub allow_rotation: bool,
}

/// Emitted once per completed drag: the gizmo's transform when the drag
/// began and when it ended, and the interaction that drove it.
#[derive(Clone, Copy, Debug, PartialEq, Eq, Structural)]
pub struct TransformGizmoEvent {
    pub from: Transform,
    pub to: Transform,
    pub interaction: TransformGizmoInteraction,
}

/// Marks an entity the gizmo may move.
#[derive(Clone, Copy, Debug, Default)]
pub struct GizmoTransformable;

/// Marks the camera that draws the gizmo pass.
#[derive(Clone, Copy, Debug, Default)]
pub struct InternalGizmoCamera;

/// Marks an entity whose picking should be suppressed.
#[derive(Clone, Copy, Debug, Default)]
pub struct PickingBlocker;

/// A per-entity pivot offset: rotations turn the entity about this point
/// (in its local frame) instead of its origin.
#[derive(Clone, Copy, Debug)]
pub struct RotationOriginOffset(pub Vec3);

/// The transform of an entity frozen at the moment a drag begins; every
/// frame of the drag is computed from this snapshot, never from the last
/// frame's result.
#[derive(Clone, Copy, Debug, PartialEq, Eq, Structural)]
pub struct InitialTransform {
    pub transform: Transform,
    pub rotation_offset: Vec3,
}

/// One entity as the gizmo's systems see it: its selection flag, its local
/// and world transforms, its optional rotation pivot, and — while a drag is
/// in progress — its snapshot.
#[derive(Clone, Copy, Debug, PartialEq, Eq, Structural)]
pub struct GizmoTarget {
    pub is_selected: bool,
    pub transform: Transform,
    pub global_transform: Transform,
    pub rotation_origin_offset: Option<Vec3>,
    pub initial_transform: Option<InitialTransform>,
}

impl GizmoTarget {
    pub open spec fn in_range(self) -> bool {
        &&& self.transform.in_range()
        &&& self.global_transform.in_range()
        &&& (self.rotation_origin_offset matches Some(v) ==> v.in_range())
        &&& (self.initial_transform matches Some(i) ==> i.transform.in_range()
            && i.rotation_offset.in_range())
    }
}

/// The gizmo's own state, fed by hover, grab and drag each frame.
#[derive(Clone, Copy, Debug, PartialEq, Eq, Structural, Default)]
pub struct TransformGizmo {
    pub current_interaction: Option<TransformGizmoInteraction>,
    /// Point in space where mouse-gizmo interaction started (on mouse down),
    /// used to compare how much total dragging has occurred without
    /// accumulating error across frames.
    pub drag_start: Option<Vec3>,
    pub origin_drag_start: Option<Vec3>,
    /// Initial transform of the gizmo.
    pub initial_transform: Option<Transform>,
}

impl TransformGizmo {
    pub open spec fn in_range(self) -> bool {
        &&& (self.current_interaction matches Some(i) ==> i.in_range())
        &&& (self.drag_start matches Some(v) ==> s_bounded(v.s(), 2 * MAX_COORD))
        &&& (self.origin_drag_start matches Some(v) ==> v.in_range())
        &&& (self.initial_transform matches Some(t) ==> t.in_range())
    }

    /// The state a gizmo starts in and returns to after every drag.
    pub open spec fn s_default() -> TransformGizmo {
        TransformGizmo {
            current_interaction: None,
            drag_start: None,
            origin_drag_start: None,
            initial_transform: None,
        }
    }

    pub fn new_default() -> (r: TransformGizmo)
        ensures
            r == TransformGizmo::s_default(),
    {
        TransformGizmo {
            current_interaction: None,
            drag_start: None,
            origin_drag_start: None,
            initial_transform: None,
        }
    }

    /// Get the gizmo's drag direction.
    pub fn current_interaction(&self) -> (r: Option<TransformGizmoInteraction>)
        ensures
            r == self.current_interaction,
    {
        self.current_interaction
    }
}

/// What one target becomes when a drag is grabbed: selected entities get a
/// snapshot of their transform together with their pivot offset (zero when
/// none is set); others are untouched.
pub open spec fn s_grab_snapshot(t: GizmoTarget) -> GizmoTarget {
    if t.is_selected {
        GizmoTarget {
            initial_transform: Some(
                InitialTransform {
                    transform: t.transform,
                    rotation_offset: match t.rotation_origin_offset {
                        Some(v) => v,
                        None => Vec3 { x: 0, y: 0, z: 0 },
                    },
                },
            ),
            ..t
        }
    } else {
        t
    }
}

/// A target with its snapshot (if any) dropped.
pub open spec fn s_clear_snapshot(t: GizmoTarget) -> GizmoTarget {
    GizmoTarget { initial_transform: None, ..t }
}

/// Per-frame hover bookkeeping. `hit` is the interaction of the gizmo
/// handle the pick ray currently strikes, if any. While the gizmo is held
/// down (`Clicked`), hover changes are suppressed so that a drag is not
/// interrupted by the ray leaving the handle's hitbox.
pub fn hover_gizmo(
    gizmo: &mut TransformGizmo,
    hover: &mut HoverState,
    hit: Option<TransformGizmoInteraction>,
)
    ensures
        *old(hover) == HoverState::Clicked ==> *final(gizmo) == *old(gizmo) && *final(hover)
            == *old(hover),
        *old(hover) != HoverState::Clicked && hit is Some ==> *final(hover)
            == HoverState::Hovered && *final(gizmo) == (TransformGizmo {
            current_interaction: hit,
            ..*old(gizmo)
        }),
        *old(hover) != HoverState::Clicked && hit is None ==> *final(gizmo) == *old(gizmo)
            && *final(hover) == HoverState::NotHovering,
{
    if *hover == HoverState::Clicked {
        return ;
    }
    match hit {
        Some(i) => {
            *hover = HoverState::Hovered;
            gizmo.current_interaction = Some(i);
        },
        None => {
            *hover = HoverState::NotHovering;
        },
    }
}

/// Tracks when one of the gizmo handles has been clicked on.
///
/// On a left-press over a hovered handle the state machine moves to
/// `Clicked` and snapshots every selected entity. On a press anywhere else
/// the gizmo and all snapshots are reset. On release the hover state
/// returns to idle, one event is emitted if a drag had begun (even with no
/// movement), and the gizmo and snapshots are reset.
pub fn grab_gizmo(
    gizmo: &mut TransformGizmo,
    hover: &mut HoverState,
    gizmo_global: Transform,
    targets: &mut Vec<GizmoTarget>,
    mouse_just_pressed: bool,
    mouse_just_released: bool,
    events: &mut Vec<TransformGizmoEvent>,
)
    ensures
        mouse_just_pressed && *old(hover) == HoverState::Hovered ==> {
            &&& *final(hover) == HoverState::Clicked
            &&& *final(gizmo) == *old(gizmo)
            &&& final(targets)@ == old(targets)@.map_values(|t: GizmoTarget| s_grab_snapshot(t))
            &&& final(events)@ == old(events)@
        },
        mouse_just_pressed && *old(hover) != HoverState::Hovered ==> {
            &&& *final(hover) == *old(hover)
            &&& *final(gizmo) == TransformGizmo::s_default()
            &&& final(targets)@ == old(targets)@.map_values(|t: GizmoTarget| s_clear_snapshot(t))
            &&& final(events)@ == old(events)@
        },
        !mouse_just_pressed && mouse_just_released ==> {
            &&& *final(hover) == HoverState::NotHovering
            &&& *final(gizmo) == TransformGizmo::s_default()
            &&& final(targets)@ == old(targets)@.map_values(|t: GizmoTarget| s_clear_snapshot(t))
            &&& final(events)@ == (if old(gizmo).initial_transform is Some && old(
                gizmo,
            ).current_interaction is Some {
                old(events)@.push(
                    (TransformGizmoEvent {
                        from: old(gizmo).initial_transform->0,
                        to: gizmo_global,
                        interaction: old(gizmo).current_interaction->0,
                    }),
                )
            } else {
                old(events)@
            })
        },
        !mouse_just_pressed && !mouse_just_released ==> *final(gizmo) == *old(gizmo)
            && *final(hover) == *old(hover) && final(targets)@ == old(targets)@ && final(events)@
            == old(events)@,
{
    if mouse_just_pressed {
        if *hover == HoverState::Hovered {
            *hover = HoverState::Clicked;
            // Dragging has started: store the initial transform of every
            // selected entity.
            let mut out: Vec<GizmoTarget> = Vec::new();
            let mut i: usize = 0;
            while i < targets.len()
                invariant
                    i <= targets.len(),
                    out@ == targets@.take(i as int).map_values(
                        |t: GizmoTarget| s_grab_snapshot(t),
                    ),
                decreases targets.len() - i,
            {
                let t = targets[i];
                let snap = if t.is_selected {
                    GizmoTarget {
                        initial_transform: Some(
                            InitialTransform {
                                transform: t.transform,
                                rotation_offset: match t.rotation_origin_offset {
                                    Some(v) => v,
                                    None => Vec3 { x: 0, y: 0, z: 0 },
                                },
                            },
                        ),
                        ..t
                    }
                } else {
                    t
                };
                out.push(snap);
                proof {
                    assert(targets@.take(i + 1) == targets@.take(i as int).push(targets@[i as int]));
                }
                i = i + 1;
            }
            proof {
                assert(targets@.take(targets@.len() as int) == targets@);
            }
            *targets = out;
        } else {
            *gizmo = TransformGizmo::new_default();
            clear_snapshots(targets);
        }
    } else if mouse_just_released {
        *hover = HoverState::NotHovering;
        if let (Some(from), Some(interaction)) = (gizmo.initial_transform, gizmo.current_interaction) {
            let event = TransformGizmoEvent { from, to: gizmo_global, interaction };
            events.push(event);
        }
        *gizmo = TransformGizmo::new_default();
        clear_snapshots(targets);
    }
}

/// Drop every target's snapshot.
fn clear_snapshots(targets: &mut Vec<GizmoTarget>)
    ensures
        final(targets)@ == old(targets)@.map_values(|t: GizmoTarget| s_clear_snapshot(t)),
{
    let mut out: Vec<GizmoTarget> = Vec::new();
    let mut i: usize = 0;
    while i < targets.len()
        invariant
            i <= targets.len(),
            out@ == targets@.take(i as int).map_values(|t: GizmoTarget| s_clear_snapshot(t)),
        decreases targets.len() - i,
    {
        let t = targets[i];
        out.push(GizmoTarget { initial_transform: None, ..t });
        proof {
            assert(targets@.take(i + 1) == targets@.take(i as int).push(targets@[i as int]));
        }
        i = i + 1;
    }
    proof {
        assert(targets@.take(targets@.len() as int) == targets@);
    }
    *targets = out;
}

} // verus!
