use transform_gizmo::{
    drag_gizmo, GizmoTarget, HoverState, InitialTransform, Quat, Ray, Transform, TransformGizmo,
    TransformGizmoInteraction, Vec3,
};

fn axis_interaction(x: i64, y: i64, z: i64) -> TransformGizmoInteraction {
    TransformGizmoInteraction::TranslateAxis {
        original: Vec3::new(x, y, z),
        axis: Vec3::new(x, y, z),
    }
}

fn selected_target(tx: i64, ty: i64, tz: i64) -> GizmoTarget {
    let t = Transform::from_translation(Vec3::new(tx, ty, tz));
    GizmoTarget {
        is_selected: true,
        transform: t,
        global_transform: t,
        rotation_origin_offset: None,
        initial_transform: Some(InitialTransform {
            transform: t,
            rotation_offset: Vec3::new(0, 0, 0),
        }),
    }
}

fn down_ray(ox: i64, oy: i64, oz: i64) -> Ray {
    Ray::new(Vec3::new(ox, oy, oz), Vec3::new(0, 0, -1))
}

#[test]
fn translate_axis_first_frame_arms_without_moving() {
    let mut gizmo = TransformGizmo {
        current_interaction: Some(axis_interaction(1, 0, 0)),
        drag_start: None,
        origin_drag_start: None,
        initial_transform: None,
    };
    let hover = HoverState::Clicked;
    let global = Transform::from_translation(Vec3::new(0, 0, 0));
    let mut targets = vec![selected_target(1, 1, 1)];
    drag_gizmo(&mut gizmo, hover, global, Some(down_ray(5, 3, 10)), &mut targets);
    // the arm frame stores the plane hit and moves nothing
    assert_eq!(gizmo.drag_start, Some(Vec3::new(5, 3, 0)));
    assert_eq!(gizmo.origin_drag_start, Some(Vec3::new(0, 0, 0)));
    assert_eq!(gizmo.initial_transform, Some(global));
    assert_eq!(targets[0].transform, Transform::from_translation(Vec3::new(1, 1, 1)));
}

#[test]
fn translate_axis_moves_along_axis_only() {
    let mut gizmo = TransformGizmo {
        current_interaction: Some(axis_interaction(1, 0, 0)),
        drag_start: Some(Vec3::new(5, 3, 0)),
        origin_drag_start: Some(Vec3::new(0, 0, 0)),
        initial_transform: Some(Transform::from_translation(Vec3::new(0, 0, 0))),
    };
    let global = Transform::from_translation(Vec3::new(0, 0, 0));
    let mut targets = vec![selected_target(1, 1, 1)];
    // cursor moved two units along +X (and not at all along the axis normal)
    drag_gizmo(&mut gizmo, HoverState::Clicked, global, Some(down_ray(7, 3, 10)), &mut targets);
    assert_eq!(targets[0].transform.translation, Vec3::new(3, 1, 1));
    // motion perpendicular to the axis has no effect
    drag_gizmo(&mut gizmo, HoverState::Clicked, global, Some(down_ray(7, 9, 10)), &mut targets);
    assert_eq!(targets[0].transform.translation, Vec3::new(3, 1, 1));
}

#[test]
fn translate_axis_no_drift_on_return() {
    let mut gizmo = TransformGizmo {
        current_interaction: Some(axis_interaction(1, 0, 0)),
        drag_start: None,
        origin_drag_start: None,
        initial_transform: None,
    };
    let global = Transform::from_translation(Vec3::new(0, 0, 0));
    let mut targets = vec![selected_target(1, 1, 1)];
    drag_gizmo(&mut gizmo, HoverState::Clicked, global, Some(down_ray(5, 3, 10)), &mut targets);
    // wander for a few frames
    drag_gizmo(&mut gizmo, HoverState::Clicked, global, Some(down_ray(9, 3, 10)), &mut targets);
    drag_gizmo(&mut gizmo, HoverState::Clicked, global, Some(down_ray(-4, 7, 10)), &mut targets);
    drag_gizmo(&mut gizmo, HoverState::Clicked, global, Some(down_ray(12, 0, 10)), &mut targets);
    // return the cursor to exactly where the anchor was established
    drag_gizmo(&mut gizmo, HoverState::Clicked, global, Some(down_ray(5, 3, 10)), &mut targets);
    assert_eq!(targets[0].transform, Transform::from_translation(Vec3::new(1, 1, 1)));
}

#[test]
fn translate_plane_delta_is_difference_of_hits() {
    let mut gizmo = TransformGizmo {
        current_interaction: Some(TransformGizmoInteraction::TranslatePlane {
            original: Vec3::new(0, 0, 1),
            normal: Vec3::new(0, 0, 1),
        }),
        drag_start: None,
        origin_drag_start: None,
        initial_transform: None,
    };
    let global = Transform::from_translation(Vec3::new(0, 0, 0));
    let mut targets = vec![selected_target(10, 10, 10)];
    drag_gizmo(&mut gizmo, HoverState::Clicked, global, Some(down_ray(2, 3, 10)), &mut targets);
    assert_eq!(gizmo.drag_start, Some(Vec3::new(2, 3, 0)));
    assert_eq!(targets[0].transform.translation, Vec3::new(10, 10, 10));
    drag_gizmo(&mut gizmo, HoverState::Clicked, global, Some(down_ray(4, 6, 10)), &mut targets);
    assert_eq!(targets[0].transform.translation, Vec3::new(12, 13, 10));
}

#[test]
fn ray_parallel_to_plane_skips_frame() {
    let mut gizmo = TransformGizmo {
        current_interaction: Some(TransformGizmoInteraction::TranslatePlane {
            original: Vec3::new(0, 0, 1),
            normal: Vec3::new(0, 0, 1),
        }),
        drag_start: None,
        origin_drag_start: None,
        initial_transform: None,
    };
    let global = Transform::from_translation(Vec3::new(0, 0, 0));
    let mut targets = vec![selected_target(1, 2, 3)];
    // a ray parallel to the plane cannot hit it: no anchor, no motion
    let parallel = Ray::new(Vec3::new(0, 0, 5), Vec3::new(1, 0, 0));
    drag_gizmo(&mut gizmo, HoverState::Clicked, global, Some(parallel), &mut targets);
    assert_eq!(gizmo.drag_start, None);
    assert_eq!(targets[0].transform.translation, Vec3::new(1, 2, 3));
}

#[test]
fn plane_behind_the_ray_is_not_hit() {
    let mut gizmo = TransformGizmo {
        current_interaction: Some(TransformGizmoInteraction::TranslatePlane {
            original: Vec3::new(0, 0, 1),
            normal: Vec3::new(0, 0, 1),
        }),
        drag_start: None,
        origin_drag_start: None,
        initial_transform: None,
    };
    let global = Transform::from_translation(Vec3::new(0, 0, 0));
    let mut targets = vec![selected_target(1, 2, 3)];
    // the ray points away from the plane: the hit would be at a negative
    // ray parameter, so the frame is skipped
    let away = Ray::new(Vec3::new(2, 3, 10), Vec3::new(0, 0, 1));
    drag_gizmo(&mut gizmo, HoverState::Clicked, global, Some(away), &mut targets);
    assert_eq!(gizmo.drag_start, None);
    assert_eq!(targets[0].transform.translation, Vec3::new(1, 2, 3));
}

#[test]
fn rotate_axis_quarter_turn_positive_angle() {
    // right-hand rule about +Z: moving the cursor from +X to +Y is a
    // positive quarter turn
    let mut gizmo = TransformGizmo {
        current_interaction: Some(TransformGizmoInteraction::RotateAxis {
            original: Vec3::new(0, 0, 1),
            axis: Vec3::new(0, 0, 1),
        }),
        drag_start: Some(Vec3::new(1, 0, 0)),
        origin_drag_start: Some(Vec3::new(0, 0, 0)),
        initial_transform: Some(Transform::from_translation(Vec3::new(0, 0, 0))),
    };
    let global = Transform::from_translation(Vec3::new(0, 0, 0));
    let mut targets = vec![selected_target(0, 0, 0)];
    // ray hits the rotation plane at (0, 1, 0)
    drag_gizmo(&mut gizmo, HoverState::Clicked, global, Some(down_ray(0, 1, 10)), &mut targets);
    // the quarter turn about +Z as a half-angle quaternion: w = 1, z = 1
    assert_eq!(targets[0].transform.rotation, Quat::new(1, 0, 0, 1));
    // and that rotation carries +X to +Y exactly
    let q = Quat::new(1, 0, 0, 1);
    assert_eq!(q.rotate(Vec3::new(1, 0, 0)), Some(Vec3::new(0, 1, 0)));
}

#[test]
fn rotate_axis_pivots_about_offset_point() {
    let t = Transform::from_translation(Vec3::new(5, 0, 0));
    let target = GizmoTarget {
        is_selected: true,
        transform: t,
        global_transform: t,
        rotation_origin_offset: Some(Vec3::new(1, 0, 0)),
        initial_transform: Some(InitialTransform {
            transform: t,
            rotation_offset: Vec3::new(1, 0, 0),
        }),
    };
    let mut gizmo = TransformGizmo {
        current_interaction: Some(TransformGizmoInteraction::RotateAxis {
            original: Vec3::new(0, 0, 1),
            axis: Vec3::new(0, 0, 1),
        }),
        drag_start: Some(Vec3::new(1, 0, 0)),
        origin_drag_start: Some(Vec3::new(0, 0, 0)),
        initial_transform: Some(Transform::from_translation(Vec3::new(0, 0, 0))),
    };
    let global = Transform::from_translation(Vec3::new(0, 0, 0));
    let mut targets = vec![target];
    drag_gizmo(&mut gizmo, HoverState::Clicked, global, Some(down_ray(0, 1, 10)), &mut targets);
    // translation corrected so the offset point stays fixed
    assert_eq!(targets[0].transform.translation, Vec3::new(6, -1, 0));
    assert_eq!(targets[0].transform.rotation, Quat::new(1, 0, 0, 1));
    // the pivot point is unmoved: translation + rotated offset
    let rotated_offset = Quat::new(1, 0, 0, 1).rotate(Vec3::new(1, 0, 0)).unwrap();
    let pivot_after = Vec3::new(
        targets[0].transform.translation.x + rotated_offset.x,
        targets[0].transform.translation.y + rotated_offset.y,
        targets[0].transform.translation.z + rotated_offset.z,
    );
    assert_eq!(pivot_after, Vec3::new(6, 0, 0));
}

#[test]
fn rotate_axis_first_frame_arms_without_moving() {
    let mut gizmo = TransformGizmo {
        current_interaction: Some(TransformGizmoInteraction::RotateAxis {
            original: Vec3::new(0, 0, 1),
            axis: Vec3::new(0, 0, 1),
        }),
        drag_start: None,
        origin_drag_start: None,
        initial_transform: None,
    };
    let global = Transform::from_translation(Vec3::new(0, 0, 0));
    let mut targets = vec![selected_target(7, 8, 9)];
    drag_gizmo(&mut gizmo, HoverState::Clicked, global, Some(down_ray(1, 0, 10)), &mut targets);
    // the anchor is the cursor vector from the origin, and nothing moved
    assert_eq!(gizmo.drag_start, Some(Vec3::new(1, 0, 0)));
    assert_eq!(targets[0].transform.translation, Vec3::new(7, 8, 9));
    assert_eq!(targets[0].transform.rotation, Quat::new(1, 0, 0, 0));
}

#[test]
fn scale_axis_is_a_no_op() {
    let mut gizmo = TransformGizmo {
        current_interaction: Some(TransformGizmoInteraction::ScaleAxis {
            original: Vec3::new(1, 0, 0),
            axis: Vec3::new(1, 0, 0),
        }),
        drag_start: None,
        origin_drag_start: None,
        initial_transform: None,
    };
    let global = Transform::from_translation(Vec3::new(0, 0, 0));
    let mut targets = vec![selected_target(1, 2, 3)];
    drag_gizmo(&mut gizmo, HoverState::Clicked, global, Some(down_ray(4, 4, 10)), &mut targets);
    assert_eq!(targets[0].transform.translation, Vec3::new(1, 2, 3));
    assert_eq!(gizmo.drag_start, None);
}

#[test]
fn drag_without_click_changes_nothing() {
    let mut gizmo = TransformGizmo {
        current_interaction: Some(axis_interaction(1, 0, 0)),
        drag_start: None,
        origin_drag_start: None,
        initial_transform: None,
    };
    let global = Transform::from_translation(Vec3::new(0, 0, 0));
    let mut targets = vec![selected_target(1, 1, 1)];
    drag_gizmo(&mut gizmo, HoverState::Hovered, global, Some(down_ray(5, 3, 10)), &mut targets);
    assert_eq!(gizmo.origin_drag_start, None);
    assert_eq!(gizmo.initial_transform, None);
    drag_gizmo(&mut gizmo, HoverState::Clicked, global, None, &mut targets);
    assert_eq!(gizmo.origin_drag_start, None);
    assert_eq!(targets[0].transform.translation, Vec3::new(1, 1, 1));
}

#[test]
fn translation_out_of_range_skips_the_entity() {
    let mut gizmo = TransformGizmo {
        current_interaction: Some(axis_interaction(1, 0, 0)),
        drag_start: Some(Vec3::new(5, 3, 0)),
        origin_drag_start: Some(Vec3::new(0, 0, 0)),
        initial_transform: Some(Transform::from_translation(Vec3::new(0, 0, 0))),
    };
    let global = Transform::from_translation(Vec3::new(0, 0, 0));
    // this entity already sits at the edge of the coordinate range
    let mut targets = vec![selected_target(transform_gizmo::MAX_COORD, 0, 0)];
    drag_gizmo(&mut gizmo, HoverState::Clicked, global, Some(down_ray(7, 3, 10)), &mut targets);
    assert_eq!(
        targets[0].transform.translation,
        Vec3::new(transform_gizmo::MAX_COORD, 0, 0),
    );
}

#[test]
fn unselected_targets_are_never_moved() {
    let mut gizmo = TransformGizmo {
        current_interaction: Some(axis_interaction(1, 0, 0)),
        drag_start: Some(Vec3::new(5, 3, 0)),
        origin_drag_start: Some(Vec3::new(0, 0, 0)),
        initial_transform: Some(Transform::from_translation(Vec3::new(0, 0, 0))),
    };
    let global = Transform::from_translation(Vec3::new(0, 0, 0));
    let mut unselected = selected_target(1, 1, 1);
    unselected.is_selected = false;
    let mut targets = vec![unselected, selected_target(0, 0, 0)];
    drag_gizmo(&mut gizmo, HoverState::Clicked, global, Some(down_ray(7, 3, 10)), &mut targets);
    assert_eq!(targets[0].transform.translation, Vec3::new(1, 1, 1));
    assert_eq!(targets[1].transform.translation, Vec3::new(2, 0, 0));
}
