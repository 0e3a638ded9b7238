use transform_gizmo::{
    adjust_view_translate_gizmo, grab_gizmo, hover_gizmo, normalize, place_gizmo,
    propagate_gizmo_elements, standard_handles, update_gizmo_settings, GizmoSettings, GizmoTarget,
    HoverState, InitialTransform, Normalize3d, Quat, Transform, TransformGizmo,
    TransformGizmoBundle, TransformGizmoEvent, TransformGizmoInteraction, Vec2, Vec3, Visibility,
    ONE,
};

fn plain_target(selected: bool, x: i64, y: i64, z: i64) -> GizmoTarget {
    let t = Transform::from_translation(Vec3::new(x, y, z));
    GizmoTarget {
        is_selected: selected,
        transform: t,
        global_transform: t,
        rotation_origin_offset: None,
        initial_transform: None,
    }
}

fn world_settings() -> GizmoSettings {
    GizmoSettings {
        enabled: true,
        alignment_rotation: Quat::identity(),
        allow_rotation: true,
    }
}

#[test]
fn centroid_of_three_entities() {
    let targets = vec![
        plain_target(true, 0, 0, 0),
        plain_target(true, 2, 0, 0),
        plain_target(true, 4, 0, 0),
    ];
    let mut transform = Transform::from_translation(Vec3::new(-5, -5, -5));
    let mut global = transform;
    let mut visible = Visibility::Hidden;
    place_gizmo(&world_settings(), &targets, &mut transform, &mut global, &mut visible);
    assert_eq!(transform.translation, Vec3::new(2, 0, 0));
    assert_eq!(global.translation, Vec3::new(2, 0, 0));
    assert_eq!(visible, Visibility::Inherited);
}

#[test]
fn visibility_follows_selection_each_frame() {
    let mut targets = vec![plain_target(false, 1, 0, 0)];
    let mut transform = Transform::from_translation(Vec3::new(0, 0, 0));
    let mut global = transform;
    let mut visible = Visibility::Inherited;
    place_gizmo(&world_settings(), &targets, &mut transform, &mut global, &mut visible);
    assert_eq!(visible, Visibility::Hidden);
    targets[0].is_selected = true;
    place_gizmo(&world_settings(), &targets, &mut transform, &mut global, &mut visible);
    assert_eq!(visible, Visibility::Inherited);
    // deselection is re-evaluated: no stale visibility
    targets[0].is_selected = false;
    place_gizmo(&world_settings(), &targets, &mut transform, &mut global, &mut visible);
    assert_eq!(visible, Visibility::Hidden);
}

#[test]
fn place_with_nothing_selected_keeps_position() {
    let targets = vec![plain_target(false, 9, 9, 9)];
    let mut transform = Transform::from_translation(Vec3::new(3, 2, 1));
    let mut global = transform;
    let mut visible = Visibility::Inherited;
    place_gizmo(&world_settings(), &targets, &mut transform, &mut global, &mut visible);
    assert_eq!(transform.translation, Vec3::new(3, 2, 1));
    assert_eq!(visible, Visibility::Hidden);
}

#[test]
fn place_uses_rotated_pivot_offsets() {
    // one entity at (4, 0, 0) whose pivot offset (2, 0, 0) is carried by
    // the identity rotation: contributes (6, 0, 0)
    let t = Transform::from_translation(Vec3::new(4, 0, 0));
    let targets = vec![GizmoTarget {
        is_selected: true,
        transform: t,
        global_transform: t,
        rotation_origin_offset: Some(Vec3::new(2, 0, 0)),
        initial_transform: None,
    }];
    let mut transform = Transform::from_translation(Vec3::new(0, 0, 0));
    let mut global = transform;
    let mut visible = Visibility::Hidden;
    place_gizmo(&world_settings(), &targets, &mut transform, &mut global, &mut visible);
    assert_eq!(transform.translation, Vec3::new(6, 0, 0));
}

#[test]
fn alignment_rederives_axis_and_keeps_original() {
    // a quarter turn about +Y as a half-angle quaternion: w = 1, y = 1
    let settings = GizmoSettings {
        enabled: true,
        alignment_rotation: Quat::new(1, 0, 1, 0),
        allow_rotation: true,
    };
    let mut interactions = vec![TransformGizmoInteraction::TranslateAxis {
        original: Vec3::new(1, 0, 0),
        axis: Vec3::new(1, 0, 0),
    }];
    let mut rotation_parts: Vec<Visibility> = vec![Visibility::Hidden];
    update_gizmo_settings(&settings, &mut interactions, &mut rotation_parts);
    match interactions[0] {
        TransformGizmoInteraction::TranslateAxis { original, axis } => {
            assert_eq!(original, Vec3::new(1, 0, 0));
            assert_eq!(axis, Vec3::new(0, 0, -1));
        }
        _ => panic!("interaction changed variant"),
    }
    assert_eq!(rotation_parts[0], Visibility::Inherited);
}

#[test]
fn disallowing_rotation_hides_rotation_parts() {
    let settings = GizmoSettings {
        enabled: true,
        alignment_rotation: Quat::identity(),
        allow_rotation: false,
    };
    let mut interactions: Vec<TransformGizmoInteraction> = Vec::new();
    let mut rotation_parts = vec![Visibility::Inherited, Visibility::Inherited];
    update_gizmo_settings(&settings, &mut interactions, &mut rotation_parts);
    assert_eq!(rotation_parts, vec![Visibility::Hidden, Visibility::Hidden]);
}

#[test]
fn degenerate_alignment_rotation_leaves_handles_alone() {
    // the all-zero quaternion stands for no rotation at all: the working
    // axis cannot be re-derived and is kept as it was
    let settings = GizmoSettings {
        enabled: true,
        alignment_rotation: Quat::new(0, 0, 0, 0),
        allow_rotation: true,
    };
    let before = TransformGizmoInteraction::TranslateAxis {
        original: Vec3::new(1, 0, 0),
        axis: Vec3::new(0, 1, 0),
    };
    let mut interactions = vec![before];
    let mut rotation_parts: Vec<Visibility> = Vec::new();
    update_gizmo_settings(&settings, &mut interactions, &mut rotation_parts);
    assert_eq!(interactions[0], before);
}

#[test]
fn hover_sets_interaction_and_clears_on_miss() {
    let mut gizmo = TransformGizmo::default();
    let mut hover = HoverState::NotHovering;
    let hit = TransformGizmoInteraction::TranslateAxis {
        original: Vec3::new(1, 0, 0),
        axis: Vec3::new(1, 0, 0),
    };
    hover_gizmo(&mut gizmo, &mut hover, Some(hit));
    assert_eq!(hover, HoverState::Hovered);
    assert_eq!(gizmo.current_interaction, Some(hit));
    hover_gizmo(&mut gizmo, &mut hover, None);
    assert_eq!(hover, HoverState::NotHovering);
    // the stale interaction is harmless: it is only read while clicked
    assert_eq!(gizmo.current_interaction, Some(hit));
}

#[test]
fn hover_is_suppressed_while_clicked() {
    let mut gizmo = TransformGizmo::default();
    let mut hover = HoverState::Clicked;
    hover_gizmo(&mut gizmo, &mut hover, None);
    assert_eq!(hover, HoverState::Clicked);
    assert_eq!(gizmo.current_interaction, None);
}

#[test]
fn grab_snapshots_selected_entities() {
    let mut gizmo = TransformGizmo::default();
    let mut hover = HoverState::Hovered;
    let global = Transform::from_translation(Vec3::new(0, 0, 0));
    let mut targets = vec![plain_target(true, 1, 2, 3), plain_target(false, 4, 5, 6)];
    let mut events: Vec<TransformGizmoEvent> = Vec::new();
    grab_gizmo(&mut gizmo, &mut hover, global, &mut targets, true, false, &mut events);
    assert_eq!(hover, HoverState::Clicked);
    assert_eq!(
        targets[0].initial_transform,
        Some(InitialTransform {
            transform: Transform::from_translation(Vec3::new(1, 2, 3)),
            rotation_offset: Vec3::new(0, 0, 0),
        })
    );
    assert_eq!(targets[1].initial_transform, None);
    assert!(events.is_empty());
}

#[test]
fn press_off_gizmo_resets_state_and_snapshots() {
    let mut gizmo = TransformGizmo {
        current_interaction: None,
        drag_start: Some(Vec3::new(1, 0, 0)),
        origin_drag_start: Some(Vec3::new(0, 0, 0)),
        initial_transform: Some(Transform::from_translation(Vec3::new(0, 0, 0))),
    };
    let mut hover = HoverState::NotHovering;
    let global = Transform::from_translation(Vec3::new(0, 0, 0));
    let mut t = plain_target(true, 1, 2, 3);
    t.initial_transform = Some(InitialTransform {
        transform: t.transform,
        rotation_offset: Vec3::new(0, 0, 0),
    });
    let mut targets = vec![t];
    let mut events: Vec<TransformGizmoEvent> = Vec::new();
    grab_gizmo(&mut gizmo, &mut hover, global, &mut targets, true, false, &mut events);
    assert_eq!(gizmo, TransformGizmo::default());
    assert_eq!(targets[0].initial_transform, None);
    assert!(events.is_empty());
}

#[test]
fn click_and_release_without_movement_emits_one_event_from_equals_to() {
    let mut gizmo = TransformGizmo::default();
    let mut hover = HoverState::NotHovering;
    let global = Transform::from_translation(Vec3::new(2, 0, 0));
    let mut targets = vec![plain_target(true, 2, 0, 0)];
    let mut events: Vec<TransformGizmoEvent> = Vec::new();
    let hit = TransformGizmoInteraction::TranslateAxis {
        original: Vec3::new(1, 0, 0),
        axis: Vec3::new(1, 0, 0),
    };
    // hover the handle, press, let one drag frame arm, release
    hover_gizmo(&mut gizmo, &mut hover, Some(hit));
    grab_gizmo(&mut gizmo, &mut hover, global, &mut targets, true, false, &mut events);
    transform_gizmo::drag_gizmo(
        &mut gizmo,
        hover,
        global,
        Some(transform_gizmo::Ray::new(Vec3::new(3, 1, 10), Vec3::new(0, 0, -1))),
        &mut targets,
    );
    grab_gizmo(&mut gizmo, &mut hover, global, &mut targets, false, true, &mut events);
    assert_eq!(events.len(), 1);
    assert_eq!(events[0].from, events[0].to);
    assert_eq!(events[0].interaction, hit);
    // and the machine is back to its defaults
    assert_eq!(gizmo, TransformGizmo::default());
    assert_eq!(hover, HoverState::NotHovering);
    assert_eq!(targets[0].initial_transform, None);
}

#[test]
fn release_without_drag_emits_nothing() {
    let mut gizmo = TransformGizmo::default();
    let mut hover = HoverState::NotHovering;
    let global = Transform::from_translation(Vec3::new(0, 0, 0));
    let mut targets: Vec<GizmoTarget> = Vec::new();
    let mut events: Vec<TransformGizmoEvent> = Vec::new();
    grab_gizmo(&mut gizmo, &mut hover, global, &mut targets, false, true, &mut events);
    assert!(events.is_empty());
}

#[test]
fn propagate_composes_part_transforms() {
    let gizmo_global = Transform::from_translation(Vec3::new(10, 0, 0));
    let local = Transform::from_translation(Vec3::new(1, 2, 3));
    let mut parts = vec![(local, Transform::identity())];
    propagate_gizmo_elements(&gizmo_global, &mut parts);
    assert_eq!(parts[0].1.translation, Vec3::new(11, 2, 3));
    assert_eq!(parts[0].1.scale, Vec3::new(ONE, ONE, ONE));
}

#[test]
fn normalize_scales_to_desired_pixel_size() {
    let n = Normalize3d::new(ONE + ONE / 2, 150);
    let mut transform = Transform::identity();
    let mut global = Transform::identity();
    // the part currently covers 300 pixels, twice the desired size
    normalize(
        &n,
        &mut transform,
        &mut global,
        Some(Vec2::new(0, 0)),
        Some(Vec2::new(300, 0)),
    );
    assert_eq!(transform.scale, Vec3::new(ONE / 2, ONE / 2, ONE / 2));
    assert_eq!(global, transform);
}

#[test]
fn normalize_seeds_from_the_world_scale() {
    // a part under a scaled parent: local scale 2x, world scale 1x; the
    // probes measure the on-screen size under the world scale, so the new
    // scale is seeded from it
    let n = Normalize3d::new(ONE + ONE / 2, 150);
    let mut transform = Transform {
        translation: Vec3::new(0, 0, 0),
        rotation: Quat::identity(),
        scale: Vec3::new(2 * ONE, 2 * ONE, 2 * ONE),
    };
    let mut global = Transform::identity();
    normalize(
        &n,
        &mut transform,
        &mut global,
        Some(Vec2::new(0, 0)),
        Some(Vec2::new(300, 0)),
    );
    assert_eq!(transform.scale, Vec3::new(ONE / 2, ONE / 2, ONE / 2));
    assert_eq!(global, transform);
}

#[test]
fn normalize_skips_behind_camera_and_zero_size() {
    let n = Normalize3d::new(ONE, 150);
    let before = Transform::identity();
    let mut transform = before;
    let mut global = before;
    normalize(&n, &mut transform, &mut global, None, Some(Vec2::new(1, 1)));
    assert_eq!(transform, before);
    // both projections on the same pixel: no size to derive from
    normalize(
        &n,
        &mut transform,
        &mut global,
        Some(Vec2::new(7, 7)),
        Some(Vec2::new(7, 7)),
    );
    assert_eq!(transform, before);
}

#[test]
fn view_translate_handle_faces_the_camera() {
    let camera = Transform::identity();
    let mut interaction = TransformGizmoInteraction::TranslateAxis {
        original: Vec3::new(1, 0, 0),
        axis: Vec3::new(1, 0, 0),
    };
    let mut part_global = Transform::identity();
    adjust_view_translate_gizmo(&camera, &mut interaction, &mut part_global);
    assert_eq!(
        interaction,
        TransformGizmoInteraction::TranslatePlane {
            original: Vec3::new(0, 0, 0),
            normal: Vec3::new(0, 0, ONE),
        }
    );
    assert_eq!(part_global.rotation, Quat::new(0, 0, 1, 1));
}

#[test]
fn standard_handle_catalog() {
    let handles = standard_handles();
    assert_eq!(handles.len(), 10);
    assert_eq!(
        handles[0].interaction,
        TransformGizmoInteraction::TranslateAxis {
            original: Vec3::new(ONE, 0, 0),
            axis: Vec3::new(ONE, 0, 0),
        }
    );
    assert_eq!(
        handles[6].interaction,
        TransformGizmoInteraction::TranslatePlane {
            original: Vec3::new(0, 0, 0),
            normal: Vec3::new(0, 0, ONE),
        }
    );
    assert!(handles[6].view_handle);
    assert_eq!(
        handles[9].interaction,
        TransformGizmoInteraction::RotateAxis {
            original: Vec3::new(0, 0, ONE),
            axis: Vec3::new(0, 0, ONE),
        }
    );
    assert_eq!(handles.iter().filter(|h| h.rotation_ring).count(), 3);
    assert_eq!(handles.iter().filter(|h| h.view_handle).count(), 1);
}

#[test]
fn bundle_defaults_are_idle_and_hidden() {
    let b = TransformGizmoBundle::default();
    assert_eq!(b.gizmo, TransformGizmo::default());
    assert_eq!(b.interaction, HoverState::NotHovering);
    assert_eq!(b.visible, Visibility::Hidden);
    assert_eq!(b.normalize.desired_pixel_size, 150);
}
