use viewport_orientation_gizmo::click_reaction::{
    cursor_to_texture, first_intersection, left_click_released, listen_for_clicks, lookup_axis,
    AxisVector, ClickEvent, ElementState, GizmoClickableAxis, Interaction, MouseButton,
    MouseButtonInput,
};
use viewport_orientation_gizmo::gizmo_parts::{
    clickable_gizmo_parts, default_gizmo_parts, gizmo_parts, BoxExtents, Rgb,
};
use viewport_orientation_gizmo::plugin::{
    canvas_position, canvas_style, render_target_extent, CanvasLocation, CanvasRect, CanvasVal,
    PluginOptions, ViewportOrientationGizmoPlugin,
};

fn left_release() -> MouseButtonInput {
    MouseButtonInput { button: MouseButton::Left, state: ElementState::Released }
}

#[test]
fn new_plugin_is_64_bottom_left() {
    let p = ViewportOrientationGizmoPlugin::new();
    assert_eq!(p.options.size, 64);
    assert!(matches!(p.options.location, CanvasLocation::BottomLeft));
}

#[test]
fn new_sized_keeps_size_and_corner() {
    let p = ViewportOrientationGizmoPlugin::new_sized(128);
    assert_eq!(p.options.size, 128);
    assert!(matches!(p.options.location, CanvasLocation::BottomLeft));
}

#[test]
fn custom_keeps_options() {
    let p = ViewportOrientationGizmoPlugin::custom(PluginOptions {
        size: 32,
        location: CanvasLocation::TopRight,
    });
    assert_eq!(p.options.size, 32);
    assert!(matches!(p.options.location, CanvasLocation::TopRight));
}

#[test]
fn default_plugin_matches_new() {
    let p = ViewportOrientationGizmoPlugin::default();
    assert_eq!(p, ViewportOrientationGizmoPlugin::new());
}

#[test]
fn default_options_are_64_bottom_left() {
    let o = PluginOptions::default();
    assert_eq!(o.size, 64);
    assert!(matches!(o.location, CanvasLocation::BottomLeft));
}

#[test]
fn preset_corners_anchor_two_edges() {
    let tl = canvas_position(&CanvasLocation::TopLeft);
    assert_eq!(tl.left, CanvasVal::Px(0));
    assert_eq!(tl.top, CanvasVal::Px(0));
    assert_eq!(tl.right, CanvasVal::Unset);
    assert_eq!(tl.bottom, CanvasVal::Unset);

    let tr = canvas_position(&CanvasLocation::TopRight);
    assert_eq!(tr.right, CanvasVal::Px(0));
    assert_eq!(tr.top, CanvasVal::Px(0));
    assert_eq!(tr.left, CanvasVal::Unset);
    assert_eq!(tr.bottom, CanvasVal::Unset);

    let bl = canvas_position(&CanvasLocation::BottomLeft);
    assert_eq!(bl.left, CanvasVal::Px(0));
    assert_eq!(bl.bottom, CanvasVal::Px(0));
    assert_eq!(bl.right, CanvasVal::Unset);
    assert_eq!(bl.top, CanvasVal::Unset);

    let br = canvas_position(&CanvasLocation::BottomRight);
    assert_eq!(br.right, CanvasVal::Px(0));
    assert_eq!(br.bottom, CanvasVal::Px(0));
    assert_eq!(br.left, CanvasVal::Unset);
    assert_eq!(br.top, CanvasVal::Unset);
}

#[test]
fn custom_location_is_used_as_given() {
    let rect = CanvasRect {
        left: CanvasVal::Px(12),
        right: CanvasVal::Unset,
        top: CanvasVal::Px(-3),
        bottom: CanvasVal::Unset,
    };
    assert_eq!(canvas_position(&CanvasLocation::Custom(rect)), rect);
}

#[test]
fn canvas_style_is_square_at_location() {
    let style = canvas_style(&PluginOptions { size: 48, location: CanvasLocation::TopLeft });
    assert_eq!(style.width, 48);
    assert_eq!(style.height, 48);
    assert_eq!(style.position, canvas_position(&CanvasLocation::TopLeft));
}

#[test]
fn render_target_is_square_one_deep() {
    let e = render_target_extent(&PluginOptions { size: 64, location: CanvasLocation::BottomLeft });
    assert_eq!(e, (64, 64, 1));
}

#[test]
fn default_gizmo_has_three_thin_untagged_bars() {
    let parts = default_gizmo_parts();
    assert_eq!(parts.len(), 3);
    assert_eq!(parts[0].extents, BoxExtents { x: 100, y: 5, z: 5 });
    assert_eq!(parts[1].extents, BoxExtents { x: 5, y: 100, z: 5 });
    assert_eq!(parts[2].extents, BoxExtents { x: 5, y: 5, z: 100 });
    assert!(parts.iter().all(|p| p.axis.is_none()));
}

#[test]
fn clickable_gizmo_has_three_tagged_bars() {
    let parts = clickable_gizmo_parts();
    assert_eq!(parts.len(), 3);
    assert_eq!(parts[0].extents, BoxExtents { x: 100, y: 15, z: 15 });
    assert_eq!(parts[0].axis, Some(GizmoClickableAxis::X));
    assert_eq!(parts[1].axis, Some(GizmoClickableAxis::Y));
    assert_eq!(parts[2].axis, Some(GizmoClickableAxis::Z));
}

#[test]
fn gizmo_bars_have_the_axis_colors() {
    let parts = gizmo_parts(10, false);
    assert_eq!(parts[0].color, Rgb { r: 0xb8, g: 0x27, b: 0x00 });
    assert_eq!(parts[1].color, Rgb { r: 0x5d, g: 0x99, b: 0x00 });
    assert_eq!(parts[2].color, Rgb { r: 0x2e, g: 0x78, b: 0xe4 });
    assert_eq!(parts[0].extents, BoxExtents { x: 100, y: 10, z: 10 });
}

#[test]
fn axis_vectors_are_unit_steps() {
    assert_eq!(AxisVector::from(GizmoClickableAxis::X), AxisVector { x: 1, y: 0, z: 0 });
    assert_eq!(AxisVector::from(GizmoClickableAxis::Y), AxisVector { x: 0, y: 1, z: 0 });
    assert_eq!(AxisVector::from(GizmoClickableAxis::Z), AxisVector { x: 0, y: 0, z: 1 });
    assert_eq!(AxisVector::from(GizmoClickableAxis::XNeg), AxisVector { x: -1, y: 0, z: 0 });
    assert_eq!(AxisVector::from(GizmoClickableAxis::YNeg), AxisVector { x: 0, y: -1, z: 0 });
    assert_eq!(AxisVector::from(GizmoClickableAxis::ZNeg), AxisVector { x: 0, y: 0, z: -1 });
}

#[test]
fn no_events_is_no_left_release() {
    assert!(!left_click_released(&Vec::new()));
}

#[test]
fn left_press_alone_is_no_release() {
    let events = vec![
        MouseButtonInput { button: MouseButton::Left, state: ElementState::Pressed },
        MouseButtonInput { button: MouseButton::Right, state: ElementState::Released },
        MouseButtonInput { button: MouseButton::Middle, state: ElementState::Released },
        MouseButtonInput { button: MouseButton::Other(4), state: ElementState::Released },
    ];
    assert!(!left_click_released(&events));
}

#[test]
fn left_release_is_seen_among_other_events() {
    let events = vec![
        MouseButtonInput { button: MouseButton::Right, state: ElementState::Pressed },
        left_release(),
        MouseButtonInput { button: MouseButton::Left, state: ElementState::Pressed },
    ];
    assert!(left_click_released(&events));
}

#[test]
fn first_intersection_skips_empty_sources() {
    let sources: Vec<Vec<u64>> = vec![vec![], vec![], vec![7, 9], vec![11]];
    assert_eq!(first_intersection(&sources), Some(7));
}

#[test]
fn first_intersection_of_nothing_is_none() {
    assert_eq!(first_intersection(&Vec::new()), None);
    let all_empty: Vec<Vec<u64>> = vec![vec![], vec![]];
    assert_eq!(first_intersection(&all_empty), None);
}

#[test]
fn lookup_axis_finds_the_tag() {
    let raycastables = vec![
        (3u64, None),
        (7u64, Some(GizmoClickableAxis::ZNeg)),
    ];
    assert_eq!(lookup_axis(&raycastables, 7), Some(GizmoClickableAxis::ZNeg));
    assert_eq!(lookup_axis(&raycastables, 3), None);
    assert_eq!(lookup_axis(&raycastables, 99), None);
}

#[test]
fn click_on_tagged_part_names_its_axis() {
    let events = vec![left_release()];
    let sources: Vec<Vec<u64>> = vec![vec![], vec![7, 9]];
    let raycastables = vec![(3u64, None), (7u64, Some(GizmoClickableAxis::Y))];
    let ev = listen_for_clicks(&events, &sources, &raycastables);
    assert_eq!(ev, Some(ClickEvent(Some(GizmoClickableAxis::Y), 7)));
}

#[test]
fn click_on_untagged_entity_has_no_axis() {
    let events = vec![left_release()];
    let sources: Vec<Vec<u64>> = vec![vec![42]];
    let raycastables = vec![(3u64, None), (7u64, Some(GizmoClickableAxis::Y))];
    let ev = listen_for_clicks(&events, &sources, &raycastables);
    assert_eq!(ev, Some(ClickEvent(None, 42)));
}

#[test]
fn no_left_release_sends_nothing() {
    let events = vec![
        MouseButtonInput { button: MouseButton::Left, state: ElementState::Pressed },
    ];
    let sources: Vec<Vec<u64>> = vec![vec![7]];
    let raycastables = vec![(7u64, Some(GizmoClickableAxis::X))];
    assert_eq!(listen_for_clicks(&events, &sources, &raycastables), None);
}

#[test]
fn click_into_empty_space_sends_nothing() {
    let events = vec![left_release()];
    let sources: Vec<Vec<u64>> = vec![vec![], vec![]];
    let raycastables = vec![(7u64, Some(GizmoClickableAxis::X))];
    assert_eq!(listen_for_clicks(&events, &sources, &raycastables), None);
}

#[test]
fn cursor_maps_relative_to_canvas_corner() {
    // Canvas of 64x64 centered at (40, 50): its lower corner is (8, 18).
    let r = cursor_to_texture(10, 20, 40, 50, 64, 64, Interaction::Hovered);
    assert_eq!(r, Some((2, 2)));
    let r = cursor_to_texture(8, 18, 40, 50, 64, 64, Interaction::Clicked);
    assert_eq!(r, Some((0, 0)));
}

#[test]
fn cursor_outside_canvas_can_map_negative() {
    let r = cursor_to_texture(0, 0, 40, 50, 64, 64, Interaction::Hovered);
    assert_eq!(r, Some((-8, -18)));
}

#[test]
fn odd_canvas_size_rounds_half_down() {
    let r = cursor_to_texture(0, 0, 0, 0, 65, 65, Interaction::Hovered);
    assert_eq!(r, Some((32, 32)));
}

#[test]
fn inactive_canvas_maps_nothing() {
    assert_eq!(cursor_to_texture(10, 20, 40, 50, 64, 64, Interaction::Inactive), None);
}
