//! Click handling for the gizmo: deciding whether a left click was released,
//! which gizmo part a ray-cast hit, which axis that part stands for, and how
//! a cursor position on the screen maps into the gizmo's texture.

use vstd::prelude::*;

verus! {

/// Attach this to the meshes you want to represent clickable axes.
#[derive(Clone, Copy, Debug, PartialEq, Eq, Structural)]
pub enum GizmoClickableAxis {
    X,
    Y,
    Z,
    XNeg,
    YNeg,
    ZNeg,
}

/// A unit step along one coordinate axis, with integer components.
#[derive(Clone, Copy, Debug, PartialEq, Eq, Structural)]
pub struct AxisVector {
    pub x: i8,
    pub y: i8,
    pub z: i8,
}

/// The direction a clickable axis stands for.
pub open spec fn axis_vector_spec(axis: GizmoClickableAxis) -> AxisVector {
    match axis {
        GizmoClickableAxis::X => AxisVector { x: 1, y: 0, z: 0 },
        GizmoClickableAxis::Y => AxisVector { x: 0, y: 1, z: 0 },
        GizmoClickableAxis::Z => AxisVector { x: 0, y: 0, z: 1 },
        GizmoClickableAxis::XNeg => AxisVector { x: -1i8, y: 0, z: 0 },
        GizmoClickableAxis::YNeg => AxisVector { x: 0, y: -1i8, z: 0 },
        GizmoClickableAxis::ZNeg => AxisVector { x: 0, y: 0, z: -1i8 },
    }
}

impl From<GizmoClickableAxis> for AxisVector {
    fn from(axis: GizmoClickableAxis) -> (v: AxisVector) {
        match axis {
            GizmoClickableAxis::X => AxisVector { x: 1, y: 0, z: 0 },
            GizmoClickableAxis::Y => AxisVector { x: 0, y: 1, z: 0 },
            GizmoClickableAxis::Z => AxisVector { x: 0, y: 0, z: 1 },
            GizmoClickableAxis::XNeg => AxisVector { x: -1, y: 0, z: 0 },
            GizmoClickableAxis::YNeg => AxisVector { x: 0, y: -1, z: 0 },
            GizmoClickableAxis::ZNeg => AxisVector { x: 0, y: 0, z: -1 },
        }
    }
}

impl vstd::std_specs::convert::FromSpecImpl<GizmoClickableAxis> for AxisVector {
    open spec fn obeys_from_spec() -> bool {
        true
    }

    open spec fn from_spec(axis: GizmoClickableAxis) -> AxisVector {
        axis_vector_spec(axis)
    }
}

/// A mouse button, as the host reports it.
#[derive(Clone, Copy, Debug, PartialEq, Eq, Structural)]
pub enum MouseButton {
    Left,
    Right,
    Middle,
    Other(u16),
}

/// Whether a mouse button went down or came up.
#[derive(Clone, Copy, Debug, PartialEq, Eq, Structural)]
pub enum ElementState {
    Pressed,
    Released,
}

/// One mouse button event of a frame.
#[derive(Clone, Copy, Debug, PartialEq, Eq, Structural)]
pub struct MouseButtonInput {
    pub button: MouseButton,
    pub state: ElementState,
}

/// Event sent when one of the clickable gizmo parts is left-clicked: the
/// axis that part stands for, where it has one, and the hit entity's id.
#[derive(Clone, Copy, Debug, PartialEq, Eq)]
pub struct ClickEvent(pub Option<GizmoClickableAxis>, pub u64);

/// Whether one mouse event is the release of the left button.
pub open spec fn is_left_release(e: MouseButtonInput) -> bool {
    e.button is Left && e.state is Released
}

/// Whether a frame's mouse events contain a release of the left button.
pub open spec fn saw_left_release(events: Seq<MouseButtonInput>) -> bool {
    exists|i: int| 0 <= i < events.len() && is_left_release(events[i])
}

/// Did this frame's mouse events include a left click being released?
pub fn left_click_released(events: &Vec<MouseButtonInput>) -> (r: bool)
    ensures
        r == saw_left_release(events@),
{
    let mut i: usize = 0;
    while i < events.len()
        invariant
            0 <= i <= events@.len(),
            forall|j: int| 0 <= j < i ==> !is_left_release(events@[j]),
        decreases events@.len() - i,
    {
        let e = events[i];
        match (e.button, e.state) {
            (MouseButton::Left, ElementState::Released) => {
                assert(is_left_release(events@[i as int]));
                return true;
            },
            _ => {},
        }
        i = i + 1;
    }
    false
}

/// The entity hit first: the head of the first ray-cast source's
/// intersection list that is not empty, front to back.
pub open spec fn first_hit(sources: Seq<Seq<u64>>) -> Option<u64>
    decreases sources.len(),
{
    if sources.len() == 0 {
        None
    } else if sources[0].len() > 0 {
        Some(sources[0][0])
    } else {
        first_hit(sources.drop_first())
    }
}

/// Walk the ray-cast sources' intersection lists and return the entity hit
/// first, if any source hit one.
pub fn first_intersection(sources: &Vec<Vec<u64>>) -> (r: Option<u64>)
    ensures
        r == first_hit(sources.deep_view()),
{
    let ghost all: Seq<Seq<u64>> = sources.deep_view();
    let mut i: usize = 0;
    proof {
        assert(all.skip(0) =~= all);
    }
    while i < sources.len()
        invariant
            0 <= i <= sources@.len(),
            all == sources.deep_view(),
            first_hit(all) == first_hit(all.skip(i as int)),
        decreases sources@.len() - i,
    {
        let list = &sources[i];
        if list.len() > 0 {
            proof {
                assert(all.skip(i as int)[0] == list@);
            }
            return Some(list[0]);
        }
        proof {
            assert(all.skip(i as int).drop_first() =~= all.skip(i as int + 1));
        }
        i = i + 1;
    }
    proof {
        assert(all.skip(i as int) =~= Seq::<Seq<u64>>::empty());
    }
    None
}

/// The axis tag of the entity with the given id: the tag of the first
/// ray-castable entity carrying that id, or nothing when no ray-castable
/// entity carries it or the entity has no tag.
pub open spec fn axis_lookup(
    raycastables: Seq<(u64, Option<GizmoClickableAxis>)>,
    entity: u64,
) -> Option<GizmoClickableAxis>
    decreases raycastables.len(),
{
    if raycastables.len() == 0 {
        None
    } else if raycastables[0].0 == entity {
        raycastables[0].1
    } else {
        axis_lookup(raycastables.drop_first(), entity)
    }
}

/// Find the axis tag of the entity with the given id among the ray-castable
/// entities.
pub fn lookup_axis(
    raycastables: &Vec<(u64, Option<GizmoClickableAxis>)>,
    entity: u64,
) -> (r: Option<GizmoClickableAxis>)
    ensures
        r == axis_lookup(raycastables@, entity),
{
    let mut i: usize = 0;
    proof {
        assert(raycastables@.skip(0) =~= raycastables@);
    }
    while i < raycastables.len()
        invariant
            0 <= i <= raycastables@.len(),
            axis_lookup(raycastables@, entity) == axis_lookup(
                raycastables@.skip(i as int),
                entity,
            ),
        decreases raycastables@.len() - i,
    {
        let pair = raycastables[i];
        if pair.0 == entity {
            return pair.1;
        }
        proof {
            assert(raycastables@.skip(i as int).drop_first() =~= raycastables@.skip(
                i as int + 1,
            ));
        }
        i = i + 1;
    }
    proof {
        assert(raycastables@.skip(i as int) =~= Seq::<(u64, Option<GizmoClickableAxis>)>::empty());
    }
    None
}

/// What a frame's input amounts to: nothing unless the left button was
/// released and a ray-cast source hit an entity; otherwise a click event
/// naming the hit entity and the axis tag it carries, if it carries one.
pub open spec fn click_decision(
    events: Seq<MouseButtonInput>,
    sources: Seq<Seq<u64>>,
    raycastables: Seq<(u64, Option<GizmoClickableAxis>)>,
) -> Option<ClickEvent> {
    if !saw_left_release(events) {
        None
    } else {
        match first_hit(sources) {
            None => None,
            Some(entity) => Some(ClickEvent(axis_lookup(raycastables, entity), entity)),
        }
    }
}

/// Decide whether this frame's input clicks a gizmo part: `events` are the
/// frame's mouse button events, `sources` the intersection lists of the
/// ray-cast sources (entities front to back), and `raycastables` the
/// ray-castable entities with their axis tags.
pub fn listen_for_clicks(
    events: &Vec<MouseButtonInput>,
    sources: &Vec<Vec<u64>>,
    raycastables: &Vec<(u64, Option<GizmoClickableAxis>)>,
) -> (r: Option<ClickEvent>)
    ensures
        r == click_decision(events@, sources.deep_view(), raycastables@),
{
    if !left_click_released(events) {
        return None;
    }
    match first_intersection(sources) {
        None => None,
        Some(entity) => Some(ClickEvent(lookup_axis(raycastables, entity), entity)),
    }
}

/// Interaction state of the gizmo's canvas node, as the host reports it.
#[derive(Clone, Copy, Debug, PartialEq, Eq, Structural)]
pub enum Interaction {
    Clicked,
    Hovered,
    Inactive,
}

/// Where a cursor at `(cursor_x, cursor_y)` lands inside a canvas of size
/// `(width, height)` centered at `(center_x, center_y)`: the cursor position
/// relative to the canvas's minimum corner.
pub open spec fn texture_coords_spec(
    cursor_x: int,
    cursor_y: int,
    center_x: int,
    center_y: int,
    width: int,
    height: int,
) -> (int, int) {
    (cursor_x - (center_x - width / 2), cursor_y - (center_y - height / 2))
}

/// Map a cursor position on the screen into the gizmo's texture coordinate
/// system, unless the cursor is not over the canvas at all: the host passes
/// the canvas node's center, its size, and its interaction state.
pub fn cursor_to_texture(
    cursor_x: i64,
    cursor_y: i64,
    center_x: i64,
    center_y: i64,
    width: u32,
    height: u32,
    interaction: Interaction,
) -> (r: Option<(i64, i64)>)
    requires
        -0x1000_0000_0000_0000 <= cursor_x <= 0x1000_0000_0000_0000,
        -0x1000_0000_0000_0000 <= cursor_y <= 0x1000_0000_0000_0000,
        -0x1000_0000_0000_0000 <= center_x <= 0x1000_0000_0000_0000,
        -0x1000_0000_0000_0000 <= center_y <= 0x1000_0000_0000_0000,
    ensures
        (r is Some) == !(interaction is Inactive),
        r matches Some(p) ==> p.0 == texture_coords_spec(
            cursor_x as int,
            cursor_y as int,
            center_x as int,
            center_y as int,
            width as int,
            height as int,
        ).0,
        r matches Some(p) ==> p.1 == texture_coords_spec(
            cursor_x as int,
            cursor_y as int,
            center_x as int,
            center_y as int,
            width as int,
            height as int,
        ).1,
{
    match interaction {
        Interaction::Inactive => None,
        _ => {
            let half_w = (width / 2) as i64;
            let half_h = (height / 2) as i64;
            let min_x = center_x - half_w;
            let min_y = center_y - half_h;
            Some((cursor_x - min_x, cursor_y - min_y))
        },
    }
}

} // verus!
