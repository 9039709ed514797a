//! Plugin configuration: where the gizmo's canvas sits on the screen, how
//! large it is, and the size of the off-screen texture it is rendered to.

use vstd::prelude::*;

verus! {

/// A UI length for one side of the canvas rectangle: either left unset, so
/// the layout ignores that side, or an absolute offset in pixels.
#[derive(Clone, Copy, Debug, PartialEq, Eq, Structural)]
pub enum CanvasVal {
    Unset,
    Px(i64),
}

/// Offsets of the canvas rectangle from the four screen edges.
#[derive(Clone, Copy, Debug, PartialEq, Eq, Structural)]
pub struct CanvasRect {
    pub left: CanvasVal,
    pub right: CanvasVal,
    pub top: CanvasVal,
    pub bottom: CanvasVal,
}

/// Represents a position on the canvas. You can use one of the four presets,
/// or specify your own rectangle (relative to the screen).
#[derive(Clone, Copy, Debug, PartialEq, Eq, Structural)]
pub enum CanvasLocation {
    TopLeft,
    TopRight,
    BottomRight,
    BottomLeft,
    Custom(CanvasRect),
}

/// The rectangle that a canvas location stands for: each preset anchors the
/// canvas flush against two screen edges, and a custom location is used as
/// given.
pub open spec fn canvas_position_spec(location: CanvasLocation) -> CanvasRect {
    match location {
        CanvasLocation::TopLeft => (CanvasRect {
            left: CanvasVal::Px(0),
            right: CanvasVal::Unset,
            top: CanvasVal::Px(0),
            bottom: CanvasVal::Unset,
        }),
        CanvasLocation::TopRight => (CanvasRect {
            left: CanvasVal::Unset,
            right: CanvasVal::Px(0),
            top: CanvasVal::Px(0),
            bottom: CanvasVal::Unset,
        }),
        CanvasLocation::BottomRight => (CanvasRect {
            left: CanvasVal::Unset,
            right: CanvasVal::Px(0),
            top: CanvasVal::Unset,
            bottom: CanvasVal::Px(0),
        }),
        CanvasLocation::BottomLeft => (CanvasRect {
            left: CanvasVal::Px(0),
            right: CanvasVal::Unset,
            top: CanvasVal::Unset,
            bottom: CanvasVal::Px(0),
        }),
        CanvasLocation::Custom(rect) => rect,
    }
}

/// Resolve a canvas location to the rectangle the UI node is laid out with.
pub fn canvas_position(location: &CanvasLocation) -> (r: CanvasRect)
    ensures
        r == canvas_position_spec(*location),
{
    match location {
        CanvasLocation::TopLeft => CanvasRect {
            left: CanvasVal::Px(0),
            right: CanvasVal::Unset,
            top: CanvasVal::Px(0),
            bottom: CanvasVal::Unset,
        },
        CanvasLocation::TopRight => CanvasRect {
            left: CanvasVal::Unset,
            right: CanvasVal::Px(0),
            top: CanvasVal::Px(0),
            bottom: CanvasVal::Unset,
        },
        CanvasLocation::BottomRight => CanvasRect {
            left: CanvasVal::Unset,
            right: CanvasVal::Px(0),
            top: CanvasVal::Unset,
            bottom: CanvasVal::Px(0),
        },
        CanvasLocation::BottomLeft => CanvasRect {
            left: CanvasVal::Px(0),
            right: CanvasVal::Unset,
            top: CanvasVal::Unset,
            bottom: CanvasVal::Px(0),
        },
        CanvasLocation::Custom(rect) => *rect,
    }
}

/// Options that enable plugin behavior customization.
/// Defaults to 64x64, `BottomLeft`.
#[derive(Clone, Copy, Debug, PartialEq, Eq, Structural)]
pub struct PluginOptions {
    pub size: u32,
    pub location: CanvasLocation,
}

impl Default for PluginOptions {
    fn default() -> (r: Self)
        ensures
            r.size == 64,
            r.location is BottomLeft,
    {
        Self { size: 64, location: CanvasLocation::BottomLeft }
    }
}

/// A plugin for displaying the reference frame orientation in a corner of
/// the screen that updates when the tracked rotator rotates.
#[derive(Clone, Copy, Debug, PartialEq, Eq, Structural)]
pub struct ViewportOrientationGizmoPlugin {
    pub options: PluginOptions,
}

impl ViewportOrientationGizmoPlugin {
    /// Displays a 64x64 gizmo in the bottom left corner of the screen.
    pub fn new() -> (r: Self)
        ensures
            r.options.size == 64,
            r.options.location is BottomLeft,
    {
        Self::new_sized(64)
    }

    /// Displays a gizmo with canvas size `size` in the bottom left corner of
    /// the screen.
    pub fn new_sized(size: u32) -> (r: Self)
        ensures
            r.options.size == size,
            r.options.location is BottomLeft,
    {
        let mut options = PluginOptions::default();
        options.size = size;
        Self::custom(options)
    }

    /// Displays a customized gizmo.
    pub fn custom(options: PluginOptions) -> (r: Self)
        ensures
            r.options == options,
    {
        Self { options }
    }
}

impl Default for ViewportOrientationGizmoPlugin {
    fn default() -> (r: Self)
        ensures
            r.options.size == 64,
            r.options.location is BottomLeft,
    {
        Self::new()
    }
}

/// Size and placement of the UI node that displays the gizmo's texture.
#[derive(Clone, Copy, Debug, PartialEq, Eq, Structural)]
pub struct CanvasStyle {
    pub width: u32,
    pub height: u32,
    pub position: CanvasRect,
}

/// The style of the canvas node for the given options: a square of the
/// configured size, placed at the configured location.
pub fn canvas_style(options: &PluginOptions) -> (r: CanvasStyle)
    ensures
        r.width == options.size,
        r.height == options.size,
        r.position == canvas_position_spec(options.location),
{
    CanvasStyle {
        width: options.size,
        height: options.size,
        position: canvas_position(&options.location),
    }
}

/// The extent (width, height, depth) of the off-screen texture the gizmo is
/// rendered to: a square of the configured size, one layer deep.
pub fn render_target_extent(options: &PluginOptions) -> (r: (u32, u32, u32))
    ensures
        r.0 == options.size,
        r.1 == options.size,
        r.2 == 1,
{
    (options.size, options.size, 1)
}

} // verus!
