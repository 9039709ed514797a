//! The meshes the gizmo is built from, as plain data: three axis-aligned
//! bars with fixed colors, one per reference axis. The host turns each part
//! into a mesh and a material; the clickable variant also tags each part
//! with the axis it stands for so that clicks on it can be recognized.

use vstd::prelude::*;

use crate::click_reaction::GizmoClickableAxis;

verus! {

/// An sRGB color with 8-bit channels.
#[derive(Clone, Copy, Debug, PartialEq, Eq, Structural)]
pub struct Rgb {
    pub r: u8,
    pub g: u8,
    pub b: u8,
}

/// Extents of an axis-aligned box that starts at the origin, in hundredths
/// of a scene unit per coordinate.
#[derive(Clone, Copy, Debug, PartialEq, Eq, Structural)]
pub struct BoxExtents {
    pub x: u32,
    pub y: u32,
    pub z: u32,
}

/// One bar of the gizmo: its box, its color, and, where the bar is meant to
/// be clickable, the axis it stands for.
#[derive(Clone, Copy, Debug, PartialEq, Eq, Structural)]
pub struct GizmoPart {
    pub extents: BoxExtents,
    pub color: Rgb,
    pub axis: Option<GizmoClickableAxis>,
}

/// The color of the bar along the x axis: red.
pub open spec fn x_bar_color() -> Rgb {
    Rgb { r: 0xb8, g: 0x27, b: 0x00 }
}

/// The color of the bar along the y axis: green.
pub open spec fn y_bar_color() -> Rgb {
    Rgb { r: 0x5d, g: 0x99, b: 0x00 }
}

/// The color of the bar along the z axis: blue.
pub open spec fn z_bar_color() -> Rgb {
    Rgb { r: 0x2e, g: 0x78, b: 0xe4 }
}

/// The three bars of a gizmo whose bars are `thickness` hundredths of a unit
/// thick and one unit long, each tagged with its axis when `clickable`.
pub open spec fn gizmo_parts_spec(thickness: u32, clickable: bool) -> Seq<GizmoPart> {
    seq![
        GizmoPart {
            extents: BoxExtents { x: 100, y: thickness, z: thickness },
            color: x_bar_color(),
            axis: if clickable { Some(GizmoClickableAxis::X) } else { None },
        },
        GizmoPart {
            extents: BoxExtents { x: thickness, y: 100, z: thickness },
            color: y_bar_color(),
            axis: if clickable { Some(GizmoClickableAxis::Y) } else { None },
        },
        GizmoPart {
            extents: BoxExtents { x: thickness, y: thickness, z: 100 },
            color: z_bar_color(),
            axis: if clickable { Some(GizmoClickableAxis::Z) } else { None },
        },
    ]
}

/// The default gizmo: three thin unclickable bars, five hundredths of a unit
/// thick.
pub fn default_gizmo_parts() -> (parts: Vec<GizmoPart>)
    ensures
        parts@ == gizmo_parts_spec(5, false),
{
    gizmo_parts(5, false)
}

/// The default clickable gizmo: the same three bars, fifteen hundredths of a
/// unit thick, each tagged with the axis it stands for.
pub fn clickable_gizmo_parts() -> (parts: Vec<GizmoPart>)
    ensures
        parts@ == gizmo_parts_spec(15, true),
{
    gizmo_parts(15, true)
}

/// Build the three bars of a gizmo with the given bar thickness, tagging
/// each bar with its axis when `clickable`.
pub fn gizmo_parts(thickness: u32, clickable: bool) -> (parts: Vec<GizmoPart>)
    ensures
        parts@ == gizmo_parts_spec(thickness, clickable),
{
    let mut parts: Vec<GizmoPart> = Vec::new();
    parts.push(GizmoPart {
        extents: BoxExtents { x: 100, y: thickness, z: thickness },
        color: Rgb { r: 0xb8, g: 0x27, b: 0x00 },
        axis: if clickable { Some(GizmoClickableAxis::X) } else { None },
    });
    parts.push(GizmoPart {
        extents: BoxExtents { x: thickness, y: 100, z: thickness },
        color: Rgb { r: 0x5d, g: 0x99, b: 0x00 },
        axis: if clickable { Some(GizmoClickableAxis::Y) } else { None },
    });
    parts.push(GizmoPart {
        extents: BoxExtents { x: thickness, y: thickness, z: 100 },
        color: Rgb { r: 0x2e, g: 0x78, b: 0xe4 },
        axis: if clickable { Some(GizmoClickableAxis::Z) } else { None },
    });
    proof {
        assert(parts@ =~= gizmo_parts_spec(thickness, clickable));
    }
    parts
}

} // verus!
