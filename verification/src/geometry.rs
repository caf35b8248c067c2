//! The bounds translator: from the logical bounds a caller asks for to the
//! rectangle a native window is given.

use vstd::prelude::*;

verus! {

/// Logical bounds of a pane as the caller requests them.
#[derive(Clone, Copy, Debug, PartialEq, Eq, Structural)]
pub struct Bounds {
    pub x: i32,
    pub y: i32,
    pub width: u32,
    pub height: u32,
}

/// Top-left corner of the main window's outer frame, in physical pixels.
#[derive(Clone, Copy, Debug, PartialEq, Eq, Structural)]
pub struct Origin {
    pub x: i32,
    pub y: i32,
}

/// The unit in which a placement is expressed.
#[derive(Clone, Copy, Debug, PartialEq, Eq, Structural)]
pub enum Units {
    /// Scale-independent units, as the caller supplied them.
    Logical,
    /// Device pixels, measured from the main window's origin.
    Physical,
}

/// A rectangle for a native window. Coordinates are wide enough to hold the
/// sum of an origin, a requested offset and a chrome offset without loss.
#[derive(Clone, Copy, Debug, PartialEq, Eq, Structural)]
pub struct ScreenRect {
    pub x: i64,
    pub y: i64,
    pub width: u32,
    pub height: u32,
}

/// Where a native window goes and in which unit the numbers are meant.
#[derive(Clone, Copy, Debug, PartialEq, Eq, Structural)]
pub struct Placement {
    pub rect: ScreenRect,
    pub units: Units,
}

/// Height left to a pane below the main window's chrome. A pane that is not
/// taller than the chrome keeps its height: it is neither clamped to zero nor
/// rejected.
pub open spec fn spec_effective_height(height: u32, offset: u32) -> u32 {
    if height > offset {
        (height - offset) as u32
    } else {
        height
    }
}

/// The placement of a pane. An embedded pane is measured from the main
/// window's origin and pushed down by the chrome offset; any other pane, and
/// an embedded one while there is no main window, keeps the requested bounds.
pub open spec fn spec_translate(
    bounds: Bounds,
    embedded: bool,
    main: Option<Origin>,
    offset: u32,
) -> Placement {
    if embedded && main is Some {
        Placement {
            rect: ScreenRect {
                x: (main->0.x + bounds.x) as i64,
                y: (main->0.y + bounds.y + offset) as i64,
                width: bounds.width,
                height: spec_effective_height(bounds.height, offset),
            },
            units: Units::Physical,
        }
    } else {
        Placement {
            rect: ScreenRect {
                x: bounds.x as i64,
                y: bounds.y as i64,
                width: bounds.width,
                height: bounds.height,
            },
            units: Units::Logical,
        }
    }
}

/// Height left to a pane below a chrome of `offset` pixels.
pub fn effective_height(height: u32, offset: u32) -> (result: u32)
    ensures
        result == spec_effective_height(height, offset),
{
    if height > offset {
        height - offset
    } else {
        height
    }
}

/// Computes the placement of a pane from its requested bounds, its mode, the
/// main window's current origin (if there is a main window) and the
/// platform's chrome offset.
pub fn translate(
    bounds: Bounds,
    embedded: bool,
    main: Option<Origin>,
    offset: u32,
) -> (placement: Placement)
    ensures
        placement == spec_translate(bounds, embedded, main, offset),
{
    match main {
        Some(origin) if embedded => {
            let x: i64 = origin.x as i64 + bounds.x as i64;
            let y: i64 = origin.y as i64 + bounds.y as i64 + offset as i64;
            Placement {
                rect: ScreenRect {
                    x,
                    y,
                    width: bounds.width,
                    height: effective_height(bounds.height, offset),
                },
                units: Units::Physical,
            }
        },
        _ => Placement {
            rect: ScreenRect {
                x: bounds.x as i64,
                y: bounds.y as i64,
                width: bounds.width,
                height: bounds.height,
            },
            units: Units::Logical,
        },
    }
}

/// An embedded pane taller than the chrome lands at the main window's origin
/// plus the requested position, pushed down by the chrome offset, with its
/// width unchanged and its height reduced by the chrome offset.
pub proof fn law_embedded_rectangle(bounds: Bounds, origin: Origin, offset: u32)
    requires
        bounds.height > offset,
    ensures
        spec_translate(bounds, true, Some(origin), offset).rect.x == origin.x + bounds.x,
        spec_translate(bounds, true, Some(origin), offset).rect.y == origin.y + bounds.y + offset,
        spec_translate(bounds, true, Some(origin), offset).rect.width == bounds.width,
        spec_translate(bounds, true, Some(origin), offset).rect.height == bounds.height - offset,
{
}

/// An embedded pane that is not taller than the chrome is still moved, but
/// keeps its height.
pub proof fn law_short_pane_keeps_height(bounds: Bounds, origin: Origin, offset: u32)
    requires
        bounds.height <= offset,
    ensures
        spec_translate(bounds, true, Some(origin), offset).rect.x == origin.x + bounds.x,
        spec_translate(bounds, true, Some(origin), offset).rect.y == origin.y + bounds.y + offset,
        spec_translate(bounds, true, Some(origin), offset).rect.width == bounds.width,
        spec_translate(bounds, true, Some(origin), offset).rect.height == bounds.height,
{
}

/// An independent pane keeps the requested bounds, wherever the main window
/// is and whatever the chrome offset.
pub proof fn law_independent_rectangle(bounds: Bounds, main: Option<Origin>, offset: u32)
    ensures
        spec_translate(bounds, false, main, offset).rect.x == bounds.x,
        spec_translate(bounds, false, main, offset).rect.y == bounds.y,
        spec_translate(bounds, false, main, offset).rect.width == bounds.width,
        spec_translate(bounds, false, main, offset).rect.height == bounds.height,
        spec_translate(bounds, false, main, offset).units == Units::Logical,
{
}

/// The width of a pane is never offset, and its height never grows.
pub proof fn law_width_never_offset(
    bounds: Bounds,
    embedded: bool,
    main: Option<Origin>,
    offset: u32,
)
    ensures
        spec_translate(bounds, embedded, main, offset).rect.width == bounds.width,
        spec_translate(bounds, embedded, main, offset).rect.height <= bounds.height,
{
}

/// An embedded pane follows the main window: when the main window's origin
/// moves, the pane's position moves by the same amount and its size stays.
pub proof fn law_embedded_pane_follows_origin(
    bounds: Bounds,
    before: Origin,
    after: Origin,
    offset: u32,
)
    ensures
        spec_translate(bounds, true, Some(after), offset).rect.x - spec_translate(
            bounds,
            true,
            Some(before),
            offset,
        ).rect.x == after.x - before.x,
        spec_translate(bounds, true, Some(after), offset).rect.y - spec_translate(
            bounds,
            true,
            Some(before),
            offset,
        ).rect.y == after.y - before.y,
        spec_translate(bounds, true, Some(after), offset).rect.width == spec_translate(
            bounds,
            true,
            Some(before),
            offset,
        ).rect.width,
        spec_translate(bounds, true, Some(after), offset).rect.height == spec_translate(
            bounds,
            true,
            Some(before),
            offset,
        ).rect.height,
{
}

} // verus!
