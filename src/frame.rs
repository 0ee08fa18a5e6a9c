use vstd::prelude::*;

use crate::curve::{Pixel, Segment};
use crate::screen::{SCREEN_HEIGHT, SCREEN_WIDTH};

verus! {

/// Radius of a marker, in pixels, both horizontally and vertically.
pub const MARKER_RADIUS: i32 = 5;

/// Size of the overlay text, in pixels.
pub const TEXT_SIZE: i32 = 24;

/// Left edge of the overlay text.
pub const TEXT_LEFT: i32 = 12;

/// Title shown at the top of the overlay.
pub const TITLE: &'static str = "Newton Raphson";

/// The colours a frame uses.
#[derive(Clone, Copy, Debug, PartialEq, Eq, Structural)]
pub enum Paint {
    Purple,
    Black,
    White,
    Yellow,
    Red,
    Green,
}

/// One primitive drawing operation, in screen pixels.
#[derive(Clone, Debug)]
pub enum DrawCommand {
    Line { seg: Segment, paint: Paint },
    Clear { paint: Paint },
    Text { text: String, x: i32, y: i32, size: i32, paint: Paint },
    Ellipse { center: Pixel, radius: i32, paint: Paint },
}

/// Colour of the markers: green when both searches sit exactly on a root,
/// red otherwise.
pub open spec fn marker_paint(y_is_zero: bool, y2_is_zero: bool) -> Paint {
    if y_is_zero && y2_is_zero {
        Paint::Green
    } else {
        Paint::Red
    }
}

/// The vertical axis: a full-height line through the screen's centre.
pub open spec fn vertical_axis() -> Segment {
    Segment {
        from: Pixel { x: (SCREEN_WIDTH / 2) as i32, y: 0 },
        to: Pixel { x: (SCREEN_WIDTH / 2) as i32, y: SCREEN_HEIGHT },
    }
}

/// The horizontal axis: a full-width line through the screen's centre.
pub open spec fn horizontal_axis() -> Segment {
    Segment {
        from: Pixel { x: 0, y: (SCREEN_HEIGHT / 2) as i32 },
        to: Pixel { x: SCREEN_WIDTH, y: (SCREEN_HEIGHT / 2) as i32 },
    }
}

/// `c` draws the text `s` in white at the overlay's size, from (`TEXT_LEFT`, `y`).
pub open spec fn is_overlay_text(c: DrawCommand, s: Seq<char>, y: int) -> bool {
    match c {
        DrawCommand::Text { text, x: cx, y: cy, size, paint } => text@ == s && cx == TEXT_LEFT
            && cy == y && size == TEXT_SIZE && paint == Paint::White,
        _ => false,
    }
}

/// The marker colour for the current frame, given whether f(x) and f(x2)
/// are exactly zero.
pub fn marker_color(y_is_zero: bool, y2_is_zero: bool) -> (r: Paint)
    ensures
        r == marker_paint(y_is_zero, y2_is_zero),
{
    if y2_is_zero && y_is_zero {
        Paint::Green
    } else {
        Paint::Red
    }
}

fn axis_lines() -> (r: (Segment, Segment))
    ensures
        r.0 == vertical_axis(),
        r.1 == horizontal_axis(),
{
    let vertical = Segment {
        from: Pixel { x: SCREEN_WIDTH / 2, y: 0 },
        to: Pixel { x: SCREEN_WIDTH / 2, y: SCREEN_HEIGHT },
    };
    let horizontal = Segment {
        from: Pixel { x: 0, y: SCREEN_HEIGHT / 2 },
        to: Pixel { x: SCREEN_WIDTH, y: SCREEN_HEIGHT / 2 },
    };
    (vertical, horizontal)
}

/// The whole frame, in drawing order: the curve in purple, the background
/// cleared to black, the title and the two status lines, the two axes in
/// yellow, and the two markers. The order is kept as it is: the clear comes
/// after the curve and so paints over it.
pub fn frame_plan(
    curve: &Vec<Segment>,
    status: String,
    status2: String,
    marker: Pixel,
    marker2: Pixel,
    y_is_zero: bool,
    y2_is_zero: bool,
) -> (r: Vec<DrawCommand>)
    requires
        curve@.len() + 8 <= usize::MAX,
    ensures
        r@.len() == curve@.len() + 8,
        forall|i: int|
            0 <= i < curve@.len() ==> r@[i] == (DrawCommand::Line {
                seg: curve@[i],
                paint: Paint::Purple,
            }),
        r@[curve@.len() as int] == (DrawCommand::Clear { paint: Paint::Black }),
        is_overlay_text(r@[curve@.len() + 1int], TITLE@, 12),
        is_overlay_text(r@[curve@.len() + 2int], status@, 36),
        is_overlay_text(r@[curve@.len() + 3int], status2@, 60),
        r@[curve@.len() + 4int] == (DrawCommand::Line { seg: vertical_axis(), paint: Paint::Yellow }),
        r@[curve@.len() + 5int] == (DrawCommand::Line { seg: horizontal_axis(), paint: Paint::Yellow }),
        r@[curve@.len() + 6int] == (DrawCommand::Ellipse {
            center: marker,
            radius: MARKER_RADIUS,
            paint: marker_paint(y_is_zero, y2_is_zero),
        }),
        r@[curve@.len() + 7int] == (DrawCommand::Ellipse {
            center: marker2,
            radius: MARKER_RADIUS,
            paint: marker_paint(y_is_zero, y2_is_zero),
        }),
{
    let mut r: Vec<DrawCommand> = Vec::new();
    let mut i: usize = 0;
    while i < curve.len()
        invariant
            i <= curve@.len(),
            r@.len() == i,
            forall|j: int|
                0 <= j < i ==> r@[j] == (DrawCommand::Line { seg: curve@[j], paint: Paint::Purple }),
        decreases curve@.len() - i,
    {
        r.push(DrawCommand::Line { seg: curve[i], paint: Paint::Purple });
        i = i + 1;
    }
    r.push(DrawCommand::Clear { paint: Paint::Black });
    let title = String::from_str(TITLE);
    r.push(DrawCommand::Text { text: title, x: TEXT_LEFT, y: 12, size: TEXT_SIZE, paint: Paint::White });
    r.push(DrawCommand::Text { text: status, x: TEXT_LEFT, y: 36, size: TEXT_SIZE, paint: Paint::White });
    r.push(DrawCommand::Text { text: status2, x: TEXT_LEFT, y: 60, size: TEXT_SIZE, paint: Paint::White });
    let (vertical, horizontal) = axis_lines();
    r.push(DrawCommand::Line { seg: vertical, paint: Paint::Yellow });
    r.push(DrawCommand::Line { seg: horizontal, paint: Paint::Yellow });
    let color = marker_color(y_is_zero, y2_is_zero);
    r.push(DrawCommand::Ellipse { center: marker, radius: MARKER_RADIUS, paint: color });
    r.push(DrawCommand::Ellipse { center: marker2, radius: MARKER_RADIUS, paint: color });
    r
}

} // verus!
