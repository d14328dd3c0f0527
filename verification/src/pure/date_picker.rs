//! The decisions of a date picker widget.
//!
//! The widget wraps an underlay element and, on request, shows a picker
//! overlay above it. Which overlay the widget offers the host toolkit, and
//! where, is decided here; the shell around the library builds the overlay
//! element itself. Coordinates are kept in thousandths of a host unit, as
//! in [`crate::style`].

use vstd::prelude::*;

verus! {

/// A point on the screen, in thousandths of a host unit.
#[derive(Clone, Copy, Debug, PartialEq, Eq, Structural)]
pub struct Point {
    /// The horizontal coordinate.
    pub x: i64,
    /// The vertical coordinate.
    pub y: i64,
}

/// An axis-aligned rectangle on the screen, in thousandths of a host unit.
#[derive(Clone, Copy, Debug, PartialEq, Eq, Structural)]
pub struct Bounds {
    /// The horizontal coordinate of the left edge.
    pub x: i64,
    /// The vertical coordinate of the top edge.
    pub y: i64,
    /// The width of the rectangle.
    pub width: i64,
    /// The height of the rectangle.
    pub height: i64,
}

impl Bounds {
    /// The sides are not negative and the far corner stays on the axis.
    pub open spec fn wf(self) -> bool {
        &&& 0 <= self.width
        &&& 0 <= self.height
        &&& self.x + self.width <= i64::MAX
        &&& self.y + self.height <= i64::MAX
    }

    /// The centre of the rectangle, each coordinate rounded towards the
    /// near edge.
    pub open spec fn spec_center(self) -> Point {
        Point { x: (self.x + self.width / 2) as i64, y: (self.y + self.height / 2) as i64 }
    }

    /// The centre of the rectangle.
    pub fn center(&self) -> (p: Point)
        requires
            self.wf(),
        ensures
            p == self.spec_center(),
            p.x == self.x + self.width / 2,
            p.y == self.y + self.height / 2,
    {
        Point { x: self.x + self.width / 2, y: self.y + self.height / 2 }
    }
}

/// The overlay a date picker offers the host toolkit for one frame.
#[derive(Clone, Copy, Debug, PartialEq, Eq, Structural)]
pub enum OverlayRequest {
    /// The picker is closed: whatever overlay the underlay offers is passed
    /// through unchanged.
    Underlay,
    /// The picker is open: a picker overlay anchored at the given point.
    Picker(Point),
}

/// Which overlay a date picker offers, given whether the picker is shown
/// and the bounds the layout gave the underlay.
///
/// A shown picker is anchored at the centre of the underlay's bounds; a
/// hidden one leaves the overlay to the underlay.
pub fn overlay_request(show_picker: bool, bounds: &Bounds) -> (r: OverlayRequest)
    requires
        bounds.wf(),
    ensures
        r is Picker <==> show_picker,
        show_picker ==> r == OverlayRequest::Picker(bounds.spec_center()),
{
    if show_picker {
        OverlayRequest::Picker(bounds.center())
    } else {
        OverlayRequest::Underlay
    }
}

} // verus!
