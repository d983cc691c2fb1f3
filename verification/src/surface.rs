//! What passes between the controller and the window surface.
//!
//! The host performs every operation on the native surface. Before it
//! places the surface it asks the controller for a [`Placement`]; after any
//! operation that the record depends on it hands the controller the
//! surface's [`SurfaceReply`]. The record changes only on an acknowledged
//! operation. A scroll of the host is passed on as a [`ScrollEvent`] and
//! leaves the record alone.

use vstd::prelude::*;

use crate::geometry::{LogicalPosition, LogicalSize, Scalar};

verus! {

/// How the window surface answered an operation.
#[derive(Clone, Debug, PartialEq, Eq)]
pub enum SurfaceReply {
    /// The operation was carried out.
    Acknowledged,
    /// The surface could not be reached; the text is the surface's own.
    Unavailable(String),
}

/// Why a command did not take effect.
#[derive(Clone, Debug, PartialEq, Eq)]
pub enum AdsError {
    /// A width or height was below zero, infinite or not a number.
    InvalidGeometry,
    /// The surface could not be reached; the text is the surface's own.
    SurfaceUnavailable(String),
}

/// Where the surface is to be put, and whether it is to be visible there.
#[derive(Clone, Copy, Debug, PartialEq, Eq, Structural)]
pub struct Placement {
    pub position: LogicalPosition,
    pub size: LogicalSize,
    pub shown: bool,
}

/// The display hint that is forwarded to the surface when the host scrolls.
#[derive(Clone, Copy, Debug, PartialEq, Eq, Structural)]
pub struct ScrollEvent {
    pub scroll: Scalar,
}

/// Builds the hint for a scroll offset. The offset is passed on as it is,
/// and the record is not involved.
pub fn scroll_ads_window(scroll: Scalar) -> (event: ScrollEvent)
    ensures
        event == (ScrollEvent { scroll }),
{
    ScrollEvent { scroll }
}

} // verus!
