//! The window as the cameras see it: its identity, its size in physical
//! pixels, and the notice that its size has changed.

use vstd::prelude::*;
use crate::geometry::Viewport;

verus! {

/// Which window an event is about.
#[derive(Clone, Copy, Debug, PartialEq, Eq, Structural)]
pub enum WindowId {
    /// The window that the cameras render to.
    Primary,
    /// Any other window.
    Secondary,
}

impl WindowId {
    /// The id of the primary window.
    pub fn primary() -> (id: WindowId)
        ensures
            id == WindowId::Primary,
    {
        WindowId::Primary
    }

    /// Whether this is the id of the primary window.
    pub fn is_primary(&self) -> (b: bool)
        ensures
            b == (*self == WindowId::Primary),
    {
        match self {
            WindowId::Primary => true,
            WindowId::Secondary => false,
        }
    }
}

/// The client area of the primary window, in physical pixels.
#[derive(Clone, Copy, Debug, PartialEq, Eq, Structural)]
pub struct Window {
    pub physical_width: u32,
    pub physical_height: u32,
}

impl Window {
    /// A window of the given size.
    pub fn new(physical_width: u32, physical_height: u32) -> (window: Window)
        ensures
            window == (Window { physical_width, physical_height }),
    {
        Window { physical_width, physical_height }
    }

    /// The width of the client area.
    pub fn physical_width(&self) -> (width: u32)
        ensures
            width == self.physical_width,
    {
        self.physical_width
    }

    /// The height of the client area.
    pub fn physical_height(&self) -> (height: u32)
        ensures
            height == self.physical_height,
    {
        self.physical_height
    }

    /// Whether the pixel in column `x` and row `y` lies inside the window.
    pub open spec fn contains(self, x: int, y: int) -> bool {
        &&& 0 <= x < self.physical_width
        &&& 0 <= y < self.physical_height
    }

    /// The number of pixels inside the window.
    pub open spec fn area(self) -> int {
        self.physical_width * self.physical_height
    }

    /// Whether every pixel of `viewport` lies inside the window.
    pub open spec fn encloses(self, viewport: Viewport) -> bool {
        forall|x: int, y: int| #[trigger] viewport.contains(x, y) ==> self.contains(x, y)
    }
}

/// The notice that a window has changed its size.
///
/// It names the window only: the new size is read from the window itself.
#[derive(Clone, Copy, Debug, PartialEq, Eq, Structural)]
pub struct WindowResized {
    pub id: WindowId,
}

/// Whether one of the events is about the primary window.
pub open spec fn primary_resized(events: Seq<WindowResized>) -> bool {
    exists|i: int| 0 <= i < events.len() && (#[trigger] events[i]).id == WindowId::Primary
}

/// Tells whether one of the events is about the primary window.
pub fn primary_window_resized(resize_events: &Vec<WindowResized>) -> (resized: bool)
    ensures
        resized == primary_resized(resize_events@),
{
    let mut i: usize = 0;
    while i < resize_events.len()
        invariant
            i <= resize_events.len(),
            forall|j: int| 0 <= j < i ==> (#[trigger] resize_events@[j]).id != WindowId::Primary,
        decreases resize_events.len() - i,
    {
        if resize_events[i].id.is_primary() {
            return true;
        }
        i += 1;
    }
    false
}

} // verus!
