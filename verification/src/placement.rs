//! Where the main window goes at startup.
//!
//! The window is anchored [`LEFT_OFFSET`] logical units from the left edge
//! of its display and centred vertically. Sizes arrive in physical pixels.
//! The plan keeps them so: the display's scale factor is a fraction, and
//! the caller divides by it when it applies the plan.

use vstd::prelude::*;

verus! {

/// Distance of the window from the left edge of its display, in logical units.
pub const LEFT_OFFSET: u32 = 20;

/// A width and a height in physical pixels.
#[derive(Clone, Copy, Debug, PartialEq, Eq, Structural)]
pub struct PhysicalSize {
    pub width: u32,
    pub height: u32,
}

/// What could be learned about a window that was found.
#[derive(Clone, Copy, Debug, PartialEq, Eq, Structural)]
pub struct WindowProbe {
    /// Size of the display that the window is on, if the display is known.
    pub display: Option<PhysicalSize>,
    /// Inner size of the window, if it could be read.
    pub window: Option<PhysicalSize>,
}

/// A decision to move the window.
///
/// With `s` the scale factor of the display, the caller puts the window's
/// top edge at `(display_height / s - window_height / s) / 2` logical units
/// and its left edge at `x`.
#[derive(Clone, Copy, Debug, PartialEq, Eq, Structural)]
pub struct Placement {
    /// Horizontal position, in logical units from the display's left edge.
    pub x: u32,
    /// Height of the display, in physical pixels.
    pub display_height: u32,
    /// Height of the window, in physical pixels.
    pub window_height: u32,
}

/// Whether anything that a placement needs is missing: the window itself,
/// its display, or its size.
pub open spec fn metadata_missing(main_window: Option<WindowProbe>) -> bool {
    match main_window {
        None => true,
        Some(probe) => probe.display is None || probe.window is None,
    }
}

/// The placement that follows from what is known of the main window.
pub open spec fn planned_placement(main_window: Option<WindowProbe>) -> Option<Placement> {
    if metadata_missing(main_window) {
        None
    } else {
        Some(
            Placement {
                x: LEFT_OFFSET,
                display_height: main_window->0.display->0.height,
                window_height: main_window->0.window->0.height,
            },
        )
    }
}

/// Plans the position of the main window.
///
/// `main_window` is `None` where the window was not found. The result is
/// `None`, and the window stays where it is, as soon as the window, its
/// display or its size is missing. Otherwise the plan carries the fixed
/// horizontal offset and the two heights to centre by. Widths play no
/// part, and a window taller than its display is planned like any other.
pub fn plan_placement(main_window: Option<WindowProbe>) -> (plan: Option<Placement>)
    ensures
        plan == planned_placement(main_window),
        plan is None <==> metadata_missing(main_window),
        plan matches Some(p) ==> p.x == 20,
{
    match main_window {
        None => None,
        Some(probe) => match (probe.display, probe.window) {
            (Some(display), Some(window)) => Some(
                Placement {
                    x: LEFT_OFFSET,
                    display_height: display.height,
                    window_height: window.height,
                },
            ),
            _ => None,
        },
    }
}

} // verus!
