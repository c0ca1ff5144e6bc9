//! Reactions to window events.
//!
//! The shell treats one window specially: when the window labelled
//! [`ABOUT_WINDOW_LABEL`] is asked to close, the whole process ends. Every
//! other event is left to the toolkit's default handling.

use vstd::prelude::*;
use crate::text::same_text;

verus! {

/// Label of the application's primary window.
pub const MAIN_WINDOW_LABEL: &'static str = "main";

/// Label of the secondary window whose closing ends the process.
pub const ABOUT_WINDOW_LABEL: &'static str = "about";

/// Exit status of a process that ends because the about window closed.
pub const EXIT_STATUS: i32 = 0;

/// What happened to a window, as far as the shell cares.
#[derive(Clone, Copy, Debug, PartialEq, Eq, Structural)]
pub enum WindowEvent {
    /// The user or the system asked the window to close.
    CloseRequested,
    /// Anything else: a move, a resize, a change of focus.
    Other,
}

/// What the shell does about a window event.
#[derive(Clone, Copy, Debug, PartialEq, Eq, Structural)]
pub enum Reaction {
    /// End the process at once with the given status.
    Exit { status: i32 },
    /// Do nothing; the toolkit's default handling applies.
    Ignore,
}

/// Whether `event`, on the window labelled `label`, ends the process.
pub open spec fn ends_process(label: Seq<char>, event: WindowEvent) -> bool {
    event is CloseRequested && label == ABOUT_WINDOW_LABEL@
}

/// The reaction to `event` on the window labelled `label`.
pub open spec fn reaction_to(label: Seq<char>, event: WindowEvent) -> Reaction {
    if ends_process(label, event) {
        Reaction::Exit { status: EXIT_STATUS }
    } else {
        Reaction::Ignore
    }
}

/// Decides what to do about `event` on the window labelled `label`.
///
/// A close request on the about window ends the process with
/// [`EXIT_STATUS`]. Labels are compared exactly, character by character.
pub fn on_window_event(label: &str, event: WindowEvent) -> (reaction: Reaction)
    ensures
        reaction == reaction_to(label@, event),
        reaction is Exit <==> ends_process(label@, event),
        reaction matches Reaction::Exit { status } ==> status == 0,
{
    match event {
        WindowEvent::CloseRequested => {
            if same_text(label, ABOUT_WINDOW_LABEL) {
                Reaction::Exit { status: EXIT_STATUS }
            } else {
                Reaction::Ignore
            }
        },
        WindowEvent::Other => Reaction::Ignore,
    }
}

} // verus!
