//! Decision logic of a small desktop application shell.
//!
//! The shell greets a caller by name, reacts to window events, and plans
//! where the main window goes at startup. Everything here works on plain
//! values, so the windowing toolkit stays outside.

pub mod events;
pub mod greeting;
pub mod placement;
pub mod text;

pub use crate::events::on_window_event;
pub use crate::greeting::greet;
pub use crate::placement::plan_placement;
