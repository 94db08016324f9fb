//! A verified application host: the run loop that sequences window events,
//! frame setup, a per-frame hook, rendering and presentation.
//!
//! The library holds every decision of the loop. A driver performs the
//! window-system and GPU work that each [`Action`] names and reports what came
//! of it as an [`Input`].

pub mod host;
pub mod laws;
pub mod run_loop;
pub mod types;

pub use host::{App, HostView};
pub use run_loop::{Action, Input, LoopState, Phase, RunLoop};
pub use types::{AppError, AppState, Color, Event, MouseInput, FULL_CHANNEL, LIGHT_CHANNEL};
