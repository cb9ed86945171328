//! Filters the diagnostics of a compiler by the source path they report, so
//! that only those under the wanted paths are shown.

pub mod ansi_state_machine;
pub mod block_lemmas;
pub mod error;
pub mod line_filter;
pub mod pattern;
pub mod session;
pub mod simple_state_machine;
pub mod state;
pub mod token;

pub use error::FilterError;
pub use pattern::path_matches;
pub use state::{State, StateMachine};
