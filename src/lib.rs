//! Concurrency core of a terminal-UI runtime: a snapshot-consistent flag
//! register, the event types and bounded event channel, the colour and theme
//! model, and the decisions of the run loop.

pub mod colors;
pub mod error;
pub mod event;
pub mod runloop;
pub mod state;
pub mod theme;

pub use colors::{Color, ThemeColorize};
pub use error::{OxittyError, OxittyResult};
pub use event::{Event, EventHandler};
pub use state::{AtomicState, StateSnapshot};
