//! The palette of the built-in dark theme.

pub mod background;
pub mod base16;
pub mod semantic;
pub mod status;
pub mod text;
pub mod void;
