//! The decisions of the plugin's actions: titles, characteristic selection,
//! the Switch toggle with its confirmation, and error reporting.

pub mod common;
pub mod switch;
pub mod set_state;
pub mod adjust;
pub mod brightness;
