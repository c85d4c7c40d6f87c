//! A status-bar indicator for a modal text editor: it shows the current
//! edit mode and the partially typed command prefix (counts, register,
//! pending operators) as one line of text.

pub mod state;
pub mod description;
pub mod mode_indicator;
