//! Quetty's terminal interface logic: validation of user input and
//! configuration, the state machines of the interactive components, and the
//! text the interface shows.
pub mod common;
pub mod config;
pub mod config_screen;
pub mod constants;
pub mod defaults;
pub mod error;
pub mod help;
pub mod input;
pub mod keys;
pub mod logging;
pub mod message_details;
pub mod message_validation;
pub mod messages;
pub mod pickers;
pub mod popups;
pub mod profiles;
pub mod setup;
pub mod text;
pub mod theme_picker;
pub mod validation_patterns;
