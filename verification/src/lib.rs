//! Concatenate line-oriented text sources, optionally numbering the lines.
//!
//! The library holds the rules: how command-line arguments become a
//! [`Config`], how each line is laid out, and how a run moves from one
//! source to the next. Reading and writing is left to the caller, which
//! performs what a [`Streamer`] asks for and reports back what happened.

pub mod args;
pub mod config;
pub mod layout;
pub mod stream;
pub mod streamer;
pub mod trace;

pub use args::{get_args, resolve, Exit, Matched};
pub use config::{Config, Numbering};
pub use layout::{decimal_string, numbered_line, plain_line};
pub use stream::{render_source, LineCounter};
pub use streamer::{is_standard_input, open_failure_line, Event, Next, Step, Streamer};
