//! A small library behind a date-and-time web page: it compiles an HTML
//! template set once per process, binds the current date and time into a
//! render context, and renders the index page or reports a classified error.
//!
//! The page carries two variables: `date` as `YYYY-MM-DD` and `time` as
//! `HH:MM:SS`. A compilation failure is not fatal to the process: it is
//! reported to the caller on every render until the templates are fixed
//! on disk, and nothing is cached until a compilation succeeds.

pub mod clock;
pub mod errors;
pub mod render;
