//! A verified core for an interactive database console: classification of
//! input into console directives versus server-bound statements, accumulation
//! of multi-line statements, rendering of typed result cells, and two-pass
//! column-width computation for aligned table output.

pub mod accum;
pub mod classify;
pub mod numfmt;
pub mod session;
pub mod style;
pub mod table;
pub mod text;
pub mod value;
