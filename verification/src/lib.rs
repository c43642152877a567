//! Event model for a window/game loop: a closed set of standard loop events
//! (currently a single time-step update) together with an open extension
//! mechanism for application-defined events identified by a namespaced id.
//!
//! Delta times are carried as the bit patterns of IEEE-754 double-precision
//! numbers, and all equality and ordering of events is defined on those bit
//! patterns with IEEE semantics, stated and proved in `float_bits`.

pub mod event;
pub mod float_bits;
