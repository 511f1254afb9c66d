//! Classification of a single filesystem path as empty or not, and the
//! confirmation-gated removal of what was found empty.
//!
//! The library makes no system call. It is a state machine: the driver asks a
//! state which probe to perform, performs it, and hands the answer back as an
//! event.
pub mod census;
pub mod laws;
pub mod machine;
pub mod model;
pub mod render;
pub mod style;
