//! The values that a `tracing` subscriber is handed, in a form that can cross the
//! boundary.

pub mod field;
pub mod interest;
pub mod kind;
pub mod level;
pub mod metadata;
pub mod span;
pub mod value;
