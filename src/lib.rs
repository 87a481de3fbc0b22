//! Typed bridge to a reference-counted, message-passing object runtime.
//!
//! Foreign objects are reached through handles; every operation on them is a
//! message the dispatcher performs; each wrapper owns at most one retain on its
//! object and gives it back exactly once; values cross the boundary in the
//! runtime's fixed layouts.
pub mod array;
pub mod color;
pub mod dictionary;
pub mod enums;
pub mod geometry;
pub mod locale;
pub mod marshal;
pub mod number;
pub mod ownership;
pub mod pool;
pub mod runtime;
pub mod text;
pub mod traits;
