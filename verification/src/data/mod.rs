//! The tree of values that a blueprint decodes into.

pub mod area;
pub mod belt;
pub mod blueprint;
pub mod building;
pub mod enums;
pub mod station;
pub mod traits;
pub mod vec;
pub mod visit;
