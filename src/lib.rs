//! Integer-exact geometry for line joints: vector helpers, implicit line
//! equations and the intersection of two directed lines, plus the small state
//! machine behind an on-screen parameter menu.

pub mod geometry;
pub mod equation;
pub mod intersection;
pub mod menu;
pub mod parameter;
