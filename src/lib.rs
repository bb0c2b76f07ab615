//! A chain of rotating arms, each anchored at the end of the previous one,
//! and the state of the animation that draws it.

pub mod arm;
pub mod chain;
pub mod animator;
