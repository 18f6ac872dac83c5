//! Small verified library of self-contained exercises: a number-guessing
//! game core, bounded wrapper types, simple geometry, string and slice
//! helpers, and a few generic utilities.

pub mod advanced;
pub mod basics;
pub mod boxes;
pub mod game;
pub mod generics;
pub mod guess;
pub mod lifetimes;
pub mod options;
pub mod ownership;
pub mod rect;
pub mod restaurant;
pub mod scores;
pub mod shapes;
pub mod slices;
pub mod strings;
pub mod summary;
