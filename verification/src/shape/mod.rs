//! Shapes that can be tested against each other and against rays.

pub mod rectangle;
