//! Core engine of a snake game played on the surface of a cube.
//!
//! Six `N x N` grids form the cube's faces. Movement is face-relative; when
//! the head crosses the rim of a face, a fixed topology table carries it onto
//! the adjacent face and rotates its direction accordingly. The engine also
//! owns the body sequence, food placement, scoring, and the collision rules.

pub mod body;
pub mod clock;
pub mod food;
pub mod game;
pub mod topology;
