//! A 3x3x3 twisty puzzle: the pose of every cubie, the moves that turn its
//! layers, the animation of the single turn in flight, seeded scrambling and
//! the solve clock.
//!
//! All of it is integer arithmetic. Positions are in tenths of a world unit,
//! orientations are the images of the three unit axes, times are in
//! microseconds and angles in microdegrees, so that every pose the puzzle
//! can reach is represented exactly.

pub mod clock;
pub mod cubie;
pub mod geometry;
pub mod laws;
pub mod moves;
pub mod scramble;
pub mod sim;
pub mod turn;
