//! Aiming, launching and level progression for a small 3D ball game: pointer
//! input, the drag-to-aim gesture and its power curve, the launch impulse,
//! the orbit camera, the naming convention of level scene nodes, and the
//! level's win/lose state machine. Screen positions are whole pixels, world
//! positions millimetres, angles microradians, and fractions thousandths.

pub mod camera;
pub mod classify;
pub mod drag;
pub mod geometry;
pub mod gestures;
pub mod idset;
pub mod inputs;
pub mod launch;
pub mod level;
pub mod menu;
pub mod power;
