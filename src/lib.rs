//! A two-paddle ball game simulated on a fixed-point grid: rectangle
//! collision with face detection, wall layout, paddle control, velocity
//! integration and collision response, all stepped one fixed tick at a time.
pub mod arena;
pub mod geometry;
pub mod motion;
pub mod world;
