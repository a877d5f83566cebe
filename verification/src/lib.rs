//! Simulation of a projectile (a basketball) thrown with an initial
//! position and velocity under constant gravity, together with the logic
//! that decides whether the ball passes within a capture radius of a
//! target (the basket), a character-grid plot of the flight, and an SVG
//! rendering of the path with an animated marker.
//!
//! All physical quantities are fixed-point integers: positions in
//! micrometers, times in milliseconds, velocities in micrometers per
//! millisecond (equal to millimeters per second), gravity in nanometers
//! per squared millisecond.  The trigonometric decomposition of the
//! launch angle into velocity components is left to the caller, so the
//! whole simulation is exact integer arithmetic.

pub mod numfmt;

pub mod sim;

pub mod grid;

pub mod svg_gen;

pub mod plot;
