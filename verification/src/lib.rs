//! Streaming classification of movement direction.
//!
//! Once per tick a linear-acceleration measurement comes in, and the answer
//! is a coarse label of the movement: horizontal, vertical, diagonal, or no
//! movement. The stages are a smoothing window of raw measurements, a
//! quantile denoiser over the horizontal and the vertical energy stream, and
//! a threshold and angle classifier.
//!
//! Energies, thresholds and angles are handled as ordered integer keys (see
//! [`sample`]), so every stage here is a matter of windows, order and
//! thresholds. The arithmetic on measurements is the caller's and enters a
//! tick as two functions: one from the smoothing window to the energies of
//! the smoothed measurement, one from two energies to their angle (see
//! [`analysis::Analysis::add_measurement`]).

pub mod analysis;
pub mod detection;
pub mod direction;
pub mod quantile;
pub mod replay;
pub mod sample;
pub mod sorting;
pub mod window;
