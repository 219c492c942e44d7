//! Simulation of colour-vision deficiencies as a linear mix of the RGB channels.
//!
//! A [`ColorBlindnessMode`] selects one of nine fixed channel-mixing matrices
//! ([`ColorBlindnessPercentages`]); a [`ColorBlindnessCamera`] holds the mode and an
//! on/off switch for one camera, and [`update_percentages`] derives from it the
//! matrix that a rendering stage applies to every pixel.

pub mod camera;
pub mod mode;
pub mod percentages;
pub mod table;

pub use camera::{update_percentages, ColorBlindnessCamera, ColorBlindnessPostProcess};
pub use mode::{ColorBlindnessMode, MODE_COUNT};
pub use percentages::{ColorBlindnessPercentages, MixRow, MIX_SCALE};
