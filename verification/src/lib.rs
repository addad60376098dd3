//! Tilt-reactive animations for an 8x8 LED matrix: the accelerometer
//! protocol, the four pattern generators and the rule that picks one of
//! them from an orientation sample.

pub mod animations;
pub mod dispatch;
pub mod frame;
pub mod lis3dh;
