//! Real-time audio bridge: hands decoded sample chunks from an emulated sound
//! device to a fixed-cadence output callback, with live volume and live
//! replacement of the sample source.

pub mod bridge;
pub mod config;
pub mod input;
pub mod render;
pub mod slot;
pub mod volume;
