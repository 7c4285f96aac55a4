//! Display subsystem of a ZX Spectrum emulator: address codec, colour model
//! and a beam-aware renderer producing an RGBA frame.

pub mod address;
pub mod color;
pub mod geometry;
pub mod machine;
pub mod model;
pub mod raster;
pub mod screen;
pub mod timing;
