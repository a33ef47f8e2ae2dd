//! An image-processing compiler: a strongly typed SSA command buffer of
//! high-level image operations is validated at build time, then linked,
//! monomorphized, planned and lowered into a flat stream of low-level
//! draw/copy/write operations for an abstract rasterization device.
pub mod bundle;
pub mod color;
pub mod command;
pub mod fp32;
pub mod layout;
pub mod link;
pub mod matrix;
pub mod program;
pub mod rect;
pub mod shaders;
pub mod texel;
