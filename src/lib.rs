//! Turns raster frames into chunks of map color indices for a target platform
//! with a small fixed palette: each frame is centered on a canvas of whole
//! 128 by 128 chunks, quantized to the nearest palette color with error
//! diffusion, and cut into chunks in row-major order.
pub mod cli;
pub mod color_list;
pub mod colors;
pub mod dither;
pub mod generator;
pub mod kd;
pub mod processor;
pub mod tiling;
