//! The picture processor: its registers, tile decoding and the screen image.

pub mod gpu;
pub mod gpu_registers;
pub mod laws;
pub mod screen_image;
