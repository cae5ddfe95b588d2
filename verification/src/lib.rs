//! A minimal NES graphics output library: palette lookup, nearest-neighbour
//! scaling of 256×240 palette-indexed frames, and a software compositor.
pub mod config;
pub mod ffi;
pub mod frame;
pub mod gpu;
pub mod mcu;
pub mod palette;
pub mod scale;
pub mod surface;
