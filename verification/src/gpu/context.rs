use vstd::prelude::*;
use crate::config::Config;
use crate::frame::Frame;
use crate::palette::Palette;
use crate::surface::{Error, Surface};

verus! {

/// GPU-accelerated rendering context.
///
/// Meant to open a window and composite NES frames onto it with hardware
/// scaling; no window or device is created yet.
pub struct GpuContext {
    width: u32,
    height: u32,
}

impl View for GpuContext {
    /// The output dimensions, width first.
    type V = (u32, u32);

    closed spec fn view(&self) -> (u32, u32) {
        (self.width, self.height)
    }
}

impl GpuContext {
    /// What opening a GPU context for `config` gives: no window or GPU
    /// device can be created yet, so every config is answered with
    /// `Error::Unsupported`.
    pub open spec fn opened(config: Config, r: Result<GpuContext, Error>) -> bool {
        r matches Err(Error::Unsupported)
    }

    /// Create a new GPU context and open a window.
    pub fn new(config: &Config) -> (r: Result<Self, Error>)
        ensures
            Self::opened(*config, r),
    {
        Err(Error::Unsupported)
    }
}

impl Surface for GpuContext {
    /// Presenting is not available yet: always `Error::Unsupported`, and the
    /// context is left as it was.
    fn render(&mut self, frame: &Frame, palette: &Palette) -> (r: Result<(), Error>)
        ensures
            r matches Err(Error::Unsupported),
            final(self)@ == old(self)@,
    {
        Err(Error::Unsupported)
    }

    /// Records the new output dimensions.
    fn resize(&mut self, width: u32, height: u32) -> (r: Result<(), Error>)
        ensures
            r matches Ok(()),
            final(self)@ == (width, height),
    {
        self.width = width;
        self.height = height;
        Ok(())
    }

    /// Current output dimensions.
    fn dimensions(&self) -> (d: (u32, u32))
        ensures
            d == self@,
    {
        (self.width, self.height)
    }
}

} // verus!
