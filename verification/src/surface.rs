use vstd::prelude::*;
use crate::config::Config;
use crate::frame::Frame;
use crate::gpu::context::GpuContext;
use crate::palette::Palette;

verus! {

/// Error type returned by surface operations.
#[derive(Debug)]
pub enum Error {
    /// The backend could not be initialised.
    Init,
    /// The surface could not be resized.
    Resize,
    /// The frame could not be presented.
    Present,
    /// The underlying platform is not available.
    Unsupported,
}

/// Common interface of the output backends.
pub trait Surface {
    /// Render (and optionally scale) a NES frame to the display.
    fn render(&mut self, frame: &Frame, palette: &Palette) -> Result<(), Error>;

    /// Resize the output surface.
    fn resize(&mut self, width: u32, height: u32) -> Result<(), Error>;

    /// Current output dimensions.
    fn dimensions(&self) -> (u32, u32);
}

/// Create a GPU-accelerated surface from a config: a `GpuContext`
/// opened as `GpuContext::new` opens one.
pub fn create_surface(config: &Config) -> (r: Result<GpuContext, Error>)
    ensures
        GpuContext::opened(*config, r),
{
    GpuContext::new(config)
}

/// `create_surface` and `GpuContext::new` answer a config alike: both
/// succeed with the same dimensions, or both fail with the same error.
pub proof fn lemma_create_surface_agrees_with_new(
    config: Config,
    from_create: Result<GpuContext, Error>,
    from_new: Result<GpuContext, Error>,
)
    requires
        GpuContext::opened(config, from_create),
        GpuContext::opened(config, from_new),
    ensures
        (from_create matches Ok(a) && from_new matches Ok(b) && a@ == b@) || (
        from_create matches Err(e) && from_new matches Err(f) && e == f),
{
}

} // verus!
