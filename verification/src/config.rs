use vstd::prelude::*;

verus! {

/// Rendering configuration for the output backends.
pub struct Config {
    /// Window title (desktop only, ignored on MCU).
    pub title: &'static str,
    /// Width of the output surface in pixels.
    pub width: u32,
    /// Height of the output surface in pixels.
    pub height: u32,
    /// Whether to use hardware vsync (desktop only).
    pub vsync: bool,
}

impl Config {
    /// NES-sized config: the 256×240 frame at `scale`× in each direction.
    pub fn nes_scaled(scale: u32) -> (c: Self)
        requires
            256 * scale <= u32::MAX,
        ensures
            c.title@ == "x-gfx"@,
            c.width == 256 * scale,
            c.height == 240 * scale,
            c.width * 240 == c.height * 256,
            c.vsync,
    {
        Config { title: "x-gfx", width: 256 * scale, height: 240 * scale, vsync: true }
    }
}

impl Default for Config {
    /// An 800×600 window titled "x-gfx" with vsync.
    fn default() -> (c: Self)
        ensures
            c.title@ == "x-gfx"@,
            c.width == 800,
            c.height == 600,
            c.vsync,
    {
        Config { title: "x-gfx", width: 800, height: 600, vsync: true }
    }
}

} // verus!
