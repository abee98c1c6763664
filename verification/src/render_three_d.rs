//! The three-d gfx backend's configuration: three-d draws egui with the glow painter.
use vstd::prelude::*;
use crate::render_glow::GlowConfig;

verus! {

/// Configuration of the three-d backend: that of its glow painter.
#[derive(Debug, Clone, Copy)]
pub struct ThreeDConfig {
    pub glow_config: GlowConfig,
}

impl Default for ThreeDConfig {
    /// The glow painter's default configuration.
    fn default() -> (c: ThreeDConfig)
        ensures
            !c.glow_config.enable_debug,
            c.glow_config.webgl_config.alpha is None && c.glow_config.webgl_config.depth is None,
            c.glow_config.webgl_config.stencil is None,
            c.glow_config.webgl_config.antialias is None,
            c.glow_config.webgl_config.premultiplied_alpha is None,
            c.glow_config.webgl_config.preserve_drawing_buffer is None,
            c.glow_config.webgl_config.low_power is None,
            c.glow_config.webgl_config.fail_if_major_performance_caveat is None,
            c.glow_config.webgl_config.desynchronized is None,
    {
        ThreeDConfig { glow_config: GlowConfig::default() }
    }
}

} // verus!
