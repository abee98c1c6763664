//! OpenGL and WebGL context settings.
use vstd::prelude::*;

verus! {

/// Implemented by window backends that hold an opengl context with their window (glfw,
/// sdl2): the renderer calls these through the window backend.
pub trait OpenGLWindowContext {
    /// Swaps buffers (swapchain) when double buffering; this also flushes the opengl
    /// commands and blocks until the image is presented when vsync is enabled.
    fn swap_buffers(&mut self);

    /// The address of an opengl function, `0` when there is none.
    fn get_proc_address(&mut self, symbol: &str) -> usize;
}

/// Native settings for OpenGL creation. After creating the window, the backend fills in
/// the settings that the user left open with what the window actually got.
#[derive(Debug, Clone, Copy, PartialEq, Eq, Structural)]
pub struct NativeGlConfig {
    /// major opengl version
    pub major: Option<u8>,
    /// minor opengl version
    pub minor: Option<u8>,
    /// whether it is an ES version, e.g. GL ES 3.0
    pub es: Option<bool>,
    /// true: core profile; false: compatibility profile
    pub core: Option<bool>,
    pub depth_bits: Option<u8>,
    pub stencil_bits: Option<u8>,
    /// zero disables multi sampling
    pub samples: Option<u8>,
    /// framebuffer srgb compatibility
    pub srgb: Option<bool>,
    pub double_buffer: Option<bool>,
    pub vsync: Option<bool>,
    pub debug: Option<bool>,
}

impl Default for NativeGlConfig {
    /// An srgb, double-buffered, vsynced context without debugging; the version, profile
    /// and buffer sizes are left to the backend.
    fn default() -> (c: NativeGlConfig)
        ensures
            c == (NativeGlConfig {
                major: None,
                minor: None,
                es: None,
                core: None,
                depth_bits: None,
                stencil_bits: None,
                samples: None,
                srgb: Some(true),
                double_buffer: Some(true),
                vsync: Some(true),
                debug: Some(false),
            }),
    {
        NativeGlConfig {
            major: None,
            minor: None,
            es: None,
            core: None,
            depth_bits: None,
            stencil_bits: None,
            samples: None,
            srgb: Some(true),
            double_buffer: Some(true),
            vsync: Some(true),
            debug: Some(false),
        }
    }
}

/// Settings for the browser when requesting a WebGL2 context (the `WebGLContextAttributes`
/// of the canvas); `None` leaves the browser's default.
#[derive(Debug, Clone, Copy, PartialEq, Eq, Structural)]
pub struct WebGlConfig {
    pub alpha: Option<bool>,
    pub depth: Option<bool>,
    pub stencil: Option<bool>,
    pub antialias: Option<bool>,
    pub premultiplied_alpha: Option<bool>,
    pub preserve_drawing_buffer: Option<bool>,
    /// `None`: default power preference; `Some(true)`: low power; `Some(false)`: high
    /// performance
    pub low_power: Option<bool>,
    pub fail_if_major_performance_caveat: Option<bool>,
    pub desynchronized: Option<bool>,
}

impl Default for WebGlConfig {
    /// Every attribute is left to the browser.
    fn default() -> (c: WebGlConfig)
        ensures
            c == (WebGlConfig {
                alpha: None,
                depth: None,
                stencil: None,
                antialias: None,
                premultiplied_alpha: None,
                preserve_drawing_buffer: None,
                low_power: None,
                fail_if_major_performance_caveat: None,
                desynchronized: None,
            }),
    {
        WebGlConfig {
            alpha: None,
            depth: None,
            stencil: None,
            antialias: None,
            premultiplied_alpha: None,
            preserve_drawing_buffer: None,
            low_power: None,
            fail_if_major_performance_caveat: None,
            desynchronized: None,
        }
    }
}

} // verus!
