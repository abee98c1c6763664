//! The traits' shared configuration and utilities for egui window and gfx backends.
use vstd::prelude::*;

pub mod glfw_backend;
pub mod opengl;
pub mod util;

use opengl::{NativeGlConfig, WebGlConfig};

verus! {

/// OpenGL settings that a window backend should honour when it creates a window.
#[derive(Debug, Clone, Copy)]
pub struct OpenGlConfig {
    /// minimum major opengl version; 2 or 3 is common
    pub major: Option<u8>,
    /// minor version
    pub minor: Option<u8>,
    /// whether we want an ES context; false by default
    pub es: Option<bool>,
    /// try creating an srgb surface for the window
    pub srgb: Option<bool>,
    /// depth bits
    pub depth: Option<u8>,
    /// stencil bits
    pub stencil: Option<u8>,
    /// the number of bits of each color channel; rgba with 8 bits each by default
    pub color_bits: Option<[u8; 4]>,
    /// must be a power of 2
    pub multi_samples: Option<u8>,
    /// false requests a compatibility context, true a core context (the default)
    pub core: Option<bool>,
}

impl Default for OpenGlConfig {
    /// Every setting is left to the window backend.
    fn default() -> (c: OpenGlConfig)
        ensures
            c.major is None && c.minor is None && c.es is None && c.srgb is None,
            c.depth is None && c.stencil is None && c.color_bits is None,
            c.multi_samples is None && c.core is None,
    {
        OpenGlConfig {
            major: None,
            minor: None,
            es: None,
            srgb: None,
            depth: None,
            stencil: None,
            color_bits: None,
            multi_samples: None,
            core: None,
        }
    }
}

/// The configuration that every window backend accepts: the settings that must be known
/// before a window is created, like opengl or transparency.
#[derive(Debug, Clone, Copy)]
pub struct BackendConfig {
    /// true by default
    pub is_opengl: bool,
    pub opengl_config: Option<OpenGlConfig>,
    pub transparent: Option<bool>,
}

impl Default for BackendConfig {
    /// An opengl window, with no opengl settings and the transparency left to the backend.
    fn default() -> (c: BackendConfig)
        ensures
            c.is_opengl,
            c.opengl_config is None,
            c.transparent is None,
    {
        BackendConfig { is_opengl: true, transparent: None, opengl_config: None }
    }
}

/// The graphics API that a window is created for.
#[derive(Debug, Clone)]
pub enum GfxApiType {
    /// A native opengl context with these settings.
    OpenGL { native_config: NativeGlConfig },
    /// A WebGL2 context on the canvas with this id (the first canvas when `None`).
    WebGL2 { canvas_id: Option<String>, webgl_config: WebGlConfig },
    /// A window without a context, for Vulkan-like APIs.
    Vulkan,
    /// A window without any graphics API.
    NoApi,
}

/// What an event loop does at the end of a frame.
#[derive(PartialEq, Eq, Structural, Clone, Copy, Debug)]
pub struct FrameEnd {
    /// the loop ends: the window is to close
    pub exit: bool,
    /// egui copied text, which goes to the clipboard
    pub copy_to_clipboard: bool,
    /// how long the next frame waits for an event, in milliseconds
    pub wait_millis: u32,
}

/// The end of a frame: the loop ends once the window is to close; the text that egui copied
/// goes to the clipboard when there is any; the next frame waits for an event as long as
/// egui's repaint delay, in milliseconds cast to `u32` (`Duration::as_millis() as u32`).
pub fn frame_end(should_close: bool, copied_text: &str, repaint_after_millis: u128) -> (f: FrameEnd)
    ensures
        f.exit == should_close,
        f.copy_to_clipboard == (copied_text@.len() > 0),
        f.wait_millis == repaint_after_millis as u32,
{
    FrameEnd {
        exit: should_close,
        copy_to_clipboard: !copied_text.is_empty(),
        wait_millis: #[verifier::truncate] (repaint_after_millis as u32),
    }
}

} // verus!
