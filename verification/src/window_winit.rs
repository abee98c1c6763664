//! The winit window backend: the opengl context that it asks glutin for, the settings it
//! records once the context exists, and which egui input each winit window event becomes.
use vstd::prelude::*;
use crate::egui_backend::GfxApiType;
use crate::egui_backend::opengl::NativeGlConfig;
use crate::egui_types::{EguiEvent, KeyEvent, Modifiers, Reaction};
use crate::keymap::{
    winit_key, winit_key_to_egui, winit_modifiers_to_egui, winit_mouse_button_to_egui,
    MouseButtonEvent, WINIT_MOD_ALT, WINIT_MOD_CTRL, WINIT_MOD_LOGO, WINIT_MOD_SHIFT,
};

verus! {

/// Settings for the winit backend.
#[derive(Debug)]
pub struct WinitSettings {
    /// window title
    pub title: String,
    /// on web, the id of the canvas element that becomes the window; it must not be empty
    pub dom_element_id: String,
}

impl Default for WinitSettings {
    /// The title "egui winit window" and the canvas id "egui_winit_canvas".
    fn default() -> (s: WinitSettings)
        ensures
            s.title@ == "egui winit window"@,
            s.dom_element_id@ == "egui_winit_canvas"@,
    {
        WinitSettings {
            title: "egui winit window".to_owned(),
            dom_element_id: "egui_winit_canvas".to_owned(),
        }
    }
}

/// The opengl API flavour of a glutin context.
#[derive(PartialEq, Eq, Structural, Clone, Copy, Debug)]
pub enum GlApi {
    OpenGl,
    OpenGlEs,
}

/// The opengl profile of a glutin context.
#[derive(PartialEq, Eq, Structural, Clone, Copy, Debug)]
pub enum GlProfile {
    Core,
    Compatibility,
}

/// A specific opengl API flavour and version.
#[derive(PartialEq, Eq, Structural, Clone, Copy, Debug)]
pub struct GlRequest {
    pub api: GlApi,
    pub major: u8,
    pub minor: u8,
}

/// What the winit backend asks of glutin's context builder; `None` leaves glutin's
/// default.
#[derive(PartialEq, Eq, Structural, Clone, Copy, Debug)]
pub struct GlutinContextPlan {
    /// a specific API and version
    pub gl_request: Option<GlRequest>,
    pub gl_profile: Option<GlProfile>,
    pub depth_buffer: Option<u8>,
    pub stencil_buffer: Option<u8>,
    pub multisampling: Option<u16>,
    pub srgb: Option<bool>,
    /// handed to glutin as it is: `None` lets glutin choose
    pub double_buffer: Option<bool>,
    pub vsync: Option<bool>,
    pub debug: Option<bool>,
}

/// The context request for native opengl settings: when the API flavour is given, that
/// flavour at the given version (major 3 when none is given, minor 0 when none is given);
/// otherwise desktop opengl at the given major version, if any; each other setting when it
/// is given.
pub open spec fn glutin_plan(c: NativeGlConfig) -> GlutinContextPlan {
    let minor: u8 = match c.minor {
        Some(m) => m,
        None => 0,
    };
    GlutinContextPlan {
        gl_request: match c.es {
            Some(es) => Some(
                GlRequest {
                    api: if es {
                        GlApi::OpenGlEs
                    } else {
                        GlApi::OpenGl
                    },
                    major: match c.major {
                        Some(m) => m,
                        None => 3,
                    },
                    minor,
                },
            ),
            None => match c.major {
                Some(m) => Some(GlRequest { api: GlApi::OpenGl, major: m, minor }),
                None => None,
            },
        },
        gl_profile: match c.core {
            Some(true) => Some(GlProfile::Core),
            Some(false) => Some(GlProfile::Compatibility),
            None => None,
        },
        depth_buffer: c.depth_bits,
        stencil_buffer: c.stencil_bits,
        multisampling: match c.samples {
            Some(s) => Some(s as u16),
            None => None,
        },
        srgb: c.srgb,
        double_buffer: c.double_buffer,
        vsync: c.vsync,
        debug: c.debug,
    }
}

/// The glutin context request for the native opengl settings of a winit window.
pub fn glutin_context_plan(native_config: &NativeGlConfig) -> (plan: GlutinContextPlan)
    ensures
        plan == glutin_plan(*native_config),
{
    let minor = match native_config.minor {
        Some(m) => m,
        None => 0,
    };
    let gl_request = if let Some(es) = native_config.es {
        let api = if es {
            GlApi::OpenGlEs
        } else {
            GlApi::OpenGl
        };
        if let Some(major) = native_config.major {
            Some(GlRequest { api, major, minor })
        } else {
            Some(GlRequest { api, major: 3, minor })
        }
    } else if let Some(major) = native_config.major {
        Some(GlRequest { api: GlApi::OpenGl, major, minor })
    } else {
        None
    };
    let gl_profile = match native_config.core {
        Some(true) => Some(GlProfile::Core),
        Some(false) => Some(GlProfile::Compatibility),
        None => None,
    };
    GlutinContextPlan {
        gl_request,
        gl_profile,
        depth_buffer: native_config.depth_bits,
        stencil_buffer: native_config.stencil_bits,
        multisampling: match native_config.samples {
            Some(s) => Some(s as u16),
            None => None,
        },
        srgb: native_config.srgb,
        double_buffer: native_config.double_buffer,
        vsync: native_config.vsync,
        debug: native_config.debug,
    }
}

/// The pixel format of a created glutin context.
#[derive(PartialEq, Eq, Structural, Clone, Copy, Debug)]
pub struct GlPixelFormat {
    pub depth_bits: u8,
    pub stencil_bits: u8,
    pub multisampling: Option<u16>,
    pub srgb: bool,
    pub double_buffer: bool,
}

/// The opengl settings of a created context: the version, profile, vsync and debug
/// settings as requested; the API flavour, buffer sizes, sample count, srgb and double
/// buffering as the context got them.
pub open spec fn created_gl_config(requested: NativeGlConfig, api: GlApi, pixel_format: GlPixelFormat) -> NativeGlConfig {
    NativeGlConfig {
        major: requested.major,
        minor: requested.minor,
        es: Some(api == GlApi::OpenGlEs),
        core: requested.core,
        depth_bits: Some(pixel_format.depth_bits),
        stencil_bits: Some(pixel_format.stencil_bits),
        samples: match pixel_format.multisampling {
            Some(ms) => Some(ms as u8),
            None => None,
        },
        srgb: Some(pixel_format.srgb),
        double_buffer: Some(pixel_format.double_buffer),
        vsync: requested.vsync,
        debug: requested.debug,
    }
}

/// Whether a pixel format's sample count fits the `u8` of the recorded settings.
pub open spec fn samples_fit(pixel_format: GlPixelFormat) -> bool {
    pixel_format.multisampling matches Some(ms) ==> ms <= u8::MAX
}

/// The opengl settings of a created context (see [`created_gl_config`]).
pub fn native_config_after_creation(requested: &NativeGlConfig, api: GlApi, pixel_format: &GlPixelFormat) -> (c: NativeGlConfig)
    requires
        samples_fit(*pixel_format),
    ensures
        c == created_gl_config(*requested, api, *pixel_format),
{
    NativeGlConfig {
        major: requested.major,
        minor: requested.minor,
        es: match api {
            GlApi::OpenGl => Some(false),
            GlApi::OpenGlEs => Some(true),
        },
        core: requested.core,
        depth_bits: Some(pixel_format.depth_bits),
        stencil_bits: Some(pixel_format.stencil_bits),
        samples: match pixel_format.multisampling {
            Some(ms) => Some(ms as u8),
            None => None,
        },
        srgb: Some(pixel_format.srgb),
        double_buffer: Some(pixel_format.double_buffer),
        vsync: requested.vsync,
        debug: requested.debug,
    }
}

/// A winit window event, with its positions, deltas, scales and paths left to the caller.
#[derive(PartialEq, Eq, Clone, Debug)]
pub enum WinitWindowEvent {
    /// The window was resized to this size in pixels.
    Resized([u32; 2]),
    /// The user asked to close the window.
    CloseRequested,
    /// A file was dropped on the window.
    DroppedFile,
    /// A character was typed; it is given as text.
    ReceivedCharacter(String),
    /// A key was pressed or released, with its virtual key code (`VirtualKeyCode as u32`)
    /// when winit knows it.
    KeyboardInput { pressed: bool, virtual_keycode: Option<u32> },
    /// The modifiers changed to this state (`ModifiersState::bits`).
    ModifiersChanged(u32),
    /// The cursor moved.
    CursorMoved,
    /// The cursor left the window.
    CursorLeft,
    /// The wheel scrolled.
    MouseWheel,
    /// A mouse button was pressed or released.
    MouseInput { pressed: bool, button: MouseButtonEvent },
    /// The scale factor changed.
    ScaleFactorChanged,
    /// Any other event.
    Other,
}

/// The winit window backend's state between frames.
#[derive(Clone, Debug)]
pub struct WinitBackend {
    /// the graphics API of the window; for opengl, the settings that the created context got
    pub gfx_api_type: GfxApiType,
    /// the modifiers that are held now
    pub modifiers: Modifiers,
    /// the framebuffer size in pixels
    pub framebuffer_size: [u32; 2],
    /// true after a resize, until the renderer takes the latest size
    pub latest_resize_event: bool,
    /// the user asked to close the window
    pub should_close: bool,
}

/// egui's modifiers for a winit modifier state, as `winit_modifiers_to_egui` computes them.
pub open spec fn winit_modifiers(bits: u32) -> Modifiers {
    Modifiers {
        alt: bits & WINIT_MOD_ALT != 0,
        ctrl: bits & WINIT_MOD_CTRL != 0,
        shift: bits & WINIT_MOD_SHIFT != 0,
        mac_cmd: false,
        command: bits & WINIT_MOD_LOGO != 0,
    }
}

/// The egui pointer button for a winit or tao mouse button.
pub open spec fn event_button(mb: MouseButtonEvent) -> crate::egui_types::PointerButton {
    match mb {
        MouseButtonEvent::Left => crate::egui_types::PointerButton::Primary,
        MouseButtonEvent::Right => crate::egui_types::PointerButton::Secondary,
        MouseButtonEvent::Middle => crate::egui_types::PointerButton::Middle,
        MouseButtonEvent::Other(_) => crate::egui_types::PointerButton::Extra1,
    }
}

/// The graphics API that a winit window records: for an opengl window whose context was
/// created, the settings that the context got; otherwise what was asked for.
pub open spec fn settled_api(requested: GfxApiType, created: Option<(GlApi, GlPixelFormat)>) -> GfxApiType {
    match requested {
        GfxApiType::OpenGL { native_config } => match created {
            Some(c) => GfxApiType::OpenGL { native_config: created_gl_config(native_config, c.0, c.1) },
            None => requested,
        },
        _ => requested,
    }
}

impl WinitBackend {
    /// The state of a freshly created window with this framebuffer size: no modifiers are
    /// held and a resize is pending for the renderer's first frame. The window was asked for
    /// `gfx_api_type`; when it got an opengl context of API `created.0` and pixel format
    /// `created.1`, the settings that the context got are recorded in place of the requested
    /// ones.
    pub fn new(framebuffer_size: [u32; 2], gfx_api_type: GfxApiType, created: Option<(GlApi, GlPixelFormat)>) -> (b: WinitBackend)
        requires
            created matches Some(c) ==> samples_fit(c.1),
        ensures
            b.gfx_api_type == settled_api(gfx_api_type, created),
            b.modifiers == Modifiers::spec_none(),
            b.framebuffer_size == framebuffer_size,
            b.latest_resize_event,
            !b.should_close,
    {
        let settled = match gfx_api_type {
            GfxApiType::OpenGL { native_config } => match created {
                Some((api, pixel_format)) => GfxApiType::OpenGL {
                    native_config: native_config_after_creation(&native_config, api, &pixel_format),
                },
                None => GfxApiType::OpenGL { native_config },
            },
            other => other,
        };
        WinitBackend {
            gfx_api_type: settled,
            modifiers: Modifiers::new(),
            framebuffer_size,
            latest_resize_event: true,
            should_close: false,
        }
    }

    /// One event: the next state and the reaction. Key and mouse events carry the
    /// modifiers that the last modifier change reported.
    pub open spec fn step(self, event: WinitWindowEvent) -> (WinitBackend, Reaction) {
        match event {
            WinitWindowEvent::Resized(size) => (
                WinitBackend { framebuffer_size: size, latest_resize_event: true, ..self },
                Reaction::ResizeScreen,
            ),
            WinitWindowEvent::CloseRequested => (
                WinitBackend { should_close: true, ..self },
                Reaction::Close,
            ),
            WinitWindowEvent::DroppedFile => (self, Reaction::DropFiles),
            WinitWindowEvent::ReceivedCharacter(c) => (self, Reaction::Emit(EguiEvent::Text(c))),
            WinitWindowEvent::KeyboardInput { pressed, virtual_keycode } => (
                self,
                match virtual_keycode {
                    Some(code) => match winit_key(code) {
                        Some(key) => Reaction::Emit(
                            EguiEvent::Key(
                                KeyEvent { key, pressed, repeat: false, modifiers: self.modifiers },
                            ),
                        ),
                        None => Reaction::Ignore,
                    },
                    None => Reaction::Ignore,
                },
            ),
            WinitWindowEvent::ModifiersChanged(bits) => (
                WinitBackend { modifiers: winit_modifiers(bits), ..self },
                Reaction::Ignore,
            ),
            WinitWindowEvent::CursorMoved => (self, Reaction::Emit(EguiEvent::PointerMoved)),
            WinitWindowEvent::CursorLeft => (self, Reaction::Emit(EguiEvent::PointerGone)),
            WinitWindowEvent::MouseWheel => (self, Reaction::Emit(EguiEvent::Scroll)),
            WinitWindowEvent::MouseInput { pressed, button } => (
                self,
                Reaction::Emit(
                    EguiEvent::PointerButton {
                        button: event_button(button),
                        pressed,
                        modifiers: self.modifiers,
                    },
                ),
            ),
            WinitWindowEvent::ScaleFactorChanged => (
                WinitBackend { latest_resize_event: true, ..self },
                Reaction::Rescale,
            ),
            WinitWindowEvent::Other => (self, Reaction::Ignore),
        }
    }

    /// The events of a frame, one after another: the final state and the reactions.
    pub open spec fn run(self, events: Seq<WinitWindowEvent>) -> (WinitBackend, Seq<Reaction>)
        decreases events.len(),
    {
        if events.len() == 0 {
            (self, Seq::empty())
        } else {
            let (s, rs) = self.run(events.drop_last());
            let (s2, r) = s.step(events.last());
            (s2, rs.push(r))
        }
    }

    /// Handles one winit window event.
    pub fn handle_event(&mut self, event: &WinitWindowEvent) -> (r: Reaction)
        ensures
            (*final(self), r) == old(self).step(*event),
    {
        match event {
            WinitWindowEvent::Resized(size) => {
                self.latest_resize_event = true;
                self.framebuffer_size = *size;
                Reaction::ResizeScreen
            },
            WinitWindowEvent::CloseRequested => {
                self.should_close = true;
                Reaction::Close
            },
            WinitWindowEvent::DroppedFile => Reaction::DropFiles,
            WinitWindowEvent::ReceivedCharacter(c) => Reaction::Emit(EguiEvent::Text(c.clone())),
            WinitWindowEvent::KeyboardInput { pressed, virtual_keycode } => {
                if let Some(key_code) = virtual_keycode {
                    if let Some(key) = winit_key_to_egui(*key_code) {
                        Reaction::Emit(
                            EguiEvent::Key(
                                KeyEvent {
                                    key,
                                    pressed: *pressed,
                                    repeat: false,
                                    modifiers: self.modifiers,
                                },
                            ),
                        )
                    } else {
                        Reaction::Ignore
                    }
                } else {
                    Reaction::Ignore
                }
            },
            WinitWindowEvent::ModifiersChanged(bits) => {
                self.modifiers = winit_modifiers_to_egui(*bits);
                Reaction::Ignore
            },
            WinitWindowEvent::CursorMoved => Reaction::Emit(EguiEvent::PointerMoved),
            WinitWindowEvent::CursorLeft => Reaction::Emit(EguiEvent::PointerGone),
            WinitWindowEvent::MouseWheel => Reaction::Emit(EguiEvent::Scroll),
            WinitWindowEvent::MouseInput { pressed, button } => Reaction::Emit(
                EguiEvent::PointerButton {
                    button: winit_mouse_button_to_egui(*button),
                    pressed: *pressed,
                    modifiers: self.modifiers,
                },
            ),
            WinitWindowEvent::ScaleFactorChanged => {
                self.latest_resize_event = true;
                Reaction::Rescale
            },
            WinitWindowEvent::Other => Reaction::Ignore,
        }
    }

    /// Handles a run of window events, in order.
    pub fn handle_events(&mut self, events: &Vec<WinitWindowEvent>) -> (reactions: Vec<Reaction>)
        ensures
            (*final(self), reactions@) == old(self).run(events@),
    {
        let mut reactions: Vec<Reaction> = Vec::new();
        let ghost start = *self;
        let mut i: usize = 0;
        while i < events.len()
            invariant
                i <= events.len(),
                (*self, reactions@) == start.run(events@.take(i as int)),
            decreases events.len() - i,
        {
            let r = self.handle_event(&events[i]);
            reactions.push(r);
            proof {
                assert(events@.take(i + 1).drop_last() == events@.take(i as int));
            }
            i = i + 1;
        }
        proof {
            assert(events@.take(events.len() as int) == events@);
        }
        reactions
    }

    /// The framebuffer size for the renderer when a resize happened (`live_size` being the
    /// size that the window reports now), `None` otherwise. The renderer takes the size, so
    /// the resize is no longer pending.
    pub fn take_latest_size_update(&mut self, live_size: [u32; 2]) -> (r: Option<[u32; 2]>)
        ensures
            r == (if old(self).latest_resize_event {
                Some(live_size)
            } else {
                None
            }),
            *final(self) == (WinitBackend { latest_resize_event: false, ..*old(self) }),
    {
        if self.latest_resize_event {
            self.latest_resize_event = false;
            Some(live_size)
        } else {
            None
        }
    }
}

// ---------------------------------------------------------------------------------------
// Laws

/// A frame's events get one reaction each; once the user asked to close, the backend keeps
/// asking to close; a recorded resize stays recorded.
pub proof fn lemma_winit_run(backend: WinitBackend, events: Seq<WinitWindowEvent>)
    ensures
        backend.run(events).1.len() == events.len(),
        backend.should_close ==> backend.run(events).0.should_close,
        backend.latest_resize_event ==> backend.run(events).0.latest_resize_event,
    decreases events.len(),
{
    if events.len() > 0 {
        lemma_winit_run(backend, events.drop_last());
    }
}

/// Key and mouse-button events carry the modifiers of the latest modifier change.
pub proof fn lemma_winit_events_carry_latest_modifiers(
    backend: WinitBackend,
    bits: u32,
    event: WinitWindowEvent,
)
    ensures
        ({
            let (s, _) = backend.step(WinitWindowEvent::ModifiersChanged(bits));
            let (_, r) = s.step(event);
            &&& r matches Reaction::Emit(EguiEvent::Key(k)) ==> k.modifiers == winit_modifiers(bits)
            &&& r matches Reaction::Emit(EguiEvent::PointerButton { modifiers, .. }) ==> modifiers
                == winit_modifiers(bits)
        }),
{
}

/// What the winit backend does with each window event, whatever its state: a close request
/// asks to close; a resize records the new size and a pending resize; a key that egui knows
/// is reported both when pressed and when released, with the latest modifiers, and other
/// keys are not; a mouse button is reported both when pressed and when released (left,
/// right and middle as primary, secondary and middle, any other as the first extra
/// button); typed text, cursor moves, the cursor leaving and the wheel are handed to egui;
/// keys and mouse buttons leave the state as it was.
pub proof fn lemma_winit_event_behaviour(
    b: WinitBackend,
    code: u32,
    pressed: bool,
    size: [u32; 2],
    text: String,
    n: u16,
)
    ensures
        b.step(WinitWindowEvent::CloseRequested).0.should_close,
        b.step(WinitWindowEvent::CloseRequested).1 == Reaction::Close,
        b.step(WinitWindowEvent::Resized(size)).0.framebuffer_size == size,
        b.step(WinitWindowEvent::Resized(size)).0.latest_resize_event,
        b.step(WinitWindowEvent::Resized(size)).1 == Reaction::ResizeScreen,
        winit_key(code) matches Some(k) ==> b.step(
            WinitWindowEvent::KeyboardInput { pressed, virtual_keycode: Some(code) },
        ).1 == Reaction::Emit(
            EguiEvent::Key(KeyEvent { key: k, pressed, repeat: false, modifiers: b.modifiers }),
        ),
        winit_key(code) is None ==> b.step(
            WinitWindowEvent::KeyboardInput { pressed, virtual_keycode: Some(code) },
        ).1 == Reaction::Ignore,
        b.step(WinitWindowEvent::KeyboardInput { pressed, virtual_keycode: None }).1
            == Reaction::Ignore,
        b.step(WinitWindowEvent::KeyboardInput { pressed, virtual_keycode: Some(code) }).0 == b,
        b.step(WinitWindowEvent::MouseInput { pressed, button: MouseButtonEvent::Left }).1
            == Reaction::Emit(
            EguiEvent::PointerButton {
                button: crate::egui_types::PointerButton::Primary,
                pressed,
                modifiers: b.modifiers,
            },
        ),
        b.step(WinitWindowEvent::MouseInput { pressed, button: MouseButtonEvent::Right }).1
            == Reaction::Emit(
            EguiEvent::PointerButton {
                button: crate::egui_types::PointerButton::Secondary,
                pressed,
                modifiers: b.modifiers,
            },
        ),
        b.step(WinitWindowEvent::MouseInput { pressed, button: MouseButtonEvent::Middle }).1
            == Reaction::Emit(
            EguiEvent::PointerButton {
                button: crate::egui_types::PointerButton::Middle,
                pressed,
                modifiers: b.modifiers,
            },
        ),
        b.step(WinitWindowEvent::MouseInput { pressed, button: MouseButtonEvent::Other(n) }).1
            == Reaction::Emit(
            EguiEvent::PointerButton {
                button: crate::egui_types::PointerButton::Extra1,
                pressed,
                modifiers: b.modifiers,
            },
        ),
        b.step(WinitWindowEvent::MouseInput { pressed, button: MouseButtonEvent::Left }).0 == b,
        b.step(WinitWindowEvent::ReceivedCharacter(text)).1 == Reaction::Emit(EguiEvent::Text(text)),
        b.step(WinitWindowEvent::CursorMoved).1 == Reaction::Emit(EguiEvent::PointerMoved),
        b.step(WinitWindowEvent::CursorLeft).1 == Reaction::Emit(EguiEvent::PointerGone),
        b.step(WinitWindowEvent::MouseWheel).1 == Reaction::Emit(EguiEvent::Scroll),
{
}

/// Each winit modifier flag stands for its own egui modifier and for no other: shift for
/// shift, control for ctrl, alt for alt, the logo key for command; no flag is no modifier.
pub proof fn lemma_winit_modifier_flags()
    ensures
        winit_modifiers(0) == Modifiers::spec_none(),
        winit_modifiers(WINIT_MOD_SHIFT) == (
            Modifiers { alt: false, ctrl: false, shift: true, mac_cmd: false, command: false }
        ),
        winit_modifiers(WINIT_MOD_CTRL) == (
            Modifiers { alt: false, ctrl: true, shift: false, mac_cmd: false, command: false }
        ),
        winit_modifiers(WINIT_MOD_ALT) == (
            Modifiers { alt: true, ctrl: false, shift: false, mac_cmd: false, command: false }
        ),
        winit_modifiers(WINIT_MOD_LOGO) == (
            Modifiers { alt: false, ctrl: false, shift: false, mac_cmd: false, command: true }
        ),
{
    assert(
        ((4u32 & 4u32) != 0) == true
        && ((4u32 & 32u32) != 0) == false
        && ((4u32 & 256u32) != 0) == false
        && ((4u32 & 2048u32) != 0) == false
        && ((32u32 & 4u32) != 0) == false
        && ((32u32 & 32u32) != 0) == true
        && ((32u32 & 256u32) != 0) == false
        && ((32u32 & 2048u32) != 0) == false
        && ((256u32 & 4u32) != 0) == false
        && ((256u32 & 32u32) != 0) == false
        && ((256u32 & 256u32) != 0) == true
        && ((256u32 & 2048u32) != 0) == false
        && ((2048u32 & 4u32) != 0) == false
        && ((2048u32 & 32u32) != 0) == false
        && ((2048u32 & 256u32) != 0) == false
        && ((2048u32 & 2048u32) != 0) == true
        && ((0u32 & 4u32) != 0) == false
        && ((0u32 & 32u32) != 0) == false
        && ((0u32 & 256u32) != 0) == false
        && ((0u32 & 2048u32) != 0) == false
    ) by (bit_vector);
}

/// The glutin context request follows the settings: the core profile is asked for when core
/// is wanted and the compatibility profile when it is not; an ES setting asks for OpenGL ES
/// or desktop OpenGL (version 3.0 unless a version is given); the buffer sizes, srgb, double
/// buffering, vsync and debugging are asked for as given, and nothing is asked for what the
/// user left open.
pub proof fn lemma_glutin_plan_follows_settings(c: NativeGlConfig)
    ensures
        c.core == Some(true) ==> glutin_plan(c).gl_profile == Some(GlProfile::Core),
        c.core == Some(false) ==> glutin_plan(c).gl_profile == Some(GlProfile::Compatibility),
        c.core is None ==> glutin_plan(c).gl_profile is None,
        c.es == Some(true) ==> (glutin_plan(c).gl_request is Some && glutin_plan(c).gl_request.unwrap().api
            == GlApi::OpenGlEs),
        c.es == Some(false) ==> (glutin_plan(c).gl_request is Some && glutin_plan(c).gl_request.unwrap().api
            == GlApi::OpenGl),
        c.es is Some && c.major is None && c.minor is None ==> (glutin_plan(c).gl_request is Some
            && glutin_plan(c).gl_request.unwrap().major == 3 && glutin_plan(c).gl_request.unwrap().minor
            == 0),
        c.major is Some ==> (glutin_plan(c).gl_request is Some && glutin_plan(c).gl_request.unwrap().major
            == c.major.unwrap()),
        c.es is None && c.major is None ==> glutin_plan(c).gl_request is None,
        glutin_plan(c).depth_buffer == c.depth_bits,
        glutin_plan(c).stencil_buffer == c.stencil_bits,
        glutin_plan(c).srgb == c.srgb,
        glutin_plan(c).double_buffer == c.double_buffer,
        glutin_plan(c).vsync == c.vsync,
        glutin_plan(c).debug == c.debug,
        c.samples matches Some(n) ==> glutin_plan(c).multisampling == Some(n as u16),
        c.samples is None ==> glutin_plan(c).multisampling is None,
{
}

} // verus!
