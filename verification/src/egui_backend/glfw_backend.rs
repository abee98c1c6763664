//! The glfw window backend that ships with `egui_backend`: the window hints that it derives
//! from the requested graphics API, and which egui input each glfw window event becomes.
use vstd::prelude::*;
use crate::egui_types::{EguiEvent, PointerButton, Reaction};
use crate::egui_backend::GfxApiType;
use crate::egui_backend::opengl::NativeGlConfig;
use crate::keymap::{glfw_to_egui_action, glfw_to_egui_modifers, GlfwAction};
use crate::window_glfw::{glfw_key_reaction, glfw_modifiers, GlfwWindowEvent};

verus! {

/// The client API that a glfw window is created for.
#[derive(PartialEq, Eq, Structural, Clone, Copy, Debug)]
pub enum GlfwClientApi {
    OpenGl,
    OpenGlEs,
    NoApi,
}

/// The opengl profile that a glfw window asks for.
#[derive(PartialEq, Eq, Structural, Clone, Copy, Debug)]
pub enum GlfwProfile {
    Core,
    Compat,
}

/// A glfw window hint, set before the window is created.
#[derive(PartialEq, Eq, Structural, Clone, Copy, Debug)]
pub enum GlfwWindowHint {
    ContextVersionMajor(u32),
    ContextVersionMinor(u32),
    ClientApi(GlfwClientApi),
    OpenGlProfile(GlfwProfile),
    DepthBits(Option<u32>),
    StencilBits(Option<u32>),
    SRgbCapable(bool),
    Samples(Option<u32>),
    DoubleBuffer(bool),
    OpenGlDebugContext(bool),
}

/// How the glfw window is to be created.
#[derive(PartialEq, Eq, Clone, Debug)]
pub struct GlfwWindowPlan {
    /// The hints to set, in order, before creating the window.
    pub hints: Vec<GlfwWindowHint>,
    /// Whether the window gets an opengl context, to be made current.
    pub opengl: bool,
    /// The swap interval to set after making the context current: `Some(true)` waits for one
    /// vertical sync, `Some(false)` none.
    pub swap_interval: Option<bool>,
}

/// No hint, or one.
pub open spec fn hint_seq(hint: Option<GlfwWindowHint>) -> Seq<GlfwWindowHint> {
    match hint {
        Some(h) => seq![h],
        None => Seq::empty(),
    }
}

/// The hints for a native opengl context, in order: the version, API and profile when they
/// are given; the depth and stencil sizes always (no size means "don't care"); then srgb,
/// sample count, double buffering and debugging when they are given.
pub open spec fn native_gl_hints(c: NativeGlConfig) -> Seq<GlfwWindowHint> {
    hint_seq(
        match c.major {
            Some(v) => Some(GlfwWindowHint::ContextVersionMajor(v as u32)),
            None => None,
        },
    ) + hint_seq(
        match c.minor {
            Some(v) => Some(GlfwWindowHint::ContextVersionMinor(v as u32)),
            None => None,
        },
    ) + hint_seq(
        match c.es {
            Some(true) => Some(GlfwWindowHint::ClientApi(GlfwClientApi::OpenGlEs)),
            Some(false) => Some(GlfwWindowHint::ClientApi(GlfwClientApi::OpenGl)),
            None => None,
        },
    ) + hint_seq(
        match c.core {
            Some(true) => Some(GlfwWindowHint::OpenGlProfile(GlfwProfile::Core)),
            Some(false) => Some(GlfwWindowHint::OpenGlProfile(GlfwProfile::Compat)),
            None => None,
        },
    ) + seq![
        GlfwWindowHint::DepthBits(
            match c.depth_bits {
                Some(d) => Some(d as u32),
                None => None,
            },
        ),
        GlfwWindowHint::StencilBits(
            match c.stencil_bits {
                Some(s) => Some(s as u32),
                None => None,
            },
        ),
    ] + hint_seq(
        match c.srgb {
            Some(v) => Some(GlfwWindowHint::SRgbCapable(v)),
            None => None,
        },
    ) + hint_seq(
        match c.samples {
            Some(v) => Some(GlfwWindowHint::Samples(Some(v as u32))),
            None => None,
        },
    ) + hint_seq(
        match c.double_buffer {
            Some(v) => Some(GlfwWindowHint::DoubleBuffer(v)),
            None => None,
        },
    ) + hint_seq(
        match c.debug {
            Some(v) => Some(GlfwWindowHint::OpenGlDebugContext(v)),
            None => None,
        },
    )
}

fn push_hint(hints: &mut Vec<GlfwWindowHint>, hint: Option<GlfwWindowHint>)
    ensures
        final(hints)@ == old(hints)@ + hint_seq(hint),
{
    if let Some(h) = hint {
        hints.push(h);
        proof {
            assert(final(hints)@ =~= old(hints)@ + hint_seq(hint));
        }
    } else {
        proof {
            assert(final(hints)@ =~= old(hints)@ + hint_seq(hint));
        }
    }
}

fn native_gl_window_hints(c: NativeGlConfig) -> (hints: Vec<GlfwWindowHint>)
    ensures
        hints@ == native_gl_hints(c),
{
    let mut hints: Vec<GlfwWindowHint> = Vec::new();
    push_hint(
        &mut hints,
        match c.major {
            Some(v) => Some(GlfwWindowHint::ContextVersionMajor(v as u32)),
            None => None,
        },
    );
    push_hint(
        &mut hints,
        match c.minor {
            Some(v) => Some(GlfwWindowHint::ContextVersionMinor(v as u32)),
            None => None,
        },
    );
    push_hint(
        &mut hints,
        match c.es {
            Some(true) => Some(GlfwWindowHint::ClientApi(GlfwClientApi::OpenGlEs)),
            Some(false) => Some(GlfwWindowHint::ClientApi(GlfwClientApi::OpenGl)),
            None => None,
        },
    );
    push_hint(
        &mut hints,
        match c.core {
            Some(true) => Some(GlfwWindowHint::OpenGlProfile(GlfwProfile::Core)),
            Some(false) => Some(GlfwWindowHint::OpenGlProfile(GlfwProfile::Compat)),
            None => None,
        },
    );
    let ghost before_sizes = hints@;
    hints.push(
        GlfwWindowHint::DepthBits(
            match c.depth_bits {
                Some(d) => Some(d as u32),
                None => None,
            },
        ),
    );
    hints.push(
        GlfwWindowHint::StencilBits(
            match c.stencil_bits {
                Some(s) => Some(s as u32),
                None => None,
            },
        ),
    );
    proof {
        assert(hints@ =~= before_sizes + seq![
            GlfwWindowHint::DepthBits(
                match c.depth_bits {
                    Some(d) => Some(d as u32),
                    None => None,
                },
            ),
            GlfwWindowHint::StencilBits(
                match c.stencil_bits {
                    Some(s) => Some(s as u32),
                    None => None,
                },
            ),
        ]);
    }
    push_hint(
        &mut hints,
        match c.srgb {
            Some(v) => Some(GlfwWindowHint::SRgbCapable(v)),
            None => None,
        },
    );
    push_hint(
        &mut hints,
        match c.samples {
            Some(v) => Some(GlfwWindowHint::Samples(Some(v as u32))),
            None => None,
        },
    );
    push_hint(
        &mut hints,
        match c.double_buffer {
            Some(v) => Some(GlfwWindowHint::DoubleBuffer(v)),
            None => None,
        },
    );
    push_hint(
        &mut hints,
        match c.debug {
            Some(v) => Some(GlfwWindowHint::OpenGlDebugContext(v)),
            None => None,
        },
    );
    proof {
        assert(hints@ =~= native_gl_hints(c));
    }
    hints
}

/// The plan for a window: opengl gets the native hints, the vsync setting as swap interval
/// and a current context; Vulkan and no API get a window without client API; WebGL, which
/// glfw cannot make, sets no hint.
pub open spec fn glfw_plan(api: GfxApiType) -> (Seq<GlfwWindowHint>, bool, Option<bool>) {
    match api {
        GfxApiType::OpenGL { native_config } => (
            native_gl_hints(native_config),
            true,
            native_config.vsync,
        ),
        GfxApiType::Vulkan | GfxApiType::NoApi => (
            seq![GlfwWindowHint::ClientApi(GlfwClientApi::NoApi)],
            false,
            None,
        ),
        GfxApiType::WebGL2 { .. } => (Seq::empty(), false, None),
    }
}

/// The window hints, context and swap interval for a window created for `gfx_api_type`.
pub fn glfw_window_plan(gfx_api_type: &GfxApiType) -> (plan: GlfwWindowPlan)
    ensures
        (plan.hints@, plan.opengl, plan.swap_interval) == glfw_plan(*gfx_api_type),
{
    match gfx_api_type {
        GfxApiType::OpenGL { native_config } => {
            let hints = native_gl_window_hints(*native_config);
            GlfwWindowPlan { hints, opengl: true, swap_interval: native_config.vsync }
        },
        GfxApiType::Vulkan | GfxApiType::NoApi => {
            let mut hints: Vec<GlfwWindowHint> = Vec::new();
            hints.push(GlfwWindowHint::ClientApi(GlfwClientApi::NoApi));
            proof {
                assert(hints@ =~= seq![GlfwWindowHint::ClientApi(GlfwClientApi::NoApi)]);
            }
            GlfwWindowPlan { hints, opengl: false, swap_interval: None }
        },
        GfxApiType::WebGL2 { .. } => {
            let hints: Vec<GlfwWindowHint> = Vec::new();
            proof {
                assert(hints@ =~= Seq::<GlfwWindowHint>::empty());
            }
            GlfwWindowPlan { hints, opengl: false, swap_interval: None }
        },
    }
}

/// egui's pointer button for a glfw mouse button (`glfw::MouseButton as i32`): buttons one
/// to three are primary, secondary and middle; the others count as secondary.
pub fn glfw_to_egui_pointer_button(mb: i32) -> (b: PointerButton)
    ensures
        b == (if mb == 0 {
            PointerButton::Primary
        } else if mb == 2 {
            PointerButton::Middle
        } else {
            PointerButton::Secondary
        }),
{
    match mb {
        0 => PointerButton::Primary,
        1 => PointerButton::Secondary,
        2 => PointerButton::Middle,
        _ => PointerButton::Secondary,
    }
}

/// `setting` when the user gave it, else `reported`.
pub open spec fn given_or<T>(setting: Option<T>, reported: Option<T>) -> Option<T> {
    if setting is Some {
        setting
    } else {
        reported
    }
}

fn given_or_u8(setting: Option<u8>, reported: Option<u8>) -> (r: Option<u8>)
    ensures
        r == given_or(setting, reported),
{
    match setting {
        Some(v) => Some(v),
        None => reported,
    }
}

fn given_or_bool(setting: Option<bool>, reported: Option<bool>) -> (r: Option<bool>)
    ensures
        r == given_or(setting, reported),
{
    match setting {
        Some(v) => Some(v),
        None => reported,
    }
}

/// The opengl settings of a created window: each setting that the user gave stays, and each
/// one that the user left open is what the window reports (`None` when it reports nothing).
pub open spec fn filled_gl_config(requested: NativeGlConfig, reported: NativeGlConfig) -> NativeGlConfig {
    NativeGlConfig {
        major: given_or(requested.major, reported.major),
        minor: given_or(requested.minor, reported.minor),
        es: given_or(requested.es, reported.es),
        core: given_or(requested.core, reported.core),
        depth_bits: given_or(requested.depth_bits, reported.depth_bits),
        stencil_bits: given_or(requested.stencil_bits, reported.stencil_bits),
        samples: given_or(requested.samples, reported.samples),
        srgb: given_or(requested.srgb, reported.srgb),
        double_buffer: given_or(requested.double_buffer, reported.double_buffer),
        vsync: given_or(requested.vsync, reported.vsync),
        debug: given_or(requested.debug, reported.debug),
    }
}

/// Fills the opengl settings that the user left open with what the created window reports.
pub fn fill_unset_gl_settings(requested: &NativeGlConfig, reported: &NativeGlConfig) -> (c: NativeGlConfig)
    ensures
        c == filled_gl_config(*requested, *reported),
{
    NativeGlConfig {
        major: given_or_u8(requested.major, reported.major),
        minor: given_or_u8(requested.minor, reported.minor),
        es: given_or_bool(requested.es, reported.es),
        core: given_or_bool(requested.core, reported.core),
        depth_bits: given_or_u8(requested.depth_bits, reported.depth_bits),
        stencil_bits: given_or_u8(requested.stencil_bits, reported.stencil_bits),
        samples: given_or_u8(requested.samples, reported.samples),
        srgb: given_or_bool(requested.srgb, reported.srgb),
        double_buffer: given_or_bool(requested.double_buffer, reported.double_buffer),
        vsync: given_or_bool(requested.vsync, reported.vsync),
        debug: given_or_bool(requested.debug, reported.debug),
    }
}

/// The graphics API that a glfw window records: for an opengl window, the requested
/// settings filled in with what the created window reports; otherwise what was asked for.
pub open spec fn recorded_api(requested: GfxApiType, reported: Option<NativeGlConfig>) -> GfxApiType {
    match requested {
        GfxApiType::OpenGL { native_config } => match reported {
            Some(r) => GfxApiType::OpenGL { native_config: filled_gl_config(native_config, r) },
            None => requested,
        },
        _ => requested,
    }
}

/// The state that this glfw window backend keeps between frames.
#[derive(Clone, Debug)]
pub struct GlfwBackend {
    /// the graphics API of the window; for opengl, with the settings that the window got
    pub gfx_api_type: GfxApiType,
    /// The framebuffer size in pixels.
    pub size_physical_pixels: [u32; 2],
    /// The framebuffer was resized and the renderer has not followed yet.
    pub resized_event_pending: bool,
}

impl GlfwBackend {
    /// The state of a freshly created window whose framebuffer measures `width` by
    /// `height` pixels, with a resize pending for the renderer's first frame. The window was
    /// asked for `gfx_api_type`; for an opengl window, the settings that the created window
    /// reports (`reported`) fill in those that the user left open.
    pub fn new(width: u32, height: u32, gfx_api_type: GfxApiType, reported: Option<NativeGlConfig>) -> (b: GlfwBackend)
        ensures
            b.gfx_api_type == recorded_api(gfx_api_type, reported),
            b.size_physical_pixels == [width, height],
            b.resized_event_pending,
    {
        let recorded = match gfx_api_type {
            GfxApiType::OpenGL { native_config } => match reported {
                Some(r) => GfxApiType::OpenGL { native_config: fill_unset_gl_settings(&native_config, &r) },
                None => GfxApiType::OpenGL { native_config },
            },
            other => other,
        };
        GlfwBackend { gfx_api_type: recorded, size_physical_pixels: [width, height], resized_event_pending: true }
    }

    /// One event: the next state and the reaction.
    pub open spec fn step(self, event: GlfwWindowEvent) -> (GlfwBackend, Reaction) {
        match event {
            GlfwWindowEvent::FramebufferSize(w, h) => (
                GlfwBackend {
                    size_physical_pixels: [w as u32, h as u32],
                    resized_event_pending: true,
                    ..self
                },
                Reaction::ResizeScreen,
            ),
            GlfwWindowEvent::MouseButton(mb, a, m) => (
                self,
                Reaction::Emit(
                    EguiEvent::PointerButton {
                        button: if mb == 0 {
                            PointerButton::Primary
                        } else if mb == 2 {
                            PointerButton::Middle
                        } else {
                            PointerButton::Secondary
                        },
                        pressed: a != GlfwAction::Release,
                        modifiers: glfw_modifiers(m),
                    },
                ),
            ),
            GlfwWindowEvent::Scroll => (self, Reaction::Emit(EguiEvent::Scroll)),
            GlfwWindowEvent::Key(k, a, m) => (self, glfw_key_reaction(k, a, m)),
            GlfwWindowEvent::Char(c) => (self, Reaction::Emit(EguiEvent::Text(c))),
            GlfwWindowEvent::ContentScale => (self, Reaction::Rescale),
            GlfwWindowEvent::Close => (self, Reaction::Close),
            GlfwWindowEvent::FileDrop => (self, Reaction::DropFiles),
            GlfwWindowEvent::CursorPos => (self, Reaction::Emit(EguiEvent::PointerMoved)),
            _ => (self, Reaction::Ignore),
        }
    }

    /// The events of a frame, one after another: the final state and the reactions.
    pub open spec fn run(self, events: Seq<GlfwWindowEvent>) -> (GlfwBackend, Seq<Reaction>)
        decreases events.len(),
    {
        if events.len() == 0 {
            (self, Seq::empty())
        } else {
            let (s, rs) = self.run(events.drop_last());
            let (s2, r) = s.step(events.last());
            (s2, rs.push(r))
        }
    }

    fn on_event(&mut self, event: &GlfwWindowEvent) -> (r: Reaction)
        ensures
            (*final(self), r) == old(self).step(*event),
    {
        match event {
            GlfwWindowEvent::FramebufferSize(w, h) => {
                self.size_physical_pixels = [*w as u32, *h as u32];
                self.resized_event_pending = true;
                Reaction::ResizeScreen
            },
            GlfwWindowEvent::MouseButton(mb, a, m) => Reaction::Emit(
                EguiEvent::PointerButton {
                    button: glfw_to_egui_pointer_button(*mb),
                    pressed: glfw_to_egui_action(*a),
                    modifiers: glfw_to_egui_modifers(*m),
                },
            ),
            GlfwWindowEvent::Scroll => Reaction::Emit(EguiEvent::Scroll),
            GlfwWindowEvent::Key(k, a, m) => crate::window_glfw::glfw_key_event(*k, *a, *m),
            GlfwWindowEvent::Char(c) => Reaction::Emit(EguiEvent::Text(c.clone())),
            GlfwWindowEvent::ContentScale => Reaction::Rescale,
            GlfwWindowEvent::Close => Reaction::Close,
            GlfwWindowEvent::FileDrop => Reaction::DropFiles,
            GlfwWindowEvent::CursorPos => Reaction::Emit(EguiEvent::PointerMoved),
            _ => Reaction::Ignore,
        }
    }

    /// Handles one frame's window events, in order.
    pub fn tick(&mut self, events: &Vec<GlfwWindowEvent>) -> (reactions: Vec<Reaction>)
        ensures
            (*final(self), reactions@) == old(self).run(events@),
    {
        let mut reactions: Vec<Reaction> = Vec::new();
        let ghost start = *self;
        let mut i: usize = 0;
        while i < events.len()
            invariant
                i <= events.len(),
                (*self, reactions@) == start.run(events@.take(i as int)),
            decreases events.len() - i,
        {
            let r = self.on_event(&events[i]);
            reactions.push(r);
            proof {
                assert(events@.take(i + 1).drop_last() == events@.take(i as int));
            }
            i = i + 1;
        }
        proof {
            assert(events@.take(events.len() as int) == events@);
        }
        reactions
    }

    /// Whether the renderer must follow a resize this frame; the resize is then no longer
    /// pending.
    pub fn take_resize_event(&mut self) -> (resized: bool)
        ensures
            resized == old(self).resized_event_pending,
            !final(self).resized_event_pending,
            final(self).size_physical_pixels == old(self).size_physical_pixels,
    {
        let resized = self.resized_event_pending;
        self.resized_event_pending = false;
        resized
    }

    /// Records the framebuffer size that the window reports now and returns it.
    pub fn get_live_physical_size_framebuffer(&mut self, width: i32, height: i32) -> (size: [u32;
        2])
        ensures
            final(self).size_physical_pixels == [width as u32, height as u32],
            final(self).resized_event_pending == old(self).resized_event_pending,
            size == [width as u32, height as u32],
    {
        self.size_physical_pixels = [width as u32, height as u32];
        self.size_physical_pixels
    }
}

/// What this glfw backend does with each window event, whatever its state: a close request
/// asks to close; a framebuffer resize records the size and a pending resize; a mouse
/// button is reported when pressed and when released (button one as primary, button three
/// as middle, any other as secondary), with the event's modifiers; a key that egui knows is
/// reported when pressed, repeated and released, unless control with C, X or V held down
/// makes it copy, cut or paste; typed text, cursor moves and the wheel are handed to egui;
/// keys and buttons leave the state as it was.
pub proof fn lemma_embedded_glfw_event_behaviour(
    b: GlfwBackend,
    mb: i32,
    key: i32,
    action: GlfwAction,
    mods: i32,
    w: i32,
    h: i32,
    text: String,
)
    ensures
        b.step(GlfwWindowEvent::Close).1 == Reaction::Close,
        b.step(GlfwWindowEvent::FramebufferSize(w, h)).0.size_physical_pixels == [w as u32, h as u32],
        b.step(GlfwWindowEvent::FramebufferSize(w, h)).0.resized_event_pending,
        b.step(GlfwWindowEvent::FramebufferSize(w, h)).1 == Reaction::ResizeScreen,
        b.step(GlfwWindowEvent::MouseButton(mb, action, mods)).1 == Reaction::Emit(
            EguiEvent::PointerButton {
                button: if mb == 0 {
                    PointerButton::Primary
                } else if mb == 2 {
                    PointerButton::Middle
                } else {
                    PointerButton::Secondary
                },
                pressed: action != GlfwAction::Release,
                modifiers: glfw_modifiers(mods),
            },
        ),
        b.step(GlfwWindowEvent::MouseButton(mb, action, mods)).0 == b,
        crate::keymap::glfw_key(key) is Some && !(action != GlfwAction::Release
            && crate::keymap::glfw_mods_contain(mods, crate::keymap::GLFW_MOD_CONTROL) && (key
            == crate::keymap::GLFW_KEY_C || key == crate::keymap::GLFW_KEY_X || key
            == crate::keymap::GLFW_KEY_V)) ==> b.step(GlfwWindowEvent::Key(key, action, mods)).1
            == Reaction::Emit(
            EguiEvent::Key(
                crate::egui_types::KeyEvent {
                    key: crate::keymap::glfw_key(key).unwrap(),
                    pressed: action != GlfwAction::Release,
                    repeat: false,
                    modifiers: glfw_modifiers(mods),
                },
            ),
        ),
        b.step(GlfwWindowEvent::Key(key, action, mods)).0 == b,
        b.step(GlfwWindowEvent::Char(text)).1 == Reaction::Emit(EguiEvent::Text(text)),
        b.step(GlfwWindowEvent::CursorPos).1 == Reaction::Emit(EguiEvent::PointerMoved),
        b.step(GlfwWindowEvent::Scroll).1 == Reaction::Emit(EguiEvent::Scroll),
{
}

} // verus!
