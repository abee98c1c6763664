//! The glfw window backend (with mouse passthrough): which egui input each glfw window
//! event becomes, and the state that the backend keeps between frames.
use vstd::prelude::*;
use crate::egui_backend::BackendConfig;
use crate::egui_backend::glfw_backend::GlfwClientApi;
use crate::egui_types::{CursorIcon, EguiEvent, KeyEvent, Reaction};
use crate::keymap::{
    egui_to_glfw_cursor, glfw_cursor, glfw_key, glfw_mods_contain, glfw_to_egui_action,
    glfw_to_egui_key, glfw_to_egui_modifers, glfw_to_egui_pointer_button, GlfwAction,
    GlfwStandardCursor, GLFW_KEY_C, GLFW_KEY_V, GLFW_KEY_X, GLFW_MOD_ALT, GLFW_MOD_CONTROL,
    GLFW_MOD_SHIFT,
};

verus! {

/// A glfw window event, with its positions, offsets, scales and paths left to the caller.
#[derive(PartialEq, Eq, Clone, Debug)]
pub enum GlfwWindowEvent {
    /// The framebuffer was resized to the given size in pixels.
    FramebufferSize(i32, i32),
    /// A mouse button (`glfw::MouseButton as i32`) changed state, with the modifier mask.
    MouseButton(i32, GlfwAction, i32),
    /// The wheel scrolled.
    Scroll,
    /// A key (`glfw::Key as i32`) changed state, with the modifier mask.
    Key(i32, GlfwAction, i32),
    /// A character was typed; it is given as text.
    Char(String),
    /// The content scale changed.
    ContentScale,
    /// The user asked to close the window.
    Close,
    /// Files were dropped on the window.
    FileDrop,
    /// The cursor moved.
    CursorPos,
    /// The cursor entered (`true`) or left (`false`) the window.
    CursorEnter(bool),
    /// Any other glfw event.
    Other,
}

/// What the window reports about the cursor at the end of a frame's events.
#[derive(PartialEq, Eq, Structural, Clone, Copy, Debug)]
pub struct CursorProbe {
    /// The window lets mouse input pass through to the windows below it.
    pub passthrough: bool,
    /// The cursor lies within the framebuffer's bounds.
    pub within_bounds: bool,
    /// The cursor is not where it was at the end of the previous frame.
    pub moved: bool,
}

/// The glfw window backend's state between frames.
#[derive(Clone, Copy, Debug)]
pub struct GlfwBackend {
    /// The framebuffer size in pixels.
    pub framebuffer_size_physical: [u32; 2],
    /// The framebuffer was resized and the renderer has not followed yet.
    pub resized_event_pending: bool,
    /// The cursor shape that the window shows.
    pub cursor_icon: GlfwStandardCursor,
    /// The pointer was within the window when last seen.
    pub cursor_inside_bounds: bool,
}

/// What one frame's events gave egui.
#[derive(PartialEq, Eq, Clone, Debug)]
pub struct GlfwTick {
    /// The reaction to each event, in the order of the events.
    pub reactions: Vec<Reaction>,
    /// The pointer event that the backend simulates at the end of the frame when the
    /// window is passthrough and no cursor event arrived: `PointerMoved` (to the current
    /// cursor position) or `PointerGone`.
    pub simulated: Option<EguiEvent>,
}

/// The reaction to a glfw key event: control with C, X or V (pressed or repeated) is copy,
/// cut or paste; any other key that egui knows is a key event; the rest is ignored.
pub open spec fn glfw_key_reaction(key: i32, action: GlfwAction, mods: i32) -> Reaction {
    let pressed = action != GlfwAction::Release;
    let shortcut = pressed && glfw_mods_contain(mods, GLFW_MOD_CONTROL);
    if key == GLFW_KEY_C && shortcut {
        Reaction::Emit(EguiEvent::Copy)
    } else if key == GLFW_KEY_X && shortcut {
        Reaction::Emit(EguiEvent::Cut)
    } else if key == GLFW_KEY_V && shortcut {
        Reaction::Emit(EguiEvent::ClipboardText)
    } else {
        match glfw_key(key) {
            Some(k) => Reaction::Emit(
                EguiEvent::Key(
                    KeyEvent {
                        key: k,
                        pressed,
                        repeat: false,
                        modifiers: glfw_modifiers(mods),
                    },
                ),
            ),
            None => Reaction::Ignore,
        }
    }
}

/// The reaction to a glfw key event.
pub(crate) fn glfw_key_event(k: i32, a: GlfwAction, m: i32) -> (r: Reaction)
    ensures
        r == glfw_key_reaction(k, a, m),
{
    let pressed = glfw_to_egui_action(a);
    let shortcut = pressed && m & GLFW_MOD_CONTROL == GLFW_MOD_CONTROL;
    if k == GLFW_KEY_C && shortcut {
        Reaction::Emit(EguiEvent::Copy)
    } else if k == GLFW_KEY_X && shortcut {
        Reaction::Emit(EguiEvent::Cut)
    } else if k == GLFW_KEY_V && shortcut {
        Reaction::Emit(EguiEvent::ClipboardText)
    } else {
        match glfw_to_egui_key(k) {
            Some(key) => Reaction::Emit(
                EguiEvent::Key(
                    KeyEvent { key, pressed, repeat: false, modifiers: glfw_to_egui_modifers(m) },
                ),
            ),
            None => Reaction::Ignore,
        }
    }
}

/// egui's modifiers for a glfw modifier mask, as `glfw_to_egui_modifers` computes them.
pub open spec fn glfw_modifiers(mods: i32) -> crate::egui_types::Modifiers {
    crate::egui_types::Modifiers {
        alt: glfw_mods_contain(mods, GLFW_MOD_ALT),
        ctrl: glfw_mods_contain(mods, GLFW_MOD_CONTROL),
        shift: glfw_mods_contain(mods, GLFW_MOD_SHIFT),
        mac_cmd: false,
        command: glfw_mods_contain(mods, GLFW_MOD_CONTROL),
    }
}

/// The client API of the passthrough window: opengl for an opengl backend (its context is
/// then made current), none otherwise.
pub fn window_client_api(backend_config: &BackendConfig) -> (api: GlfwClientApi)
    ensures
        api == (if backend_config.is_opengl {
            GlfwClientApi::OpenGl
        } else {
            GlfwClientApi::NoApi
        }),
{
    if backend_config.is_opengl {
        GlfwClientApi::OpenGl
    } else {
        GlfwClientApi::NoApi
    }
}

impl GlfwBackend {
    /// Whether the renderer must follow a resize before this frame; the resize is then no
    /// longer pending.
    pub fn take_resize_event(&mut self) -> (resized: bool)
        ensures
            resized == old(self).resized_event_pending,
            !final(self).resized_event_pending,
            final(self).framebuffer_size_physical == old(self).framebuffer_size_physical,
            final(self).cursor_icon == old(self).cursor_icon,
            final(self).cursor_inside_bounds == old(self).cursor_inside_bounds,
    {
        let resized = self.resized_event_pending;
        self.resized_event_pending = false;
        resized
    }

    /// The state of a freshly created window whose framebuffer measures `width` by
    /// `height` pixels: a resize is pending, so that the renderer sets its viewport on the
    /// first frame; the cursor is the arrow and not yet within the window.
    pub fn new(width: i32, height: i32) -> (b: GlfwBackend)
        ensures
            b == (GlfwBackend {
                framebuffer_size_physical: [width as u32, height as u32],
                resized_event_pending: true,
                cursor_icon: GlfwStandardCursor::Arrow,
                cursor_inside_bounds: false,
            }),
    {
        GlfwBackend {
            framebuffer_size_physical: [width as u32, height as u32],
            resized_event_pending: true,
            cursor_icon: GlfwStandardCursor::Arrow,
            cursor_inside_bounds: false,
        }
    }

    /// One event: the next state, whether a cursor event has arrived this frame, and the
    /// reaction.
    pub open spec fn step(self, cursor_event: bool, event: GlfwWindowEvent, passthrough: bool) -> (
        GlfwBackend,
        bool,
        Reaction,
    ) {
        match event {
            GlfwWindowEvent::FramebufferSize(w, h) => (
                GlfwBackend {
                    framebuffer_size_physical: [w as u32, h as u32],
                    resized_event_pending: true,
                    ..self
                },
                cursor_event,
                Reaction::ResizeScreen,
            ),
            GlfwWindowEvent::MouseButton(mb, a, m) => (
                self,
                cursor_event,
                Reaction::Emit(
                    EguiEvent::PointerButton {
                        button: glfw_button(mb),
                        pressed: a != GlfwAction::Release,
                        modifiers: glfw_modifiers(m),
                    },
                ),
            ),
            GlfwWindowEvent::Scroll => (self, cursor_event, Reaction::Emit(EguiEvent::Scroll)),
            GlfwWindowEvent::Key(k, a, m) => (self, cursor_event, glfw_key_reaction(k, a, m)),
            GlfwWindowEvent::Char(c) => (self, cursor_event, Reaction::Emit(EguiEvent::Text(c))),
            GlfwWindowEvent::ContentScale => (self, cursor_event, Reaction::Rescale),
            GlfwWindowEvent::Close => (self, cursor_event, Reaction::Close),
            GlfwWindowEvent::FileDrop => (self, cursor_event, Reaction::DropFiles),
            GlfwWindowEvent::CursorPos => (
                GlfwBackend { cursor_inside_bounds: true, ..self },
                true,
                Reaction::Emit(EguiEvent::PointerMoved),
            ),
            GlfwWindowEvent::CursorEnter(entered) => (
                GlfwBackend { cursor_inside_bounds: entered, ..self },
                cursor_event,
                if !entered && !passthrough {
                    Reaction::Emit(EguiEvent::PointerGone)
                } else {
                    Reaction::Ignore
                },
            ),
            GlfwWindowEvent::Other => (self, cursor_event, Reaction::Ignore),
        }
    }

    /// The events of a frame, one after another: the final state, whether a cursor event
    /// arrived, and the reactions in order.
    pub open spec fn run(self, cursor_event: bool, events: Seq<GlfwWindowEvent>, passthrough: bool) -> (
        GlfwBackend,
        bool,
        Seq<Reaction>,
    )
        decreases events.len(),
    {
        if events.len() == 0 {
            (self, cursor_event, Seq::empty())
        } else {
            let (s, c, rs) = self.run(cursor_event, events.drop_last(), passthrough);
            let (s2, c2, r) = s.step(c, events.last(), passthrough);
            (s2, c2, rs.push(r))
        }
    }

    /// The end of a frame. When no cursor event arrived and the window is passthrough, the
    /// backend watches the cursor itself: within the window, it reports a move when the
    /// cursor moved; outside it, it reports the pointer gone the first time only.
    pub open spec fn finish(self, cursor_event: bool, probe: CursorProbe) -> (
        GlfwBackend,
        Option<EguiEvent>,
    ) {
        if !cursor_event && probe.passthrough {
            if probe.within_bounds {
                (
                    GlfwBackend { cursor_inside_bounds: true, ..self },
                    if probe.moved {
                        Some(EguiEvent::PointerMoved)
                    } else {
                        None
                    },
                )
            } else if self.cursor_inside_bounds {
                (GlfwBackend { cursor_inside_bounds: false, ..self }, Some(EguiEvent::PointerGone))
            } else {
                (self, None)
            }
        } else {
            (self, None)
        }
    }

    fn on_event(&mut self, cursor_event: &mut bool, event: &GlfwWindowEvent, passthrough: bool) -> (r:
        Reaction)
        ensures
            (*final(self), *final(cursor_event), r) == old(self).step(
                *old(cursor_event),
                *event,
                passthrough,
            ),
    {
        match event {
            GlfwWindowEvent::FramebufferSize(w, h) => {
                self.framebuffer_size_physical = [*w as u32, *h as u32];
                self.resized_event_pending = true;
                Reaction::ResizeScreen
            },
            GlfwWindowEvent::MouseButton(mb, a, m) => Reaction::Emit(
                EguiEvent::PointerButton {
                    button: glfw_to_egui_pointer_button(*mb),
                    pressed: glfw_to_egui_action(*a),
                    modifiers: glfw_to_egui_modifers(*m),
                },
            ),
            // we scroll 25 points per wheel step; the caller scales the offsets
            GlfwWindowEvent::Scroll => Reaction::Emit(EguiEvent::Scroll),
            GlfwWindowEvent::Key(k, a, m) => glfw_key_event(*k, *a, *m),
            GlfwWindowEvent::Char(c) => Reaction::Emit(EguiEvent::Text(c.clone())),
            GlfwWindowEvent::ContentScale => Reaction::Rescale,
            GlfwWindowEvent::Close => Reaction::Close,
            GlfwWindowEvent::FileDrop => Reaction::DropFiles,
            GlfwWindowEvent::CursorPos => {
                self.cursor_inside_bounds = true;
                *cursor_event = true;
                Reaction::Emit(EguiEvent::PointerMoved)
            },
            GlfwWindowEvent::CursorEnter(entered) => {
                self.cursor_inside_bounds = *entered;
                if *entered {
                    Reaction::Ignore
                } else if !passthrough {
                    // not passthrough: the pointer really left
                    Reaction::Emit(EguiEvent::PointerGone)
                } else {
                    // passthrough: the window may merely have lost focus, and the end of
                    // the frame decides from the cursor position
                    Reaction::Ignore
                }
            },
            GlfwWindowEvent::Other => Reaction::Ignore,
        }
    }

    /// Handles one frame's window events, then, for a passthrough window without cursor
    /// events, simulates the pointer from the cursor probe.
    pub fn tick(&mut self, events: &Vec<GlfwWindowEvent>, probe: CursorProbe) -> (t: GlfwTick)
        ensures
            ({
                let (s, c, rs) = old(self).run(false, events@, probe.passthrough);
                let (s2, p) = s.finish(c, probe);
                &&& t.reactions@ == rs
                &&& t.simulated == p
                &&& *final(self) == s2
            }),
    {
        let mut cursor_event = false;
        let mut reactions: Vec<Reaction> = Vec::new();
        let ghost start = *self;
        let mut i: usize = 0;
        while i < events.len()
            invariant
                i <= events.len(),
                (*self, cursor_event, reactions@) == start.run(
                    false,
                    events@.take(i as int),
                    probe.passthrough,
                ),
            decreases events.len() - i,
        {
            let r = self.on_event(&mut cursor_event, &events[i], probe.passthrough);
            reactions.push(r);
            proof {
                assert(events@.take(i + 1).drop_last() == events@.take(i as int));
            }
            i = i + 1;
        }
        proof {
            assert(events@.take(events.len() as int) == events@);
        }
        let mut simulated = None;
        if !cursor_event && probe.passthrough {
            if probe.within_bounds {
                // the cursor is within the window: report a move if it moved
                if probe.moved {
                    simulated = Some(EguiEvent::PointerMoved);
                }
                self.cursor_inside_bounds = true;
            } else if self.cursor_inside_bounds {
                // the cursor left the window for the first time since it was last inside
                simulated = Some(EguiEvent::PointerGone);
                self.cursor_inside_bounds = false;
            }
        }
        GlfwTick { reactions, simulated }
    }

    /// Shows egui's cursor icon: returns the glfw cursor that the window must be given
    /// when it differs from the one it shows, and `None` when it already shows it.
    pub fn set_cursor(&mut self, cursor: CursorIcon) -> (change: Option<GlfwStandardCursor>)
        ensures
            final(self).cursor_icon == glfw_cursor(cursor),
            final(self).framebuffer_size_physical == old(self).framebuffer_size_physical,
            final(self).resized_event_pending == old(self).resized_event_pending,
            final(self).cursor_inside_bounds == old(self).cursor_inside_bounds,
            change == (if glfw_cursor(cursor) != old(self).cursor_icon {
                Some(glfw_cursor(cursor))
            } else {
                None
            }),
    {
        let cursor = egui_to_glfw_cursor(cursor);
        if cursor != self.cursor_icon {
            self.cursor_icon = cursor;
            Some(cursor)
        } else {
            None
        }
    }

    /// Records the framebuffer size that the window reports now and returns it.
    pub fn get_live_physical_size_framebuffer(&mut self, width: i32, height: i32) -> (size: Option<
        [u32; 2],
    >)
        ensures
            final(self).framebuffer_size_physical == [width as u32, height as u32],
            size == Some([width as u32, height as u32]),
            final(self).resized_event_pending == old(self).resized_event_pending,
            final(self).cursor_icon == old(self).cursor_icon,
            final(self).cursor_inside_bounds == old(self).cursor_inside_bounds,
    {
        self.framebuffer_size_physical = [width as u32, height as u32];
        Some(self.framebuffer_size_physical)
    }
}

/// The egui pointer button for a glfw mouse button, as `glfw_to_egui_pointer_button`
/// computes it.
pub open spec fn glfw_button(mb: i32) -> crate::egui_types::PointerButton {
    if mb == 0 {
        crate::egui_types::PointerButton::Primary
    } else if mb == 2 {
        crate::egui_types::PointerButton::Middle
    } else if mb == 3 {
        crate::egui_types::PointerButton::Extra1
    } else if mb == 4 {
        crate::egui_types::PointerButton::Extra2
    } else {
        crate::egui_types::PointerButton::Secondary
    }
}

// ---------------------------------------------------------------------------------------
// Laws

/// A frame's events get one reaction each.
pub proof fn lemma_one_reaction_per_event(
    backend: GlfwBackend,
    cursor_event: bool,
    events: Seq<GlfwWindowEvent>,
    passthrough: bool,
)
    ensures
        backend.run(cursor_event, events, passthrough).2.len() == events.len(),
    decreases events.len(),
{
    if events.len() > 0 {
        lemma_one_reaction_per_event(backend, cursor_event, events.drop_last(), passthrough);
    }
}

/// A pending resize stays pending through any events, until the run loop hands it to the
/// renderer; a framebuffer-size event makes one pending, with its size.
pub proof fn lemma_resize_stays_pending(
    backend: GlfwBackend,
    cursor_event: bool,
    events: Seq<GlfwWindowEvent>,
    passthrough: bool,
)
    ensures
        backend.resized_event_pending ==> backend.run(
            cursor_event,
            events,
            passthrough,
        ).0.resized_event_pending,
        events.len() > 0 ==> (events.last() matches GlfwWindowEvent::FramebufferSize(w, h) ==> {
            let s = backend.run(cursor_event, events, passthrough).0;
            s.resized_event_pending && s.framebuffer_size_physical == [w as u32, h as u32]
        }),
    decreases events.len(),
{
    if events.len() > 0 {
        lemma_resize_stays_pending(backend, cursor_event, events.drop_last(), passthrough);
    }
}

/// Copy, cut and paste come only from the C, X and V keys held down with control.
pub proof fn lemma_clipboard_needs_control(key: i32, action: GlfwAction, mods: i32)
    ensures
        glfw_key_reaction(key, action, mods) == Reaction::Emit(EguiEvent::Copy) ==> key
            == GLFW_KEY_C && action != GlfwAction::Release && glfw_mods_contain(
            mods,
            GLFW_MOD_CONTROL,
        ),
        glfw_key_reaction(key, action, mods) == Reaction::Emit(EguiEvent::Cut) ==> key
            == GLFW_KEY_X && action != GlfwAction::Release && glfw_mods_contain(
            mods,
            GLFW_MOD_CONTROL,
        ),
        glfw_key_reaction(key, action, mods) == Reaction::Emit(EguiEvent::ClipboardText) ==> key
            == GLFW_KEY_V && action != GlfwAction::Release && glfw_mods_contain(
            mods,
            GLFW_MOD_CONTROL,
        ),
{
}

/// For a passthrough window, while the cursor stays outside the window and no cursor event
/// arrives, the pointer is reported gone once: the next frames report nothing.
pub proof fn lemma_pointer_gone_once(backend: GlfwBackend, probe: CursorProbe)
    requires
        probe.passthrough,
        !probe.within_bounds,
    ensures
        ({
            let (s1, _) = backend.finish(false, probe);
            let (s2, p2) = s1.finish(false, probe);
            &&& !s1.cursor_inside_bounds
            &&& p2 is None
            &&& !s2.cursor_inside_bounds
        }),
        backend.cursor_inside_bounds ==> backend.finish(false, probe).1 == Some(
            EguiEvent::PointerGone,
        ),
{
}

/// For a passthrough window, a cursor that comes back within the window counts as inside
/// again, so that leaving it later is reported.
pub proof fn lemma_pointer_back_within_bounds(backend: GlfwBackend, probe: CursorProbe, out: CursorProbe)
    requires
        probe.passthrough,
        probe.within_bounds,
        out.passthrough,
        !out.within_bounds,
    ensures
        ({
            let (s1, _) = backend.finish(false, probe);
            &&& s1.cursor_inside_bounds
            &&& s1.finish(false, out).1 == Some(EguiEvent::PointerGone)
        }),
{
}

/// A cursor event in the frame, or a window that is not passthrough, leaves the pointer to
/// the window events: nothing is simulated.
pub proof fn lemma_no_simulation_with_cursor_events(backend: GlfwBackend, cursor_event: bool, probe: CursorProbe)
    requires
        cursor_event || !probe.passthrough,
    ensures
        backend.finish(cursor_event, probe).1 is None,
{
}

/// The egui pointer button that glfw's mouse button `mb` (`glfw::MouseButton as i32`)
/// stands for: buttons one to five (0 to 4) are primary, secondary, middle and the two extra
/// buttons; any other counts as secondary.
pub open spec fn glfw_button_number(mb: i32, button: crate::egui_types::PointerButton) -> bool {
    ||| mb == 0 && button == crate::egui_types::PointerButton::Primary
    ||| mb == 1 && button == crate::egui_types::PointerButton::Secondary
    ||| mb == 2 && button == crate::egui_types::PointerButton::Middle
    ||| mb == 3 && button == crate::egui_types::PointerButton::Extra1
    ||| mb == 4 && button == crate::egui_types::PointerButton::Extra2
    ||| !(0 <= mb <= 4) && button == crate::egui_types::PointerButton::Secondary
}

/// What the passthrough glfw backend does with each window event, whatever its state: a
/// close request asks to close; a framebuffer resize records the size and a pending resize;
/// a mouse button is reported when pressed and when released, as the egui button that its
/// number stands for, with the event's modifiers; a key that egui knows is reported when
/// pressed, repeated and released (a repeat counts as held), with the event's modifiers,
/// unless control with C, X or V held down makes it copy, cut or paste; typed text, cursor
/// moves and the wheel are handed to egui; keys and buttons leave the state as it was.
pub proof fn lemma_glfw_event_behaviour(
    b: GlfwBackend,
    cursor_event: bool,
    passthrough: bool,
    mb: i32,
    key: i32,
    action: GlfwAction,
    mods: i32,
    w: i32,
    h: i32,
    text: String,
)
    ensures
        b.step(cursor_event, GlfwWindowEvent::Close, passthrough).2 == Reaction::Close,
        b.step(cursor_event, GlfwWindowEvent::FramebufferSize(w, h), passthrough).0.framebuffer_size_physical
            == [w as u32, h as u32],
        b.step(cursor_event, GlfwWindowEvent::FramebufferSize(w, h), passthrough).0.resized_event_pending,
        b.step(cursor_event, GlfwWindowEvent::FramebufferSize(w, h), passthrough).2
            == Reaction::ResizeScreen,
        forall|button: crate::egui_types::PointerButton|
            glfw_button_number(mb, button) ==> b.step(
                cursor_event,
                GlfwWindowEvent::MouseButton(mb, action, mods),
                passthrough,
            ).2 == Reaction::Emit(
                EguiEvent::PointerButton {
                    button,
                    pressed: action != GlfwAction::Release,
                    modifiers: glfw_modifiers(mods),
                },
            ),
        b.step(cursor_event, GlfwWindowEvent::MouseButton(mb, action, mods), passthrough).0 == b,
        glfw_key(key) is Some && !(action != GlfwAction::Release && glfw_mods_contain(
            mods,
            GLFW_MOD_CONTROL,
        ) && (key == GLFW_KEY_C || key == GLFW_KEY_X || key == GLFW_KEY_V)) ==> b.step(
            cursor_event,
            GlfwWindowEvent::Key(key, action, mods),
            passthrough,
        ).2 == Reaction::Emit(
            EguiEvent::Key(
                KeyEvent {
                    key: glfw_key(key).unwrap(),
                    pressed: action != GlfwAction::Release,
                    repeat: false,
                    modifiers: glfw_modifiers(mods),
                },
            ),
        ),
        action != GlfwAction::Release && glfw_mods_contain(mods, GLFW_MOD_CONTROL) ==> {
            &&& key == GLFW_KEY_C ==> b.step(cursor_event, GlfwWindowEvent::Key(key, action, mods), passthrough).2
                == Reaction::Emit(EguiEvent::Copy)
            &&& key == GLFW_KEY_X ==> b.step(cursor_event, GlfwWindowEvent::Key(key, action, mods), passthrough).2
                == Reaction::Emit(EguiEvent::Cut)
            &&& key == GLFW_KEY_V ==> b.step(cursor_event, GlfwWindowEvent::Key(key, action, mods), passthrough).2
                == Reaction::Emit(EguiEvent::ClipboardText)
        },
        b.step(cursor_event, GlfwWindowEvent::Key(key, action, mods), passthrough).0 == b,
        b.step(cursor_event, GlfwWindowEvent::Char(text), passthrough).2 == Reaction::Emit(
            EguiEvent::Text(text),
        ),
        b.step(cursor_event, GlfwWindowEvent::CursorPos, passthrough).2 == Reaction::Emit(
            EguiEvent::PointerMoved,
        ),
        b.step(cursor_event, GlfwWindowEvent::Scroll, passthrough).2 == Reaction::Emit(EguiEvent::Scroll),
{
}

/// Each glfw modifier flag stands for its own egui modifier and for no other: shift for
/// shift, alt for alt, and control for ctrl and for command; no flag is no modifier.
pub proof fn lemma_glfw_modifier_flags()
    ensures
        glfw_modifiers(0) == crate::egui_types::Modifiers::spec_none(),
        glfw_modifiers(GLFW_MOD_SHIFT) == (
            crate::egui_types::Modifiers { alt: false, ctrl: false, shift: true, mac_cmd: false, command: false }
        ),
        glfw_modifiers(GLFW_MOD_CONTROL) == (
            crate::egui_types::Modifiers { alt: false, ctrl: true, shift: false, mac_cmd: false, command: true }
        ),
        glfw_modifiers(GLFW_MOD_ALT) == (
            crate::egui_types::Modifiers { alt: true, ctrl: false, shift: false, mac_cmd: false, command: false }
        ),
{
    assert(
        ((1i32 & 1i32) == 1i32) == true
        && ((1i32 & 2i32) == 2i32) == false
        && ((1i32 & 4i32) == 4i32) == false
        && ((2i32 & 1i32) == 1i32) == false
        && ((2i32 & 2i32) == 2i32) == true
        && ((2i32 & 4i32) == 4i32) == false
        && ((4i32 & 1i32) == 1i32) == false
        && ((4i32 & 2i32) == 2i32) == false
        && ((4i32 & 4i32) == 4i32) == true
        && ((0i32 & 1i32) == 1i32) == false
        && ((0i32 & 2i32) == 2i32) == false
        && ((0i32 & 4i32) == 4i32) == false
    ) by (bit_vector);
}

} // verus!
