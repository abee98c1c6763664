//! The tao window backend: which egui input each tao window event becomes, and the state
//! that the backend keeps between frames.
use vstd::prelude::*;
use crate::egui_backend::GfxApiType;
use crate::egui_types::{EguiEvent, KeyEvent, Modifiers, Reaction};
use crate::keymap::{
    tao_key, tao_key_to_egui, tao_modifiers_to_egui, tao_mouse_button_to_egui, MouseButtonEvent,
    TaoKey, TaoModifiersState,
};
use crate::window_winit::event_button;

verus! {

/// Configuration of the tao backend.
#[derive(Debug)]
pub struct TaoConfig {
    /// window title
    pub title: String,
}

impl Default for TaoConfig {
    /// The title "egui tao window".
    fn default() -> (c: TaoConfig)
        ensures
            c.title@ == "egui tao window"@,
    {
        TaoConfig { title: "egui tao window".to_owned() }
    }
}

/// Whether the tao backend can create a window for this graphics API: tao cannot create an
/// opengl context (it does not work with glutin) and has no web backend, so only windows
/// without a context can be made.
pub open spec fn tao_supports(api: GfxApiType) -> bool {
    api is Vulkan || api is NoApi
}

/// A tao window event, with its positions, deltas, scales and paths left to the caller.
#[derive(PartialEq, Eq, Clone, Debug)]
pub enum TaoWindowEvent {
    /// The window was resized to this size in pixels.
    Resized([u32; 2]),
    /// The user asked to close the window.
    CloseRequested,
    /// A file was dropped on the window.
    DroppedFile,
    /// A key was pressed or released.
    KeyboardInput { pressed: bool, logical_key: TaoKey },
    /// The held modifiers changed.
    ModifiersChanged(TaoModifiersState),
    /// The cursor moved.
    CursorMoved,
    /// The cursor left the window.
    CursorLeft,
    /// The wheel scrolled.
    MouseWheel,
    /// A mouse button was pressed or released.
    MouseInput { pressed: bool, button: MouseButtonEvent },
    /// The scale factor changed.
    ScaleFactorChanged,
    /// The input method committed text.
    ReceivedImeText(String),
    /// Any other event.
    Other,
}

/// The tao window backend's state between frames.
#[derive(Clone, Copy, Debug)]
pub struct TaoBackend {
    /// the modifiers that are held now
    pub modifiers: Modifiers,
    /// the framebuffer size in pixels
    pub framebuffer_size: [u32; 2],
    /// true after a resize, until the renderer has been told
    pub latest_resize_event: bool,
    /// the user asked to close the window
    pub should_close: bool,
}

impl TaoBackend {
    /// The state of a freshly created window for a graphics API that tao supports, with this
    /// framebuffer size: no modifiers are held and a resize is pending for the renderer's
    /// first frame.
    pub fn new(gfx_api_type: &GfxApiType, framebuffer_size: [u32; 2]) -> (b: TaoBackend)
        requires
            tao_supports(*gfx_api_type),
        ensures
            b.modifiers == Modifiers::spec_none(),
            b.framebuffer_size == framebuffer_size,
            b.latest_resize_event,
            !b.should_close,
    {
        TaoBackend {
            modifiers: Modifiers::new(),
            framebuffer_size,
            latest_resize_event: true,
            should_close: false,
        }
    }

    /// One event: the next state and the reaction. Key and mouse events carry the
    /// modifiers that the last modifier change reported.
    pub open spec fn step(self, event: TaoWindowEvent) -> (TaoBackend, Reaction) {
        match event {
            TaoWindowEvent::Resized(size) => (
                TaoBackend { framebuffer_size: size, latest_resize_event: true, ..self },
                Reaction::ResizeScreen,
            ),
            TaoWindowEvent::CloseRequested => (
                TaoBackend { should_close: true, ..self },
                Reaction::Close,
            ),
            TaoWindowEvent::DroppedFile => (self, Reaction::DropFiles),
            TaoWindowEvent::KeyboardInput { pressed, logical_key } => (
                self,
                match tao_key(logical_key) {
                    Some(key) => Reaction::Emit(
                        EguiEvent::Key(
                            KeyEvent { key, pressed, repeat: false, modifiers: self.modifiers },
                        ),
                    ),
                    None => Reaction::Ignore,
                },
            ),
            TaoWindowEvent::ModifiersChanged(m) => (
                TaoBackend {
                    modifiers: Modifiers {
                        alt: m.alt,
                        ctrl: m.control,
                        shift: m.shift,
                        mac_cmd: false,
                        command: m.super_key,
                    },
                    ..self
                },
                Reaction::Ignore,
            ),
            TaoWindowEvent::CursorMoved => (self, Reaction::Emit(EguiEvent::PointerMoved)),
            TaoWindowEvent::CursorLeft => (self, Reaction::Emit(EguiEvent::PointerGone)),
            TaoWindowEvent::MouseWheel => (self, Reaction::Emit(EguiEvent::Scroll)),
            TaoWindowEvent::MouseInput { pressed, button } => (
                self,
                Reaction::Emit(
                    EguiEvent::PointerButton {
                        button: event_button(button),
                        pressed,
                        modifiers: self.modifiers,
                    },
                ),
            ),
            TaoWindowEvent::ScaleFactorChanged => (
                TaoBackend { latest_resize_event: true, ..self },
                Reaction::Rescale,
            ),
            TaoWindowEvent::ReceivedImeText(text) => (self, Reaction::Emit(EguiEvent::Text(text))),
            TaoWindowEvent::Other => (self, Reaction::Ignore),
        }
    }

    /// The events of a frame, one after another: the final state and the reactions.
    pub open spec fn run(self, events: Seq<TaoWindowEvent>) -> (TaoBackend, Seq<Reaction>)
        decreases events.len(),
    {
        if events.len() == 0 {
            (self, Seq::empty())
        } else {
            let (s, rs) = self.run(events.drop_last());
            let (s2, r) = s.step(events.last());
            (s2, rs.push(r))
        }
    }

    /// Handles one tao window event.
    pub fn handle_event(&mut self, event: &TaoWindowEvent) -> (r: Reaction)
        ensures
            (*final(self), r) == old(self).step(*event),
    {
        match event {
            TaoWindowEvent::Resized(size) => {
                self.latest_resize_event = true;
                self.framebuffer_size = *size;
                Reaction::ResizeScreen
            },
            TaoWindowEvent::CloseRequested => {
                self.should_close = true;
                Reaction::Close
            },
            TaoWindowEvent::DroppedFile => Reaction::DropFiles,
            TaoWindowEvent::KeyboardInput { pressed, logical_key } => {
                if let Some(key) = tao_key_to_egui(*logical_key) {
                    Reaction::Emit(
                        EguiEvent::Key(
                            KeyEvent {
                                key,
                                pressed: *pressed,
                                repeat: false,
                                modifiers: self.modifiers,
                            },
                        ),
                    )
                } else {
                    Reaction::Ignore
                }
            },
            TaoWindowEvent::ModifiersChanged(m) => {
                self.modifiers = tao_modifiers_to_egui(*m);
                Reaction::Ignore
            },
            TaoWindowEvent::CursorMoved => Reaction::Emit(EguiEvent::PointerMoved),
            TaoWindowEvent::CursorLeft => Reaction::Emit(EguiEvent::PointerGone),
            TaoWindowEvent::MouseWheel => Reaction::Emit(EguiEvent::Scroll),
            TaoWindowEvent::MouseInput { pressed, button } => Reaction::Emit(
                EguiEvent::PointerButton {
                    button: tao_mouse_button_to_egui(*button),
                    pressed: *pressed,
                    modifiers: self.modifiers,
                },
            ),
            TaoWindowEvent::ScaleFactorChanged => {
                self.latest_resize_event = true;
                Reaction::Rescale
            },
            TaoWindowEvent::ReceivedImeText(text) => Reaction::Emit(EguiEvent::Text(text.clone())),
            TaoWindowEvent::Other => Reaction::Ignore,
        }
    }

    /// Handles a run of window events, in order.
    pub fn handle_events(&mut self, events: &Vec<TaoWindowEvent>) -> (reactions: Vec<Reaction>)
        ensures
            (*final(self), reactions@) == old(self).run(events@),
    {
        let mut reactions: Vec<Reaction> = Vec::new();
        let ghost start = *self;
        let mut i: usize = 0;
        while i < events.len()
            invariant
                i <= events.len(),
                (*self, reactions@) == start.run(events@.take(i as int)),
            decreases events.len() - i,
        {
            let r = self.handle_event(&events[i]);
            reactions.push(r);
            proof {
                assert(events@.take(i + 1).drop_last() == events@.take(i as int));
            }
            i = i + 1;
        }
        proof {
            assert(events@.take(events.len() as int) == events@);
        }
        reactions
    }

    /// Whether the renderer must follow a resize this frame; the resize is then no longer
    /// pending.
    pub fn take_resize_event(&mut self) -> (resized: bool)
        ensures
            resized == old(self).latest_resize_event,
            !final(self).latest_resize_event,
            final(self).modifiers == old(self).modifiers,
            final(self).framebuffer_size == old(self).framebuffer_size,
            final(self).should_close == old(self).should_close,
    {
        let resized = self.latest_resize_event;
        self.latest_resize_event = false;
        resized
    }
}

// ---------------------------------------------------------------------------------------
// Laws

/// A frame's events get one reaction each; once the user asked to close, the backend keeps
/// asking to close; a recorded resize stays recorded until the run loop takes it.
pub proof fn lemma_tao_run(backend: TaoBackend, events: Seq<TaoWindowEvent>)
    ensures
        backend.run(events).1.len() == events.len(),
        backend.should_close ==> backend.run(events).0.should_close,
        backend.latest_resize_event ==> backend.run(events).0.latest_resize_event,
    decreases events.len(),
{
    if events.len() > 0 {
        lemma_tao_run(backend, events.drop_last());
    }
}

/// Key and mouse-button events carry the modifiers of the latest modifier change.
pub proof fn lemma_tao_events_carry_latest_modifiers(
    backend: TaoBackend,
    m: TaoModifiersState,
    event: TaoWindowEvent,
)
    ensures
        ({
            let (s, _) = backend.step(TaoWindowEvent::ModifiersChanged(m));
            let (_, r) = s.step(event);
            let expected = Modifiers {
                alt: m.alt,
                ctrl: m.control,
                shift: m.shift,
                mac_cmd: false,
                command: m.super_key,
            };
            &&& r matches Reaction::Emit(EguiEvent::Key(k)) ==> k.modifiers == expected
            &&& r matches Reaction::Emit(EguiEvent::PointerButton { modifiers, .. }) ==> modifiers
                == expected
        }),
{
}

/// What the tao backend does with each window event, whatever its state: a close request
/// asks to close; a resize records the new size and a pending resize; a key that egui knows
/// is reported both when pressed and when released, with the latest modifiers, and other
/// keys are not; a mouse button is reported both when pressed and when released (left,
/// right and middle as primary, secondary and middle, any other as the first extra
/// button); committed text, cursor moves, the cursor leaving and the wheel are handed to
/// egui; keys and mouse buttons leave the state as it was.
pub proof fn lemma_tao_event_behaviour(
    b: TaoBackend,
    key: TaoKey,
    pressed: bool,
    size: [u32; 2],
    text: String,
    n: u16,
)
    ensures
        b.step(TaoWindowEvent::CloseRequested).0.should_close,
        b.step(TaoWindowEvent::CloseRequested).1 == Reaction::Close,
        b.step(TaoWindowEvent::Resized(size)).0.framebuffer_size == size,
        b.step(TaoWindowEvent::Resized(size)).0.latest_resize_event,
        b.step(TaoWindowEvent::Resized(size)).1 == Reaction::ResizeScreen,
        tao_key(key) matches Some(k) ==> b.step(
            TaoWindowEvent::KeyboardInput { pressed, logical_key: key },
        ).1 == Reaction::Emit(
            EguiEvent::Key(KeyEvent { key: k, pressed, repeat: false, modifiers: b.modifiers }),
        ),
        tao_key(key) is None ==> b.step(TaoWindowEvent::KeyboardInput { pressed, logical_key: key }).1
            == Reaction::Ignore,
        b.step(TaoWindowEvent::KeyboardInput { pressed, logical_key: key }).0 == b,
        b.step(TaoWindowEvent::MouseInput { pressed, button: MouseButtonEvent::Left }).1
            == Reaction::Emit(
            EguiEvent::PointerButton {
                button: crate::egui_types::PointerButton::Primary,
                pressed,
                modifiers: b.modifiers,
            },
        ),
        b.step(TaoWindowEvent::MouseInput { pressed, button: MouseButtonEvent::Right }).1
            == Reaction::Emit(
            EguiEvent::PointerButton {
                button: crate::egui_types::PointerButton::Secondary,
                pressed,
                modifiers: b.modifiers,
            },
        ),
        b.step(TaoWindowEvent::MouseInput { pressed, button: MouseButtonEvent::Middle }).1
            == Reaction::Emit(
            EguiEvent::PointerButton {
                button: crate::egui_types::PointerButton::Middle,
                pressed,
                modifiers: b.modifiers,
            },
        ),
        b.step(TaoWindowEvent::MouseInput { pressed, button: MouseButtonEvent::Other(n) }).1
            == Reaction::Emit(
            EguiEvent::PointerButton {
                button: crate::egui_types::PointerButton::Extra1,
                pressed,
                modifiers: b.modifiers,
            },
        ),
        b.step(TaoWindowEvent::MouseInput { pressed, button: MouseButtonEvent::Left }).0 == b,
        b.step(TaoWindowEvent::ReceivedImeText(text)).1 == Reaction::Emit(EguiEvent::Text(text)),
        b.step(TaoWindowEvent::CursorMoved).1 == Reaction::Emit(EguiEvent::PointerMoved),
        b.step(TaoWindowEvent::CursorLeft).1 == Reaction::Emit(EguiEvent::PointerGone),
        b.step(TaoWindowEvent::MouseWheel).1 == Reaction::Emit(EguiEvent::Scroll),
{
}

} // verus!
