//! The sdl2 window backend: which egui input each sdl2 event becomes, and the state that the
//! backend keeps between frames.
use vstd::prelude::*;
use crate::egui_types::{EguiEvent, KeyEvent, Modifiers, Reaction};
use crate::keymap::{
    sdl_key, sdl_mods_contain, sdl_to_egui_key, sdl_to_egui_modifiers, sdl_to_egui_pointer_button,
    SDL_KMOD_LALT, SDL_KMOD_LCTRL, SDL_KMOD_LGUI, SDL_KMOD_LSHIFT, SDL_KMOD_RALT, SDL_KMOD_RCTRL,
    SDL_KMOD_RGUI, SDL_KMOD_RSHIFT, SDL_SCANCODE_C, SDL_SCANCODE_LALT, SDL_SCANCODE_LCTRL,
    SDL_SCANCODE_LGUI, SDL_SCANCODE_LSHIFT, SDL_SCANCODE_RALT, SDL_SCANCODE_RCTRL,
    SDL_SCANCODE_RGUI, SDL_SCANCODE_RSHIFT, SDL_SCANCODE_V, SDL_SCANCODE_X,
};

verus! {

/// The `SDL_WINDOW_OPENGL` window flag.
pub const SDL_WINDOW_OPENGL: u32 = 0x2;

/// Whether a window with these flags (`Window::window_flags`) was created with an opengl
/// context.
pub fn is_opengl_window(window_flags: u32) -> (r: bool)
    ensures
        r == (window_flags & SDL_WINDOW_OPENGL != 0),
{
    window_flags & SDL_WINDOW_OPENGL != 0
}

/// An sdl2 event that the backend handles, with its positions, offsets and file names left
/// to the caller. Every other sdl2 event is unsupported.
#[derive(PartialEq, Eq, Clone, Debug)]
pub enum Sdl2Event {
    /// The application is to quit.
    Quit,
    /// The window changed size; its drawable size in pixels is now this.
    WindowSizeChanged { drawable_size: [u32; 2] },
    /// The window is to close.
    WindowClose,
    /// The pointer left the window.
    WindowLeave,
    /// Any other window event.
    WindowOther,
    /// A key went down (`Scancode as i32`), with the modifier mask.
    KeyDown { scancode: i32, keymod: u16, repeat: bool },
    /// A key went up (`Scancode as i32`), with the modifier mask.
    KeyUp { scancode: i32, keymod: u16, repeat: bool },
    /// Text was typed.
    TextInput(String),
    /// The mouse moved.
    MouseMotion,
    /// A mouse button (`MouseButton as u8`) went down.
    MouseButtonDown(u8),
    /// A mouse button (`MouseButton as u8`) went up.
    MouseButtonUp(u8),
    /// The wheel scrolled.
    MouseWheel,
    /// A file was dropped on the window.
    DropFile,
    /// The application is terminating.
    AppTerminating,
}

/// The sdl2 window backend's state between frames.
#[derive(Clone, Copy, Debug)]
pub struct Sdl2Backend {
    /// The drawable size of the window in pixels.
    pub size_physical_pixels: [u32; 2],
    /// The window was resized and the renderer has not followed yet.
    pub latest_resize_event: bool,
    /// The user asked to close the window or quit.
    pub should_close: bool,
}

/// Whether `scancode` is one of the two keys `left` and `right`.
pub open spec fn either(scancode: i32, left: i32, right: i32) -> bool {
    scancode == left || scancode == right
}

/// The modifiers `m` with those of the held keys added: control, shift, alt and the GUI
/// keys (as `command`), left or right.
pub open spec fn held_modifiers(m: Modifiers, pressed: Seq<i32>) -> Modifiers {
    Modifiers {
        ctrl: m.ctrl || exists|i: int|
            0 <= i < pressed.len() && either(
                #[trigger] pressed[i],
                SDL_SCANCODE_LCTRL,
                SDL_SCANCODE_RCTRL,
            ),
        shift: m.shift || exists|i: int|
            0 <= i < pressed.len() && either(
                #[trigger] pressed[i],
                SDL_SCANCODE_LSHIFT,
                SDL_SCANCODE_RSHIFT,
            ),
        alt: m.alt || exists|i: int|
            0 <= i < pressed.len() && either(
                #[trigger] pressed[i],
                SDL_SCANCODE_LALT,
                SDL_SCANCODE_RALT,
            ),
        command: m.command || exists|i: int|
            0 <= i < pressed.len() && either(
                #[trigger] pressed[i],
                SDL_SCANCODE_LGUI,
                SDL_SCANCODE_RGUI,
            ),
        mac_cmd: m.mac_cmd,
    }
}

/// One more held key: one of the pair `left`/`right` is held among `next` when it was held
/// among `prev` or the added key is one of them.
proof fn lemma_held_pair_step(prev: Seq<i32>, next: Seq<i32>, left: i32, right: i32)
    requires
        next.len() == prev.len() + 1,
        forall|j: int| 0 <= j < prev.len() ==> next[j] == #[trigger] prev[j],
    ensures
        (exists|j: int| 0 <= j < next.len() && either(#[trigger] next[j], left, right)) == ((exists|
            j: int,
        | 0 <= j < prev.len() && either(#[trigger] prev[j], left, right)) || either(
            next[prev.len() as int],
            left,
            right,
        )),
{
    if exists|j: int| 0 <= j < next.len() && either(#[trigger] next[j], left, right) {
        let j = choose|j: int| 0 <= j < next.len() && either(#[trigger] next[j], left, right);
        if j < prev.len() {
            assert(either(prev[j], left, right));
        }
    }
    if exists|j: int| 0 <= j < prev.len() && either(#[trigger] prev[j], left, right) {
        let j = choose|j: int| 0 <= j < prev.len() && either(#[trigger] prev[j], left, right);
        assert(either(next[j], left, right));
    }
}

/// Adds to `modifiers` those of the keys that the keyboard reports as held
/// (`KeyboardState::pressed_scancodes`, each as `Scancode as i32`).
pub fn add_pressed_modifiers(modifiers: Modifiers, pressed: &Vec<i32>) -> (m: Modifiers)
    ensures
        m == held_modifiers(modifiers, pressed@),
{
    let mut m = modifiers;
    let mut i: usize = 0;
    while i < pressed.len()
        invariant
            i <= pressed.len(),
            m == held_modifiers(modifiers, pressed@.take(i as int)),
        decreases pressed.len() - i,
    {
        let code = pressed[i];
        if code == SDL_SCANCODE_LCTRL || code == SDL_SCANCODE_RCTRL {
            m.ctrl = true;
        } else if code == SDL_SCANCODE_LSHIFT || code == SDL_SCANCODE_RSHIFT {
            m.shift = true;
        } else if code == SDL_SCANCODE_LALT || code == SDL_SCANCODE_RALT {
            m.alt = true;
        } else if code == SDL_SCANCODE_LGUI || code == SDL_SCANCODE_RGUI {
            m.command = true;
        }
        proof {
            let next = pressed@.take(i + 1);
            let prev = pressed@.take(i as int);
            assert(next[i as int] == code);
            assert forall|j: int| 0 <= j < prev.len() implies next[j] == #[trigger] prev[j] by {}
            lemma_held_pair_step(prev, next, SDL_SCANCODE_LCTRL, SDL_SCANCODE_RCTRL);
            lemma_held_pair_step(prev, next, SDL_SCANCODE_LSHIFT, SDL_SCANCODE_RSHIFT);
            lemma_held_pair_step(prev, next, SDL_SCANCODE_LALT, SDL_SCANCODE_RALT);
            lemma_held_pair_step(prev, next, SDL_SCANCODE_LGUI, SDL_SCANCODE_RGUI);
        }
        i = i + 1;
    }
    proof {
        assert(pressed@.take(pressed.len() as int) == pressed@);
    }
    m
}

/// The reaction to a key going down (`pressed`) or up: control with C or X is copy or cut;
/// control with V inserts the clipboard text (when the clipboard cannot be read, a key going
/// down becomes the V key event, and a key going up inserts an empty text); any other key
/// that egui knows is a key event; the rest is ignored.
pub open spec fn sdl_key_reaction(scancode: i32, keymod: u16, repeat: bool, pressed: bool) -> Reaction {
    let modifiers = sdl_modifiers(keymod);
    if scancode == SDL_SCANCODE_C && modifiers.ctrl {
        Reaction::Emit(EguiEvent::Copy)
    } else if scancode == SDL_SCANCODE_X && modifiers.ctrl {
        Reaction::Emit(EguiEvent::Cut)
    } else if scancode == SDL_SCANCODE_V && modifiers.ctrl {
        if pressed {
            Reaction::Emit(
                EguiEvent::ClipboardTextOr(
                    KeyEvent { key: crate::egui_types::Key::V, pressed, repeat, modifiers },
                ),
            )
        } else {
            Reaction::Emit(EguiEvent::ClipboardText)
        }
    } else {
        match sdl_key(scancode) {
            Some(key) => Reaction::Emit(EguiEvent::Key(KeyEvent { key, pressed, repeat, modifiers })),
            None => Reaction::Ignore,
        }
    }
}

/// egui's modifiers for an sdl2 modifier mask, as `sdl_to_egui_modifiers` computes them.
pub open spec fn sdl_modifiers(keymod: u16) -> Modifiers {
    Modifiers {
        alt: sdl_mods_contain(keymod, SDL_KMOD_LALT) || sdl_mods_contain(keymod, SDL_KMOD_RALT),
        ctrl: sdl_mods_contain(keymod, SDL_KMOD_LCTRL) || sdl_mods_contain(keymod, SDL_KMOD_RCTRL),
        shift: sdl_mods_contain(keymod, SDL_KMOD_LSHIFT) || sdl_mods_contain(
            keymod,
            SDL_KMOD_RSHIFT,
        ),
        mac_cmd: false,
        command: sdl_mods_contain(keymod, SDL_KMOD_LGUI) || sdl_mods_contain(keymod, SDL_KMOD_RGUI),
    }
}

/// The egui pointer button for an sdl2 mouse button, as `sdl_to_egui_pointer_button`
/// computes it.
pub open spec fn sdl_button(mb: u8) -> Option<crate::egui_types::PointerButton> {
    if mb == 1 {
        Some(crate::egui_types::PointerButton::Primary)
    } else if mb == 2 {
        Some(crate::egui_types::PointerButton::Middle)
    } else if mb == 3 {
        Some(crate::egui_types::PointerButton::Secondary)
    } else if mb == 4 {
        Some(crate::egui_types::PointerButton::Extra1)
    } else if mb == 5 {
        Some(crate::egui_types::PointerButton::Extra2)
    } else {
        None
    }
}

fn key_event(scancode: i32, keymod: u16, repeat: bool, pressed: bool) -> (r: Reaction)
    ensures
        r == sdl_key_reaction(scancode, keymod, repeat, pressed),
{
    let modifiers = sdl_to_egui_modifiers(keymod);
    if scancode == SDL_SCANCODE_C && modifiers.ctrl {
        Reaction::Emit(EguiEvent::Copy)
    } else if scancode == SDL_SCANCODE_X && modifiers.ctrl {
        Reaction::Emit(EguiEvent::Cut)
    } else if scancode == SDL_SCANCODE_V && modifiers.ctrl {
        if pressed {
            Reaction::Emit(
                EguiEvent::ClipboardTextOr(
                    KeyEvent { key: crate::egui_types::Key::V, pressed, repeat, modifiers },
                ),
            )
        } else {
            Reaction::Emit(EguiEvent::ClipboardText)
        }
    } else {
        match sdl_to_egui_key(scancode) {
            Some(key) => Reaction::Emit(EguiEvent::Key(KeyEvent { key, pressed, repeat, modifiers })),
            None => Reaction::Ignore,
        }
    }
}

impl Sdl2Backend {
    /// The state of a freshly created window with this drawable size in pixels: a resize
    /// is pending, so that the renderer sets its viewport on the first frame.
    pub fn new(size_physical_pixels: [u32; 2]) -> (b: Sdl2Backend)
        ensures
            b.size_physical_pixels == size_physical_pixels,
            b.latest_resize_event,
            !b.should_close,
    {
        Sdl2Backend { size_physical_pixels, latest_resize_event: true, should_close: false }
    }

    /// One event, with the modifiers that the keyboard holds: the next state and the
    /// reaction.
    pub open spec fn step(self, modifiers: Modifiers, event: Sdl2Event) -> (Sdl2Backend, Reaction) {
        match event {
            Sdl2Event::Quit | Sdl2Event::WindowClose => (
                Sdl2Backend { should_close: true, ..self },
                Reaction::Close,
            ),
            Sdl2Event::WindowSizeChanged { drawable_size } => (
                Sdl2Backend {
                    size_physical_pixels: drawable_size,
                    latest_resize_event: true,
                    ..self
                },
                Reaction::ResizeScreen,
            ),
            Sdl2Event::WindowLeave => (self, Reaction::Emit(EguiEvent::PointerGone)),
            Sdl2Event::WindowOther => (self, Reaction::Ignore),
            Sdl2Event::KeyDown { scancode, keymod, repeat } => (
                self,
                sdl_key_reaction(scancode, keymod, repeat, true),
            ),
            Sdl2Event::KeyUp { scancode, keymod, repeat } => (
                self,
                sdl_key_reaction(scancode, keymod, repeat, false),
            ),
            Sdl2Event::TextInput(text) => (self, Reaction::Emit(EguiEvent::Text(text))),
            Sdl2Event::MouseMotion => (self, Reaction::Emit(EguiEvent::PointerMoved)),
            Sdl2Event::MouseButtonDown(mb) => (
                self,
                match sdl_button(mb) {
                    Some(button) => Reaction::Emit(
                        EguiEvent::PointerButton { button, pressed: true, modifiers },
                    ),
                    None => Reaction::Ignore,
                },
            ),
            Sdl2Event::MouseButtonUp(mb) => (
                self,
                match sdl_button(mb) {
                    Some(button) => Reaction::Emit(
                        EguiEvent::PointerButton { button, pressed: false, modifiers },
                    ),
                    None => Reaction::Ignore,
                },
            ),
            Sdl2Event::MouseWheel => (self, Reaction::Emit(EguiEvent::Scroll)),
            Sdl2Event::DropFile => (self, Reaction::DropFiles),
            Sdl2Event::AppTerminating => (self, Reaction::Ignore),
        }
    }

    /// The events of a frame, one after another: the final state and the reactions.
    pub open spec fn run(self, modifiers: Modifiers, events: Seq<Sdl2Event>) -> (
        Sdl2Backend,
        Seq<Reaction>,
    )
        decreases events.len(),
    {
        if events.len() == 0 {
            (self, Seq::empty())
        } else {
            let (s, rs) = self.run(modifiers, events.drop_last());
            let (s2, r) = s.step(modifiers, events.last());
            (s2, rs.push(r))
        }
    }

    /// Handles one sdl2 event, with the modifiers that the keyboard holds (for mouse
    /// buttons; key events carry their own).
    pub fn on_event(&mut self, modifiers: Modifiers, event: &Sdl2Event) -> (r: Reaction)
        ensures
            (*final(self), r) == old(self).step(modifiers, *event),
    {
        match event {
            Sdl2Event::Quit | Sdl2Event::WindowClose => {
                self.should_close = true;
                Reaction::Close
            },
            Sdl2Event::WindowSizeChanged { drawable_size } => {
                // physical width and height for the framebuffer resize
                self.size_physical_pixels = *drawable_size;
                self.latest_resize_event = true;
                Reaction::ResizeScreen
            },
            Sdl2Event::WindowLeave => Reaction::Emit(EguiEvent::PointerGone),
            Sdl2Event::WindowOther => Reaction::Ignore,
            Sdl2Event::KeyDown { scancode, keymod, repeat } => key_event(
                *scancode,
                *keymod,
                *repeat,
                true,
            ),
            Sdl2Event::KeyUp { scancode, keymod, repeat } => key_event(
                *scancode,
                *keymod,
                *repeat,
                false,
            ),
            Sdl2Event::TextInput(text) => Reaction::Emit(EguiEvent::Text(text.clone())),
            Sdl2Event::MouseMotion => Reaction::Emit(EguiEvent::PointerMoved),
            Sdl2Event::MouseButtonDown(mb) => match sdl_to_egui_pointer_button(*mb) {
                Some(button) => Reaction::Emit(
                    EguiEvent::PointerButton { button, pressed: true, modifiers },
                ),
                None => Reaction::Ignore,
            },
            Sdl2Event::MouseButtonUp(mb) => match sdl_to_egui_pointer_button(*mb) {
                Some(button) => Reaction::Emit(
                    EguiEvent::PointerButton { button, pressed: false, modifiers },
                ),
                None => Reaction::Ignore,
            },
            // we scroll 25 points per wheel step; the caller scales the offsets
            Sdl2Event::MouseWheel => Reaction::Emit(EguiEvent::Scroll),
            Sdl2Event::DropFile => Reaction::DropFiles,
            Sdl2Event::AppTerminating => Reaction::Ignore,
        }
    }

    /// Handles one frame's events, in order, with the modifiers that the keyboard holds.
    pub fn tick(&mut self, modifiers: Modifiers, events: &Vec<Sdl2Event>) -> (reactions: Vec<
        Reaction,
    >)
        ensures
            (*final(self), reactions@) == old(self).run(modifiers, events@),
    {
        let mut reactions: Vec<Reaction> = Vec::new();
        let ghost start = *self;
        let mut i: usize = 0;
        while i < events.len()
            invariant
                i <= events.len(),
                (*self, reactions@) == start.run(modifiers, events@.take(i as int)),
            decreases events.len() - i,
        {
            let r = self.on_event(modifiers, &events[i]);
            reactions.push(r);
            proof {
                assert(events@.take(i + 1).drop_last() == events@.take(i as int));
            }
            i = i + 1;
        }
        proof {
            assert(events@.take(events.len() as int) == events@);
        }
        reactions
    }

    /// Whether the renderer must follow a resize before this frame; the resize is then no
    /// longer pending.
    pub fn take_resize_event(&mut self) -> (resized: bool)
        ensures
            resized == old(self).latest_resize_event,
            !final(self).latest_resize_event,
            final(self).size_physical_pixels == old(self).size_physical_pixels,
            final(self).should_close == old(self).should_close,
    {
        let resized = self.latest_resize_event;
        self.latest_resize_event = false;
        resized
    }

    /// Records the drawable size that the window reports now and returns it.
    pub fn get_live_physical_size_framebuffer(&mut self, drawable_size: [u32; 2]) -> (size:
        Option<[u32; 2]>)
        ensures
            final(self).size_physical_pixels == drawable_size,
            final(self).latest_resize_event == old(self).latest_resize_event,
            final(self).should_close == old(self).should_close,
            size == Some(drawable_size),
    {
        self.size_physical_pixels = drawable_size;
        Some(self.size_physical_pixels)
    }
}

// ---------------------------------------------------------------------------------------
// Laws

/// A frame's events get one reaction each, and once the user asked to close or quit, the
/// backend keeps asking to close.
pub proof fn lemma_sdl2_run(backend: Sdl2Backend, modifiers: Modifiers, events: Seq<Sdl2Event>)
    ensures
        backend.run(modifiers, events).1.len() == events.len(),
        backend.should_close ==> backend.run(modifiers, events).0.should_close,
        backend.latest_resize_event ==> backend.run(modifiers, events).0.latest_resize_event,
    decreases events.len(),
{
    if events.len() > 0 {
        lemma_sdl2_run(backend, modifiers, events.drop_last());
    }
}

/// Copy and cut come only from C and X with a control key held; the clipboard is read only
/// for V with a control key held.
pub proof fn lemma_sdl2_clipboard_needs_control(scancode: i32, keymod: u16, repeat: bool, pressed: bool)
    ensures
        sdl_key_reaction(scancode, keymod, repeat, pressed) == Reaction::Emit(EguiEvent::Copy)
            ==> scancode == SDL_SCANCODE_C && sdl_modifiers(keymod).ctrl,
        sdl_key_reaction(scancode, keymod, repeat, pressed) == Reaction::Emit(EguiEvent::Cut)
            ==> scancode == SDL_SCANCODE_X && sdl_modifiers(keymod).ctrl,
        (sdl_key_reaction(scancode, keymod, repeat, pressed) matches Reaction::Emit(
            EguiEvent::ClipboardTextOr(_),
        )) || sdl_key_reaction(scancode, keymod, repeat, pressed) == Reaction::Emit(
            EguiEvent::ClipboardText,
        ) ==> scancode == SDL_SCANCODE_V && sdl_modifiers(keymod).ctrl,
{
}

/// A held control, shift, alt or GUI key (left or right) always shows in the modifiers, and
/// the modifiers given beforehand are kept.
pub proof fn lemma_held_keys_show(m: Modifiers, pressed: Seq<i32>, i: int)
    requires
        0 <= i < pressed.len(),
    ensures
        either(pressed[i], SDL_SCANCODE_LCTRL, SDL_SCANCODE_RCTRL) ==> held_modifiers(m, pressed).ctrl,
        either(pressed[i], SDL_SCANCODE_LSHIFT, SDL_SCANCODE_RSHIFT) ==> held_modifiers(
            m,
            pressed,
        ).shift,
        either(pressed[i], SDL_SCANCODE_LALT, SDL_SCANCODE_RALT) ==> held_modifiers(m, pressed).alt,
        either(pressed[i], SDL_SCANCODE_LGUI, SDL_SCANCODE_RGUI) ==> held_modifiers(
            m,
            pressed,
        ).command,
        m.ctrl ==> held_modifiers(m, pressed).ctrl,
        m.shift ==> held_modifiers(m, pressed).shift,
        m.alt ==> held_modifiers(m, pressed).alt,
        m.command ==> held_modifiers(m, pressed).command,
{
}

/// The egui pointer button that sdl2's mouse button `mb` stands for: left (1), middle (2),
/// right (3), and the two extra buttons (4 and 5); sdl2 numbers no others.
pub open spec fn sdl_button_number(mb: u8, button: crate::egui_types::PointerButton) -> bool {
    ||| mb == 1 && button == crate::egui_types::PointerButton::Primary
    ||| mb == 2 && button == crate::egui_types::PointerButton::Middle
    ||| mb == 3 && button == crate::egui_types::PointerButton::Secondary
    ||| mb == 4 && button == crate::egui_types::PointerButton::Extra1
    ||| mb == 5 && button == crate::egui_types::PointerButton::Extra2
}

/// What the sdl2 backend does with each event, whatever its state: quitting or closing the
/// window asks to close; a size change records the drawable size and a pending resize; a
/// mouse button is reported both when it goes down and when it goes up, as the egui button
/// that its number stands for, with the held modifiers (an unknown button is ignored); a key
/// that egui knows is reported both when it goes down and when it goes up, with the key
/// event's modifiers, unless control makes it copy, cut or paste; typed text, mouse motion,
/// the pointer leaving and the wheel are handed to egui; keys and buttons leave the state
/// as it was.
pub proof fn lemma_sdl2_event_behaviour(
    b: Sdl2Backend,
    modifiers: Modifiers,
    mb: u8,
    scancode: i32,
    keymod: u16,
    repeat: bool,
    size: [u32; 2],
    text: String,
)
    ensures
        b.step(modifiers, Sdl2Event::Quit).0.should_close,
        b.step(modifiers, Sdl2Event::Quit).1 == Reaction::Close,
        b.step(modifiers, Sdl2Event::WindowClose).0.should_close,
        b.step(modifiers, Sdl2Event::WindowClose).1 == Reaction::Close,
        b.step(modifiers, Sdl2Event::WindowSizeChanged { drawable_size: size }).0.size_physical_pixels
            == size,
        b.step(modifiers, Sdl2Event::WindowSizeChanged { drawable_size: size }).0.latest_resize_event,
        forall|button: crate::egui_types::PointerButton|
            sdl_button_number(mb, button) ==> {
                &&& b.step(modifiers, Sdl2Event::MouseButtonDown(mb)).1 == Reaction::Emit(
                    EguiEvent::PointerButton { button, pressed: true, modifiers },
                )
                &&& b.step(modifiers, Sdl2Event::MouseButtonUp(mb)).1 == Reaction::Emit(
                    EguiEvent::PointerButton { button, pressed: false, modifiers },
                )
            },
        !(1 <= mb <= 5) ==> b.step(modifiers, Sdl2Event::MouseButtonDown(mb)).1 == Reaction::Ignore
            && b.step(modifiers, Sdl2Event::MouseButtonUp(mb)).1 == Reaction::Ignore,
        b.step(modifiers, Sdl2Event::MouseButtonDown(mb)).0 == b,
        b.step(modifiers, Sdl2Event::MouseButtonUp(mb)).0 == b,
        sdl_key(scancode) is Some && !(sdl_modifiers(keymod).ctrl && (scancode
            == SDL_SCANCODE_C || scancode == SDL_SCANCODE_X || scancode == SDL_SCANCODE_V)) ==> {
            &&& b.step(modifiers, Sdl2Event::KeyDown { scancode, keymod, repeat }).1 == Reaction::Emit(
                EguiEvent::Key(KeyEvent { key: sdl_key(scancode).unwrap(), pressed: true, repeat, modifiers: sdl_modifiers(keymod) }),
            )
            &&& b.step(modifiers, Sdl2Event::KeyUp { scancode, keymod, repeat }).1 == Reaction::Emit(
                EguiEvent::Key(KeyEvent { key: sdl_key(scancode).unwrap(), pressed: false, repeat, modifiers: sdl_modifiers(keymod) }),
            )
        },
        sdl_modifiers(keymod).ctrl && scancode == SDL_SCANCODE_C ==> b.step(
            modifiers,
            Sdl2Event::KeyDown { scancode, keymod, repeat },
        ).1 == Reaction::Emit(EguiEvent::Copy),
        sdl_modifiers(keymod).ctrl && scancode == SDL_SCANCODE_X ==> b.step(
            modifiers,
            Sdl2Event::KeyDown { scancode, keymod, repeat },
        ).1 == Reaction::Emit(EguiEvent::Cut),
        sdl_modifiers(keymod).ctrl && scancode == SDL_SCANCODE_V ==> b.step(
            modifiers,
            Sdl2Event::KeyDown { scancode, keymod, repeat },
        ).1 == Reaction::Emit(
            EguiEvent::ClipboardTextOr(
                KeyEvent {
                    key: crate::egui_types::Key::V,
                    pressed: true,
                    repeat,
                    modifiers: sdl_modifiers(keymod),
                },
            ),
        ),
        sdl_modifiers(keymod).ctrl && scancode == SDL_SCANCODE_V ==> b.step(
            modifiers,
            Sdl2Event::KeyUp { scancode, keymod, repeat },
        ).1 == Reaction::Emit(EguiEvent::ClipboardText),
        b.step(modifiers, Sdl2Event::KeyDown { scancode, keymod, repeat }).0 == b,
        b.step(modifiers, Sdl2Event::KeyUp { scancode, keymod, repeat }).0 == b,
        b.step(modifiers, Sdl2Event::TextInput(text)).1 == Reaction::Emit(EguiEvent::Text(text)),
        b.step(modifiers, Sdl2Event::MouseMotion).1 == Reaction::Emit(EguiEvent::PointerMoved),
        b.step(modifiers, Sdl2Event::WindowLeave).1 == Reaction::Emit(EguiEvent::PointerGone),
        b.step(modifiers, Sdl2Event::MouseWheel).1 == Reaction::Emit(EguiEvent::Scroll),
{
}

/// Each sdl2 modifier flag, left or right, stands for its own egui modifier and for no
/// other: shift for shift, control for ctrl, alt for alt, the GUI keys for command; no flag
/// is no modifier.
pub proof fn lemma_sdl_modifier_flags()
    ensures
        sdl_modifiers(0) == Modifiers::spec_none(),
        sdl_modifiers(SDL_KMOD_LSHIFT) == (
            Modifiers { alt: false, ctrl: false, shift: true, mac_cmd: false, command: false }
        ),
        sdl_modifiers(SDL_KMOD_RSHIFT) == (
            Modifiers { alt: false, ctrl: false, shift: true, mac_cmd: false, command: false }
        ),
        sdl_modifiers(SDL_KMOD_LCTRL) == (
            Modifiers { alt: false, ctrl: true, shift: false, mac_cmd: false, command: false }
        ),
        sdl_modifiers(SDL_KMOD_RCTRL) == (
            Modifiers { alt: false, ctrl: true, shift: false, mac_cmd: false, command: false }
        ),
        sdl_modifiers(SDL_KMOD_LALT) == (
            Modifiers { alt: true, ctrl: false, shift: false, mac_cmd: false, command: false }
        ),
        sdl_modifiers(SDL_KMOD_RALT) == (
            Modifiers { alt: true, ctrl: false, shift: false, mac_cmd: false, command: false }
        ),
        sdl_modifiers(SDL_KMOD_LGUI) == (
            Modifiers { alt: false, ctrl: false, shift: false, mac_cmd: false, command: true }
        ),
        sdl_modifiers(SDL_KMOD_RGUI) == (
            Modifiers { alt: false, ctrl: false, shift: false, mac_cmd: false, command: true }
        ),
{
    assert(
        ((1u16 & 1u16) == 1u16) == true
        && ((1u16 & 2u16) == 2u16) == false
        && ((1u16 & 64u16) == 64u16) == false
        && ((1u16 & 128u16) == 128u16) == false
        && ((1u16 & 256u16) == 256u16) == false
        && ((1u16 & 512u16) == 512u16) == false
        && ((1u16 & 1024u16) == 1024u16) == false
        && ((1u16 & 2048u16) == 2048u16) == false
        && ((2u16 & 1u16) == 1u16) == false
        && ((2u16 & 2u16) == 2u16) == true
        && ((2u16 & 64u16) == 64u16) == false
        && ((2u16 & 128u16) == 128u16) == false
        && ((2u16 & 256u16) == 256u16) == false
        && ((2u16 & 512u16) == 512u16) == false
        && ((2u16 & 1024u16) == 1024u16) == false
        && ((2u16 & 2048u16) == 2048u16) == false
        && ((64u16 & 1u16) == 1u16) == false
        && ((64u16 & 2u16) == 2u16) == false
        && ((64u16 & 64u16) == 64u16) == true
        && ((64u16 & 128u16) == 128u16) == false
        && ((64u16 & 256u16) == 256u16) == false
        && ((64u16 & 512u16) == 512u16) == false
        && ((64u16 & 1024u16) == 1024u16) == false
        && ((64u16 & 2048u16) == 2048u16) == false
        && ((128u16 & 1u16) == 1u16) == false
        && ((128u16 & 2u16) == 2u16) == false
        && ((128u16 & 64u16) == 64u16) == false
        && ((128u16 & 128u16) == 128u16) == true
        && ((128u16 & 256u16) == 256u16) == false
        && ((128u16 & 512u16) == 512u16) == false
        && ((128u16 & 1024u16) == 1024u16) == false
        && ((128u16 & 2048u16) == 2048u16) == false
        && ((256u16 & 1u16) == 1u16) == false
        && ((256u16 & 2u16) == 2u16) == false
        && ((256u16 & 64u16) == 64u16) == false
        && ((256u16 & 128u16) == 128u16) == false
        && ((256u16 & 256u16) == 256u16) == true
        && ((256u16 & 512u16) == 512u16) == false
        && ((256u16 & 1024u16) == 1024u16) == false
        && ((256u16 & 2048u16) == 2048u16) == false
        && ((512u16 & 1u16) == 1u16) == false
        && ((512u16 & 2u16) == 2u16) == false
        && ((512u16 & 64u16) == 64u16) == false
        && ((512u16 & 128u16) == 128u16) == false
        && ((512u16 & 256u16) == 256u16) == false
        && ((512u16 & 512u16) == 512u16) == true
        && ((512u16 & 1024u16) == 1024u16) == false
        && ((512u16 & 2048u16) == 2048u16) == false
        && ((1024u16 & 1u16) == 1u16) == false
        && ((1024u16 & 2u16) == 2u16) == false
        && ((1024u16 & 64u16) == 64u16) == false
        && ((1024u16 & 128u16) == 128u16) == false
        && ((1024u16 & 256u16) == 256u16) == false
        && ((1024u16 & 512u16) == 512u16) == false
        && ((1024u16 & 1024u16) == 1024u16) == true
        && ((1024u16 & 2048u16) == 2048u16) == false
        && ((2048u16 & 1u16) == 1u16) == false
        && ((2048u16 & 2u16) == 2u16) == false
        && ((2048u16 & 64u16) == 64u16) == false
        && ((2048u16 & 128u16) == 128u16) == false
        && ((2048u16 & 256u16) == 256u16) == false
        && ((2048u16 & 512u16) == 512u16) == false
        && ((2048u16 & 1024u16) == 1024u16) == false
        && ((2048u16 & 2048u16) == 2048u16) == true
        && ((0u16 & 1u16) == 1u16) == false
        && ((0u16 & 2u16) == 2u16) == false
        && ((0u16 & 64u16) == 64u16) == false
        && ((0u16 & 128u16) == 128u16) == false
        && ((0u16 & 256u16) == 256u16) == false
        && ((0u16 & 512u16) == 512u16) == false
        && ((0u16 & 1024u16) == 1024u16) == false
        && ((0u16 & 2048u16) == 2048u16) == false
    ) by (bit_vector);
}

} // verus!
