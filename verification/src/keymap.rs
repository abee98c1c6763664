//! The key, button and modifier codes of glfw, sdl2, winit and tao, mapped to egui's.
//!
//! Each windowing library names its keys and buttons by integer codes (`glfw::Key as i32`,
//! `sdl2::keyboard::Scancode as i32`, `winit::event::VirtualKeyCode as u32`, ...) and its
//! modifiers by bit masks; the functions here take those codes.
use vstd::prelude::*;
use crate::egui_types::{CursorIcon, Key, Modifiers, PointerButton};

verus! {

// ---------------------------------------------------------------------------------------
// Keys shared by every layout: letters, top-row digits and function keys.

/// The letter key at position `i` of the alphabet (`0` is `A`).
pub open spec fn letter_key(i: int) -> Key {
    if i == 0 { Key::A } else if i == 1 { Key::B } else if i == 2 { Key::C }
    else if i == 3 { Key::D } else if i == 4 { Key::E } else if i == 5 { Key::F }
    else if i == 6 { Key::G } else if i == 7 { Key::H } else if i == 8 { Key::I }
    else if i == 9 { Key::J } else if i == 10 { Key::K } else if i == 11 { Key::L }
    else if i == 12 { Key::M } else if i == 13 { Key::N } else if i == 14 { Key::O }
    else if i == 15 { Key::P } else if i == 16 { Key::Q } else if i == 17 { Key::R }
    else if i == 18 { Key::S } else if i == 19 { Key::T } else if i == 20 { Key::U }
    else if i == 21 { Key::V } else if i == 22 { Key::W } else if i == 23 { Key::X }
    else if i == 24 { Key::Y } else { Key::Z }
}

/// The digit key for digit `d`.
pub open spec fn digit_key(d: int) -> Key {
    if d == 0 { Key::Num0 } else if d == 1 { Key::Num1 } else if d == 2 { Key::Num2 }
    else if d == 3 { Key::Num3 } else if d == 4 { Key::Num4 } else if d == 5 { Key::Num5 }
    else if d == 6 { Key::Num6 } else if d == 7 { Key::Num7 } else if d == 8 { Key::Num8 }
    else { Key::Num9 }
}

/// The function key `F(n)`, for `1 <= n <= 20`.
pub open spec fn function_key(n: int) -> Key {
    if n == 1 { Key::F1 } else if n == 2 { Key::F2 } else if n == 3 { Key::F3 }
    else if n == 4 { Key::F4 } else if n == 5 { Key::F5 } else if n == 6 { Key::F6 }
    else if n == 7 { Key::F7 } else if n == 8 { Key::F8 } else if n == 9 { Key::F9 }
    else if n == 10 { Key::F10 } else if n == 11 { Key::F11 } else if n == 12 { Key::F12 }
    else if n == 13 { Key::F13 } else if n == 14 { Key::F14 } else if n == 15 { Key::F15 }
    else if n == 16 { Key::F16 } else if n == 17 { Key::F17 } else if n == 18 { Key::F18 }
    else if n == 19 { Key::F19 } else { Key::F20 }
}

fn letter(i: i64) -> (k: Key)
    requires
        0 <= i < 26,
    ensures
        k == letter_key(i as int),
{
    match i {
        0 => Key::A, 1 => Key::B, 2 => Key::C, 3 => Key::D, 4 => Key::E, 5 => Key::F,
        6 => Key::G, 7 => Key::H, 8 => Key::I, 9 => Key::J, 10 => Key::K, 11 => Key::L,
        12 => Key::M, 13 => Key::N, 14 => Key::O, 15 => Key::P, 16 => Key::Q, 17 => Key::R,
        18 => Key::S, 19 => Key::T, 20 => Key::U, 21 => Key::V, 22 => Key::W, 23 => Key::X,
        24 => Key::Y, _ => Key::Z,
    }
}

fn digit(d: i64) -> (k: Key)
    requires
        0 <= d < 10,
    ensures
        k == digit_key(d as int),
{
    match d {
        0 => Key::Num0, 1 => Key::Num1, 2 => Key::Num2, 3 => Key::Num3, 4 => Key::Num4,
        5 => Key::Num5, 6 => Key::Num6, 7 => Key::Num7, 8 => Key::Num8, _ => Key::Num9,
    }
}

fn function(n: i64) -> (k: Key)
    requires
        1 <= n <= 20,
    ensures
        k == function_key(n as int),
{
    match n {
        1 => Key::F1, 2 => Key::F2, 3 => Key::F3, 4 => Key::F4, 5 => Key::F5,
        6 => Key::F6, 7 => Key::F7, 8 => Key::F8, 9 => Key::F9, 10 => Key::F10,
        11 => Key::F11, 12 => Key::F12, 13 => Key::F13, 14 => Key::F14, 15 => Key::F15,
        16 => Key::F16, 17 => Key::F17, 18 => Key::F18, 19 => Key::F19, _ => Key::F20,
    }
}

// ---------------------------------------------------------------------------------------
// glfw

pub const GLFW_KEY_SPACE: i32 = 32;
pub const GLFW_KEY_0: i32 = 48;
pub const GLFW_KEY_9: i32 = 57;
pub const GLFW_KEY_A: i32 = 65;
pub const GLFW_KEY_C: i32 = 67;
pub const GLFW_KEY_V: i32 = 86;
pub const GLFW_KEY_X: i32 = 88;
pub const GLFW_KEY_Z: i32 = 90;
pub const GLFW_KEY_ESCAPE: i32 = 256;
pub const GLFW_KEY_ENTER: i32 = 257;
pub const GLFW_KEY_TAB: i32 = 258;
pub const GLFW_KEY_BACKSPACE: i32 = 259;
pub const GLFW_KEY_INSERT: i32 = 260;
pub const GLFW_KEY_DELETE: i32 = 261;
pub const GLFW_KEY_RIGHT: i32 = 262;
pub const GLFW_KEY_LEFT: i32 = 263;
pub const GLFW_KEY_DOWN: i32 = 264;
pub const GLFW_KEY_UP: i32 = 265;
pub const GLFW_KEY_PAGE_UP: i32 = 266;
pub const GLFW_KEY_PAGE_DOWN: i32 = 267;
pub const GLFW_KEY_HOME: i32 = 268;
pub const GLFW_KEY_END: i32 = 269;

pub const GLFW_MOD_SHIFT: i32 = 0x1;
pub const GLFW_MOD_CONTROL: i32 = 0x2;
pub const GLFW_MOD_ALT: i32 = 0x4;

/// The egui key for a glfw key code: the top-row digits, the letters, space and the
/// editing and navigation keys; every other glfw key has none.
pub open spec fn glfw_key(code: i32) -> Option<Key> {
    if GLFW_KEY_0 <= code <= GLFW_KEY_9 {
        Some(digit_key(code - GLFW_KEY_0))
    } else if GLFW_KEY_A <= code <= GLFW_KEY_Z {
        Some(letter_key(code - GLFW_KEY_A))
    } else if code == GLFW_KEY_SPACE {
        Some(Key::Space)
    } else if code == GLFW_KEY_ESCAPE {
        Some(Key::Escape)
    } else if code == GLFW_KEY_ENTER {
        Some(Key::Enter)
    } else if code == GLFW_KEY_TAB {
        Some(Key::Tab)
    } else if code == GLFW_KEY_BACKSPACE {
        Some(Key::Backspace)
    } else if code == GLFW_KEY_INSERT {
        Some(Key::Insert)
    } else if code == GLFW_KEY_DELETE {
        Some(Key::Delete)
    } else if code == GLFW_KEY_RIGHT {
        Some(Key::ArrowRight)
    } else if code == GLFW_KEY_LEFT {
        Some(Key::ArrowLeft)
    } else if code == GLFW_KEY_DOWN {
        Some(Key::ArrowDown)
    } else if code == GLFW_KEY_UP {
        Some(Key::ArrowUp)
    } else if code == GLFW_KEY_PAGE_UP {
        Some(Key::PageUp)
    } else if code == GLFW_KEY_PAGE_DOWN {
        Some(Key::PageDown)
    } else if code == GLFW_KEY_HOME {
        Some(Key::Home)
    } else if code == GLFW_KEY_END {
        Some(Key::End)
    } else {
        None
    }
}

/// The matching egui key for a glfw key (`glfw::Key as i32`). egui does not support
/// all the keys that glfw provides.
pub fn glfw_to_egui_key(key: i32) -> (r: Option<Key>)
    ensures
        r == glfw_key(key),
{
    if GLFW_KEY_0 <= key && key <= GLFW_KEY_9 {
        Some(digit((key - GLFW_KEY_0) as i64))
    } else if GLFW_KEY_A <= key && key <= GLFW_KEY_Z {
        Some(letter((key - GLFW_KEY_A) as i64))
    } else {
        match key {
            GLFW_KEY_SPACE => Some(Key::Space),
            GLFW_KEY_ESCAPE => Some(Key::Escape),
            GLFW_KEY_ENTER => Some(Key::Enter),
            GLFW_KEY_TAB => Some(Key::Tab),
            GLFW_KEY_BACKSPACE => Some(Key::Backspace),
            GLFW_KEY_INSERT => Some(Key::Insert),
            GLFW_KEY_DELETE => Some(Key::Delete),
            GLFW_KEY_RIGHT => Some(Key::ArrowRight),
            GLFW_KEY_LEFT => Some(Key::ArrowLeft),
            GLFW_KEY_DOWN => Some(Key::ArrowDown),
            GLFW_KEY_UP => Some(Key::ArrowUp),
            GLFW_KEY_PAGE_UP => Some(Key::PageUp),
            GLFW_KEY_PAGE_DOWN => Some(Key::PageDown),
            GLFW_KEY_HOME => Some(Key::Home),
            GLFW_KEY_END => Some(Key::End),
            _ => None,
        }
    }
}

/// Whether the glfw modifier mask `mods` holds every bit of `flag` (`Modifiers::contains`).
pub open spec fn glfw_mods_contain(mods: i32, flag: i32) -> bool {
    mods & flag == flag
}

/// egui's modifiers for a glfw modifier mask (`glfw::Modifiers::bits`): control stands for
/// both `ctrl` and `command`, and `mac_cmd` is never set.
pub fn glfw_to_egui_modifers(modifiers: i32) -> (m: Modifiers)
    ensures
        m == (Modifiers {
            alt: glfw_mods_contain(modifiers, GLFW_MOD_ALT),
            ctrl: glfw_mods_contain(modifiers, GLFW_MOD_CONTROL),
            shift: glfw_mods_contain(modifiers, GLFW_MOD_SHIFT),
            mac_cmd: false,
            command: glfw_mods_contain(modifiers, GLFW_MOD_CONTROL),
        }),
{
    Modifiers {
        alt: modifiers & GLFW_MOD_ALT == GLFW_MOD_ALT,
        ctrl: modifiers & GLFW_MOD_CONTROL == GLFW_MOD_CONTROL,
        shift: modifiers & GLFW_MOD_SHIFT == GLFW_MOD_SHIFT,
        mac_cmd: false,
        command: modifiers & GLFW_MOD_CONTROL == GLFW_MOD_CONTROL,
    }
}

/// egui's pointer button for a glfw mouse button (`glfw::MouseButton as i32`, `0` for
/// `Button1`): buttons one to five are primary, secondary, middle and the two extra
/// buttons; the others count as secondary.
pub fn glfw_to_egui_pointer_button(mb: i32) -> (b: PointerButton)
    ensures
        b == (if mb == 0 {
            PointerButton::Primary
        } else if mb == 2 {
            PointerButton::Middle
        } else if mb == 3 {
            PointerButton::Extra1
        } else if mb == 4 {
            PointerButton::Extra2
        } else {
            PointerButton::Secondary
        }),
{
    match mb {
        0 => PointerButton::Primary,
        1 => PointerButton::Secondary,
        2 => PointerButton::Middle,
        3 => PointerButton::Extra1,
        4 => PointerButton::Extra2,
        _ => PointerButton::Secondary,
    }
}

/// The state change that a glfw key or mouse-button event reports.
#[derive(PartialEq, Eq, Structural, Clone, Copy, Debug)]
pub enum GlfwAction {
    Release,
    Press,
    Repeat,
}

/// Whether a glfw action means "held down": a press or a key repeat.
pub fn glfw_to_egui_action(a: GlfwAction) -> (pressed: bool)
    ensures
        pressed == (a != GlfwAction::Release),
{
    match a {
        GlfwAction::Release => false,
        GlfwAction::Press => true,
        GlfwAction::Repeat => true,
    }
}

/// The standard cursor shapes that glfw can show.
#[derive(PartialEq, Eq, Structural, Clone, Copy, Debug)]
pub enum GlfwStandardCursor {
    Arrow,
    IBeam,
    Crosshair,
    Hand,
    HResize,
    VResize,
}

/// The glfw cursor that stands for an egui cursor icon. glfw has only six shapes: text
/// cursors become the I-beam, grabbing becomes the hand, horizontal and vertical resizing
/// become the resize arrows, and every icon without a match becomes the arrow.
pub open spec fn glfw_cursor(cursor: CursorIcon) -> GlfwStandardCursor {
    match cursor {
        CursorIcon::Crosshair => GlfwStandardCursor::Crosshair,
        CursorIcon::VerticalText | CursorIcon::Text => GlfwStandardCursor::IBeam,
        CursorIcon::Grab | CursorIcon::Grabbing => GlfwStandardCursor::Hand,
        CursorIcon::ResizeColumn | CursorIcon::ResizeWest | CursorIcon::ResizeEast
        | CursorIcon::ResizeHorizontal => GlfwStandardCursor::HResize,
        CursorIcon::ResizeRow | CursorIcon::ResizeNorth | CursorIcon::ResizeSouth
        | CursorIcon::ResizeVertical => GlfwStandardCursor::VResize,
        _ => GlfwStandardCursor::Arrow,
    }
}

/// Converts egui's cursor icon into the glfw cursor that can be set by glfw.
pub fn egui_to_glfw_cursor(cursor: CursorIcon) -> (c: GlfwStandardCursor)
    ensures
        c == glfw_cursor(cursor),
{
    match cursor {
        CursorIcon::Default => GlfwStandardCursor::Arrow,
        CursorIcon::Crosshair => GlfwStandardCursor::Crosshair,
        CursorIcon::VerticalText | CursorIcon::Text => GlfwStandardCursor::IBeam,
        CursorIcon::Grab | CursorIcon::Grabbing => GlfwStandardCursor::Hand,
        CursorIcon::ResizeColumn | CursorIcon::ResizeWest | CursorIcon::ResizeEast
        | CursorIcon::ResizeHorizontal => GlfwStandardCursor::HResize,
        CursorIcon::ResizeRow | CursorIcon::ResizeNorth | CursorIcon::ResizeSouth
        | CursorIcon::ResizeVertical => GlfwStandardCursor::VResize,
        _ => GlfwStandardCursor::Arrow,
    }
}

// ---------------------------------------------------------------------------------------
// sdl2

pub const SDL_SCANCODE_A: i32 = 4;
pub const SDL_SCANCODE_C: i32 = 6;
pub const SDL_SCANCODE_V: i32 = 25;
pub const SDL_SCANCODE_X: i32 = 27;
pub const SDL_SCANCODE_Z: i32 = 29;
pub const SDL_SCANCODE_1: i32 = 30;
pub const SDL_SCANCODE_9: i32 = 38;
pub const SDL_SCANCODE_0: i32 = 39;
pub const SDL_SCANCODE_RETURN: i32 = 40;
pub const SDL_SCANCODE_ESCAPE: i32 = 41;
pub const SDL_SCANCODE_BACKSPACE: i32 = 42;
pub const SDL_SCANCODE_TAB: i32 = 43;
pub const SDL_SCANCODE_SPACE: i32 = 44;
pub const SDL_SCANCODE_F1: i32 = 58;
pub const SDL_SCANCODE_F12: i32 = 69;
pub const SDL_SCANCODE_INSERT: i32 = 73;
pub const SDL_SCANCODE_HOME: i32 = 74;
pub const SDL_SCANCODE_PAGEUP: i32 = 75;
pub const SDL_SCANCODE_DELETE: i32 = 76;
pub const SDL_SCANCODE_END: i32 = 77;
pub const SDL_SCANCODE_PAGEDOWN: i32 = 78;
pub const SDL_SCANCODE_RIGHT: i32 = 79;
pub const SDL_SCANCODE_LEFT: i32 = 80;
pub const SDL_SCANCODE_DOWN: i32 = 81;
pub const SDL_SCANCODE_UP: i32 = 82;
pub const SDL_SCANCODE_F13: i32 = 104;
pub const SDL_SCANCODE_F20: i32 = 111;
pub const SDL_SCANCODE_LCTRL: i32 = 224;
pub const SDL_SCANCODE_LSHIFT: i32 = 225;
pub const SDL_SCANCODE_LALT: i32 = 226;
pub const SDL_SCANCODE_LGUI: i32 = 227;
pub const SDL_SCANCODE_RCTRL: i32 = 228;
pub const SDL_SCANCODE_RSHIFT: i32 = 229;
pub const SDL_SCANCODE_RALT: i32 = 230;
pub const SDL_SCANCODE_RGUI: i32 = 231;

pub const SDL_KMOD_LSHIFT: u16 = 0x0001;
pub const SDL_KMOD_RSHIFT: u16 = 0x0002;
pub const SDL_KMOD_LCTRL: u16 = 0x0040;
pub const SDL_KMOD_RCTRL: u16 = 0x0080;
pub const SDL_KMOD_LALT: u16 = 0x0100;
pub const SDL_KMOD_RALT: u16 = 0x0200;
pub const SDL_KMOD_LGUI: u16 = 0x0400;
pub const SDL_KMOD_RGUI: u16 = 0x0800;

/// The egui key for an sdl2 scancode: letters, digits, function keys one to twenty and the
/// editing and navigation keys; every other scancode has none.
pub open spec fn sdl_key(code: i32) -> Option<Key> {
    if SDL_SCANCODE_A <= code <= SDL_SCANCODE_Z {
        Some(letter_key(code - SDL_SCANCODE_A))
    } else if SDL_SCANCODE_1 <= code <= SDL_SCANCODE_9 {
        Some(digit_key(code - SDL_SCANCODE_1 + 1))
    } else if code == SDL_SCANCODE_0 {
        Some(Key::Num0)
    } else if SDL_SCANCODE_F1 <= code <= SDL_SCANCODE_F12 {
        Some(function_key(code - SDL_SCANCODE_F1 + 1))
    } else if SDL_SCANCODE_F13 <= code <= SDL_SCANCODE_F20 {
        Some(function_key(code - SDL_SCANCODE_F13 + 13))
    } else if code == SDL_SCANCODE_RETURN {
        Some(Key::Enter)
    } else if code == SDL_SCANCODE_ESCAPE {
        Some(Key::Escape)
    } else if code == SDL_SCANCODE_BACKSPACE {
        Some(Key::Backspace)
    } else if code == SDL_SCANCODE_TAB {
        Some(Key::Tab)
    } else if code == SDL_SCANCODE_SPACE {
        Some(Key::Space)
    } else if code == SDL_SCANCODE_INSERT {
        Some(Key::Insert)
    } else if code == SDL_SCANCODE_HOME {
        Some(Key::Home)
    } else if code == SDL_SCANCODE_PAGEUP {
        Some(Key::PageUp)
    } else if code == SDL_SCANCODE_DELETE {
        Some(Key::Delete)
    } else if code == SDL_SCANCODE_END {
        Some(Key::End)
    } else if code == SDL_SCANCODE_PAGEDOWN {
        Some(Key::PageDown)
    } else if code == SDL_SCANCODE_RIGHT {
        Some(Key::ArrowRight)
    } else if code == SDL_SCANCODE_LEFT {
        Some(Key::ArrowLeft)
    } else if code == SDL_SCANCODE_DOWN {
        Some(Key::ArrowDown)
    } else if code == SDL_SCANCODE_UP {
        Some(Key::ArrowUp)
    } else {
        None
    }
}

/// The matching egui key for an sdl2 scancode (`sdl2::keyboard::Scancode as i32`).
pub fn sdl_to_egui_key(key: i32) -> (r: Option<Key>)
    ensures
        r == sdl_key(key),
{
    if SDL_SCANCODE_A <= key && key <= SDL_SCANCODE_Z {
        Some(letter((key - SDL_SCANCODE_A) as i64))
    } else if SDL_SCANCODE_1 <= key && key <= SDL_SCANCODE_9 {
        Some(digit((key - SDL_SCANCODE_1 + 1) as i64))
    } else if SDL_SCANCODE_F1 <= key && key <= SDL_SCANCODE_F12 {
        Some(function((key - SDL_SCANCODE_F1 + 1) as i64))
    } else if SDL_SCANCODE_F13 <= key && key <= SDL_SCANCODE_F20 {
        Some(function((key - SDL_SCANCODE_F13 + 13) as i64))
    } else {
        match key {
            SDL_SCANCODE_0 => Some(Key::Num0),
            SDL_SCANCODE_RETURN => Some(Key::Enter),
            SDL_SCANCODE_ESCAPE => Some(Key::Escape),
            SDL_SCANCODE_BACKSPACE => Some(Key::Backspace),
            SDL_SCANCODE_TAB => Some(Key::Tab),
            SDL_SCANCODE_SPACE => Some(Key::Space),
            SDL_SCANCODE_INSERT => Some(Key::Insert),
            SDL_SCANCODE_HOME => Some(Key::Home),
            SDL_SCANCODE_PAGEUP => Some(Key::PageUp),
            SDL_SCANCODE_DELETE => Some(Key::Delete),
            SDL_SCANCODE_END => Some(Key::End),
            SDL_SCANCODE_PAGEDOWN => Some(Key::PageDown),
            SDL_SCANCODE_RIGHT => Some(Key::ArrowRight),
            SDL_SCANCODE_LEFT => Some(Key::ArrowLeft),
            SDL_SCANCODE_DOWN => Some(Key::ArrowDown),
            SDL_SCANCODE_UP => Some(Key::ArrowUp),
            _ => None,
        }
    }
}

/// Whether the sdl2 modifier mask `mods` holds the bit `flag` (`Mod::contains`).
pub open spec fn sdl_mods_contain(mods: u16, flag: u16) -> bool {
    mods & flag == flag
}

/// egui's modifiers for an sdl2 modifier mask (`sdl2::keyboard::Mod::bits`): each egui
/// modifier is held when its left or its right key is, the GUI keys standing for
/// `command`; `mac_cmd` is never set.
pub fn sdl_to_egui_modifiers(modifiers: u16) -> (m: Modifiers)
    ensures
        m == (Modifiers {
            alt: sdl_mods_contain(modifiers, SDL_KMOD_LALT)
                || sdl_mods_contain(modifiers, SDL_KMOD_RALT),
            ctrl: sdl_mods_contain(modifiers, SDL_KMOD_LCTRL)
                || sdl_mods_contain(modifiers, SDL_KMOD_RCTRL),
            shift: sdl_mods_contain(modifiers, SDL_KMOD_LSHIFT)
                || sdl_mods_contain(modifiers, SDL_KMOD_RSHIFT),
            mac_cmd: false,
            command: sdl_mods_contain(modifiers, SDL_KMOD_LGUI)
                || sdl_mods_contain(modifiers, SDL_KMOD_RGUI),
        }),
{
    Modifiers {
        alt: modifiers & SDL_KMOD_LALT == SDL_KMOD_LALT || modifiers & SDL_KMOD_RALT
            == SDL_KMOD_RALT,
        ctrl: modifiers & SDL_KMOD_LCTRL == SDL_KMOD_LCTRL || modifiers & SDL_KMOD_RCTRL
            == SDL_KMOD_RCTRL,
        shift: modifiers & SDL_KMOD_LSHIFT == SDL_KMOD_LSHIFT || modifiers & SDL_KMOD_RSHIFT
            == SDL_KMOD_RSHIFT,
        mac_cmd: false,
        command: modifiers & SDL_KMOD_LGUI == SDL_KMOD_LGUI || modifiers & SDL_KMOD_RGUI
            == SDL_KMOD_RGUI,
    }
}

/// egui's pointer button for an sdl2 mouse button (`sdl2::mouse::MouseButton as u8`: `1`
/// left, `2` middle, `3` right, `4` and `5` the extra buttons); an unknown button has none.
pub fn sdl_to_egui_pointer_button(mb: u8) -> (b: Option<PointerButton>)
    ensures
        b == (if mb == 1 {
            Some(PointerButton::Primary)
        } else if mb == 2 {
            Some(PointerButton::Middle)
        } else if mb == 3 {
            Some(PointerButton::Secondary)
        } else if mb == 4 {
            Some(PointerButton::Extra1)
        } else if mb == 5 {
            Some(PointerButton::Extra2)
        } else {
            None
        }),
{
    match mb {
        1 => Some(PointerButton::Primary),
        2 => Some(PointerButton::Middle),
        3 => Some(PointerButton::Secondary),
        4 => Some(PointerButton::Extra1),
        5 => Some(PointerButton::Extra2),
        _ => None,
    }
}

// ---------------------------------------------------------------------------------------
// winit

pub const WINIT_KEY_1: u32 = 0;
pub const WINIT_KEY_9: u32 = 8;
pub const WINIT_KEY_0: u32 = 9;
pub const WINIT_KEY_A: u32 = 10;
pub const WINIT_KEY_Z: u32 = 35;
pub const WINIT_KEY_ESCAPE: u32 = 36;
pub const WINIT_KEY_F1: u32 = 37;
pub const WINIT_KEY_F20: u32 = 56;
pub const WINIT_KEY_INSERT: u32 = 64;
pub const WINIT_KEY_HOME: u32 = 65;
pub const WINIT_KEY_DELETE: u32 = 66;
pub const WINIT_KEY_END: u32 = 67;
pub const WINIT_KEY_PAGE_DOWN: u32 = 68;
pub const WINIT_KEY_PAGE_UP: u32 = 69;
pub const WINIT_KEY_LEFT: u32 = 70;
pub const WINIT_KEY_UP: u32 = 71;
pub const WINIT_KEY_RIGHT: u32 = 72;
pub const WINIT_KEY_DOWN: u32 = 73;
pub const WINIT_KEY_BACK: u32 = 74;
pub const WINIT_KEY_RETURN: u32 = 75;
pub const WINIT_KEY_SPACE: u32 = 76;
pub const WINIT_KEY_NUMPAD0: u32 = 80;
pub const WINIT_KEY_NUMPAD9: u32 = 89;
pub const WINIT_KEY_TAB: u32 = 146;

pub const WINIT_MOD_SHIFT: u32 = 0b100;
pub const WINIT_MOD_CTRL: u32 = 0b100000;
pub const WINIT_MOD_ALT: u32 = 0b100000000;
pub const WINIT_MOD_LOGO: u32 = 0b100000000000;

/// The egui key for a winit virtual key code: letters, the top-row and keypad digits,
/// function keys one to twenty, tab and the editing and navigation keys; every other code has
/// none.
pub open spec fn winit_key(code: u32) -> Option<Key> {
    if WINIT_KEY_1 <= code <= WINIT_KEY_9 {
        Some(digit_key(code - WINIT_KEY_1 + 1))
    } else if code == WINIT_KEY_0 {
        Some(Key::Num0)
    } else if WINIT_KEY_NUMPAD0 <= code <= WINIT_KEY_NUMPAD9 {
        Some(digit_key(code - WINIT_KEY_NUMPAD0))
    } else if WINIT_KEY_A <= code <= WINIT_KEY_Z {
        Some(letter_key(code - WINIT_KEY_A))
    } else if WINIT_KEY_F1 <= code <= WINIT_KEY_F20 {
        Some(function_key(code - WINIT_KEY_F1 + 1))
    } else if code == WINIT_KEY_ESCAPE {
        Some(Key::Escape)
    } else if code == WINIT_KEY_INSERT {
        Some(Key::Insert)
    } else if code == WINIT_KEY_HOME {
        Some(Key::Home)
    } else if code == WINIT_KEY_DELETE {
        Some(Key::Delete)
    } else if code == WINIT_KEY_END {
        Some(Key::End)
    } else if code == WINIT_KEY_PAGE_DOWN {
        Some(Key::PageDown)
    } else if code == WINIT_KEY_PAGE_UP {
        Some(Key::PageUp)
    } else if code == WINIT_KEY_LEFT {
        Some(Key::ArrowLeft)
    } else if code == WINIT_KEY_UP {
        Some(Key::ArrowUp)
    } else if code == WINIT_KEY_RIGHT {
        Some(Key::ArrowRight)
    } else if code == WINIT_KEY_DOWN {
        Some(Key::ArrowDown)
    } else if code == WINIT_KEY_BACK {
        Some(Key::Backspace)
    } else if code == WINIT_KEY_RETURN {
        Some(Key::Enter)
    } else if code == WINIT_KEY_SPACE {
        Some(Key::Space)
    } else if code == WINIT_KEY_TAB {
        Some(Key::Tab)
    } else {
        None
    }
}

/// The matching egui key for a winit virtual key code (`VirtualKeyCode as u32`).
pub fn winit_key_to_egui(key_code: u32) -> (r: Option<Key>)
    ensures
        r == winit_key(key_code),
{
    if key_code <= WINIT_KEY_9 {
        Some(digit((key_code - WINIT_KEY_1 + 1) as i64))
    } else if WINIT_KEY_NUMPAD0 <= key_code && key_code <= WINIT_KEY_NUMPAD9 {
        Some(digit((key_code - WINIT_KEY_NUMPAD0) as i64))
    } else if WINIT_KEY_A <= key_code && key_code <= WINIT_KEY_Z {
        Some(letter((key_code - WINIT_KEY_A) as i64))
    } else if WINIT_KEY_F1 <= key_code && key_code <= WINIT_KEY_F20 {
        Some(function((key_code - WINIT_KEY_F1 + 1) as i64))
    } else {
        match key_code {
            WINIT_KEY_0 => Some(Key::Num0),
            WINIT_KEY_ESCAPE => Some(Key::Escape),
            WINIT_KEY_INSERT => Some(Key::Insert),
            WINIT_KEY_HOME => Some(Key::Home),
            WINIT_KEY_DELETE => Some(Key::Delete),
            WINIT_KEY_END => Some(Key::End),
            WINIT_KEY_PAGE_DOWN => Some(Key::PageDown),
            WINIT_KEY_PAGE_UP => Some(Key::PageUp),
            WINIT_KEY_LEFT => Some(Key::ArrowLeft),
            WINIT_KEY_UP => Some(Key::ArrowUp),
            WINIT_KEY_RIGHT => Some(Key::ArrowRight),
            WINIT_KEY_DOWN => Some(Key::ArrowDown),
            WINIT_KEY_BACK => Some(Key::Backspace),
            WINIT_KEY_RETURN => Some(Key::Enter),
            WINIT_KEY_SPACE => Some(Key::Space),
            WINIT_KEY_TAB => Some(Key::Tab),
            _ => None,
        }
    }
}

/// egui's modifiers for a winit modifier state (`ModifiersState::bits`): the logo key
/// stands for `command`, and `mac_cmd` is never set.
pub fn winit_modifiers_to_egui(modifiers: u32) -> (m: Modifiers)
    ensures
        m == (Modifiers {
            alt: modifiers & WINIT_MOD_ALT != 0,
            ctrl: modifiers & WINIT_MOD_CTRL != 0,
            shift: modifiers & WINIT_MOD_SHIFT != 0,
            mac_cmd: false,
            command: modifiers & WINIT_MOD_LOGO != 0,
        }),
{
    Modifiers {
        alt: modifiers & WINIT_MOD_ALT != 0,
        ctrl: modifiers & WINIT_MOD_CTRL != 0,
        shift: modifiers & WINIT_MOD_SHIFT != 0,
        mac_cmd: false,
        command: modifiers & WINIT_MOD_LOGO != 0,
    }
}

/// A mouse button as winit and tao report it.
#[derive(PartialEq, Eq, Structural, Clone, Copy, Debug)]
pub enum MouseButtonEvent {
    Left,
    Right,
    Middle,
    Other(u16),
}

/// egui's pointer button for a winit mouse button: every other button is the first extra
/// button.
pub fn winit_mouse_button_to_egui(mb: MouseButtonEvent) -> (b: PointerButton)
    ensures
        b == (match mb {
            MouseButtonEvent::Left => PointerButton::Primary,
            MouseButtonEvent::Right => PointerButton::Secondary,
            MouseButtonEvent::Middle => PointerButton::Middle,
            MouseButtonEvent::Other(_) => PointerButton::Extra1,
        }),
{
    match mb {
        MouseButtonEvent::Left => PointerButton::Primary,
        MouseButtonEvent::Right => PointerButton::Secondary,
        MouseButtonEvent::Middle => PointerButton::Middle,
        MouseButtonEvent::Other(_) => PointerButton::Extra1,
    }
}

// ---------------------------------------------------------------------------------------
// tao

/// A logical key as tao reports it, for the keys that egui knows; `Unidentified` stands
/// for every other tao key.
#[derive(PartialEq, Eq, Structural, Clone, Copy, Debug)]
pub enum TaoKey {
    ArrowDown,
    ArrowLeft,
    ArrowRight,
    ArrowUp,
    Escape,
    Tab,
    Backspace,
    Enter,
    Space,
    Insert,
    Delete,
    Home,
    End,
    PageUp,
    PageDown,
    /// `F(n)` for `n` from one to thirty-five, as tao numbers them.
    Function(u8),
    Unidentified,
}

/// The egui key for a tao key: the editing and navigation keys and function keys one to
/// twenty; tao letters and digits arrive as characters and have none.
pub open spec fn tao_key(key: TaoKey) -> Option<Key> {
    match key {
        TaoKey::ArrowDown => Some(Key::ArrowDown),
        TaoKey::ArrowLeft => Some(Key::ArrowLeft),
        TaoKey::ArrowRight => Some(Key::ArrowRight),
        TaoKey::ArrowUp => Some(Key::ArrowUp),
        TaoKey::Escape => Some(Key::Escape),
        TaoKey::Tab => Some(Key::Tab),
        TaoKey::Backspace => Some(Key::Backspace),
        TaoKey::Enter => Some(Key::Enter),
        TaoKey::Space => Some(Key::Space),
        TaoKey::Insert => Some(Key::Insert),
        TaoKey::Delete => Some(Key::Delete),
        TaoKey::Home => Some(Key::Home),
        TaoKey::End => Some(Key::End),
        TaoKey::PageUp => Some(Key::PageUp),
        TaoKey::PageDown => Some(Key::PageDown),
        TaoKey::Function(n) => if 1 <= n <= 20 {
            Some(function_key(n as int))
        } else {
            None
        },
        TaoKey::Unidentified => None,
    }
}

/// The matching egui key for a tao logical key.
pub fn tao_key_to_egui(key_code: TaoKey) -> (r: Option<Key>)
    ensures
        r == tao_key(key_code),
{
    match key_code {
        TaoKey::ArrowDown => Some(Key::ArrowDown),
        TaoKey::ArrowLeft => Some(Key::ArrowLeft),
        TaoKey::ArrowRight => Some(Key::ArrowRight),
        TaoKey::ArrowUp => Some(Key::ArrowUp),
        TaoKey::Escape => Some(Key::Escape),
        TaoKey::Tab => Some(Key::Tab),
        TaoKey::Backspace => Some(Key::Backspace),
        TaoKey::Enter => Some(Key::Enter),
        TaoKey::Space => Some(Key::Space),
        TaoKey::Insert => Some(Key::Insert),
        TaoKey::Delete => Some(Key::Delete),
        TaoKey::Home => Some(Key::Home),
        TaoKey::End => Some(Key::End),
        TaoKey::PageUp => Some(Key::PageUp),
        TaoKey::PageDown => Some(Key::PageDown),
        TaoKey::Function(n) => if 1 <= n && n <= 20 {
            Some(function(n as i64))
        } else {
            None
        },
        TaoKey::Unidentified => None,
    }
}

/// The modifier keys that tao reports as held.
#[derive(PartialEq, Eq, Structural, Clone, Copy, Debug)]
pub struct TaoModifiersState {
    pub shift: bool,
    pub control: bool,
    pub alt: bool,
    pub super_key: bool,
}

/// egui's modifiers for tao's modifier state: the super key stands for `command`, and
/// `mac_cmd` is never set.
pub fn tao_modifiers_to_egui(modifiers: TaoModifiersState) -> (m: Modifiers)
    ensures
        m == (Modifiers {
            alt: modifiers.alt,
            ctrl: modifiers.control,
            shift: modifiers.shift,
            mac_cmd: false,
            command: modifiers.super_key,
        }),
{
    Modifiers {
        alt: modifiers.alt,
        ctrl: modifiers.control,
        shift: modifiers.shift,
        mac_cmd: false,
        command: modifiers.super_key,
    }
}

/// egui's pointer button for a tao mouse button: every other button is the first extra
/// button.
pub fn tao_mouse_button_to_egui(mb: MouseButtonEvent) -> (b: PointerButton)
    ensures
        b == (match mb {
            MouseButtonEvent::Left => PointerButton::Primary,
            MouseButtonEvent::Right => PointerButton::Secondary,
            MouseButtonEvent::Middle => PointerButton::Middle,
            MouseButtonEvent::Other(_) => PointerButton::Extra1,
        }),
{
    match mb {
        MouseButtonEvent::Left => PointerButton::Primary,
        MouseButtonEvent::Right => PointerButton::Secondary,
        MouseButtonEvent::Middle => PointerButton::Middle,
        MouseButtonEvent::Other(_) => PointerButton::Extra1,
    }
}

// ---------------------------------------------------------------------------------------
// Laws

/// Whatever the window backend, a letter key, a top-row digit key and the first twelve
/// function keys become the same egui key: backends can be swapped without changing what
/// the application receives.
pub proof fn lemma_backends_agree_on_letters_digits_and_function_keys(i: int, d: int, f: int)
    requires
        0 <= i < 26,
        0 <= d < 10,
        1 <= f <= 12,
    ensures
        glfw_key((GLFW_KEY_A + i) as i32) == Some(letter_key(i)),
        sdl_key((SDL_SCANCODE_A + i) as i32) == Some(letter_key(i)),
        winit_key((WINIT_KEY_A + i) as u32) == Some(letter_key(i)),
        glfw_key((GLFW_KEY_0 + d) as i32) == Some(digit_key(d)),
        sdl_key(if d == 0 { SDL_SCANCODE_0 } else { (SDL_SCANCODE_1 + d - 1) as i32 }) == Some(
            digit_key(d),
        ),
        winit_key(if d == 0 { WINIT_KEY_0 } else { (WINIT_KEY_1 + d - 1) as u32 }) == Some(
            digit_key(d),
        ),
        sdl_key((SDL_SCANCODE_F1 + f - 1) as i32) == Some(function_key(f)),
        winit_key((WINIT_KEY_F1 + f - 1) as u32) == Some(function_key(f)),
        tao_key(TaoKey::Function(f as u8)) == Some(function_key(f)),
{
}

/// The letter keys are told apart.
pub proof fn lemma_letter_keys_distinct(i: int, j: int)
    requires
        0 <= i < 26,
        0 <= j < 26,
        i != j,
    ensures
        letter_key(i) != letter_key(j),
{
}

/// The digit keys are told apart.
pub proof fn lemma_digit_keys_distinct(i: int, j: int)
    requires
        0 <= i < 10,
        0 <= j < 10,
        i != j,
    ensures
        digit_key(i) != digit_key(j),
{
}

/// Two glfw keys that egui knows never become the same egui key.
pub proof fn lemma_glfw_key_injective(a: i32, b: i32)
    requires
        glfw_key(a) is Some,
        a != b,
    ensures
        glfw_key(a) != glfw_key(b),
{
    if GLFW_KEY_A <= a <= GLFW_KEY_Z && GLFW_KEY_A <= b <= GLFW_KEY_Z {
        lemma_letter_keys_distinct(a - GLFW_KEY_A, b - GLFW_KEY_A);
    }
    if GLFW_KEY_0 <= a <= GLFW_KEY_9 && GLFW_KEY_0 <= b <= GLFW_KEY_9 {
        lemma_digit_keys_distinct(a - GLFW_KEY_0, b - GLFW_KEY_0);
    }
}

/// Two sdl2 scancodes that egui knows never become the same egui key.
pub proof fn lemma_sdl_key_injective(a: i32, b: i32)
    requires
        sdl_key(a) is Some,
        a != b,
    ensures
        sdl_key(a) != sdl_key(b),
{
    if SDL_SCANCODE_A <= a <= SDL_SCANCODE_Z && SDL_SCANCODE_A <= b <= SDL_SCANCODE_Z {
        lemma_letter_keys_distinct(a - SDL_SCANCODE_A, b - SDL_SCANCODE_A);
    }
    if SDL_SCANCODE_1 <= a <= SDL_SCANCODE_9 && SDL_SCANCODE_1 <= b <= SDL_SCANCODE_9 {
        lemma_digit_keys_distinct(a - SDL_SCANCODE_1 + 1, b - SDL_SCANCODE_1 + 1);
    }
}

/// Whatever the window backend, the arrow keys, Home, End, Page Up, Page Down, Insert,
/// Delete, Escape, Tab, Backspace, Enter and Space become the egui key of the same name:
/// up is up and down is down on every backend.
pub proof fn lemma_backends_agree_on_navigation_and_editing_keys()
    ensures
        glfw_key(GLFW_KEY_UP) == Some(Key::ArrowUp),
        sdl_key(SDL_SCANCODE_UP) == Some(Key::ArrowUp),
        winit_key(WINIT_KEY_UP) == Some(Key::ArrowUp),
        tao_key(TaoKey::ArrowUp) == Some(Key::ArrowUp),
        glfw_key(GLFW_KEY_DOWN) == Some(Key::ArrowDown),
        sdl_key(SDL_SCANCODE_DOWN) == Some(Key::ArrowDown),
        winit_key(WINIT_KEY_DOWN) == Some(Key::ArrowDown),
        tao_key(TaoKey::ArrowDown) == Some(Key::ArrowDown),
        glfw_key(GLFW_KEY_LEFT) == Some(Key::ArrowLeft),
        sdl_key(SDL_SCANCODE_LEFT) == Some(Key::ArrowLeft),
        winit_key(WINIT_KEY_LEFT) == Some(Key::ArrowLeft),
        tao_key(TaoKey::ArrowLeft) == Some(Key::ArrowLeft),
        glfw_key(GLFW_KEY_RIGHT) == Some(Key::ArrowRight),
        sdl_key(SDL_SCANCODE_RIGHT) == Some(Key::ArrowRight),
        winit_key(WINIT_KEY_RIGHT) == Some(Key::ArrowRight),
        tao_key(TaoKey::ArrowRight) == Some(Key::ArrowRight),
        glfw_key(GLFW_KEY_HOME) == Some(Key::Home),
        sdl_key(SDL_SCANCODE_HOME) == Some(Key::Home),
        winit_key(WINIT_KEY_HOME) == Some(Key::Home),
        tao_key(TaoKey::Home) == Some(Key::Home),
        glfw_key(GLFW_KEY_END) == Some(Key::End),
        sdl_key(SDL_SCANCODE_END) == Some(Key::End),
        winit_key(WINIT_KEY_END) == Some(Key::End),
        tao_key(TaoKey::End) == Some(Key::End),
        glfw_key(GLFW_KEY_PAGE_UP) == Some(Key::PageUp),
        sdl_key(SDL_SCANCODE_PAGEUP) == Some(Key::PageUp),
        winit_key(WINIT_KEY_PAGE_UP) == Some(Key::PageUp),
        tao_key(TaoKey::PageUp) == Some(Key::PageUp),
        glfw_key(GLFW_KEY_PAGE_DOWN) == Some(Key::PageDown),
        sdl_key(SDL_SCANCODE_PAGEDOWN) == Some(Key::PageDown),
        winit_key(WINIT_KEY_PAGE_DOWN) == Some(Key::PageDown),
        tao_key(TaoKey::PageDown) == Some(Key::PageDown),
        glfw_key(GLFW_KEY_INSERT) == Some(Key::Insert),
        sdl_key(SDL_SCANCODE_INSERT) == Some(Key::Insert),
        winit_key(WINIT_KEY_INSERT) == Some(Key::Insert),
        tao_key(TaoKey::Insert) == Some(Key::Insert),
        glfw_key(GLFW_KEY_DELETE) == Some(Key::Delete),
        sdl_key(SDL_SCANCODE_DELETE) == Some(Key::Delete),
        winit_key(WINIT_KEY_DELETE) == Some(Key::Delete),
        tao_key(TaoKey::Delete) == Some(Key::Delete),
        glfw_key(GLFW_KEY_ESCAPE) == Some(Key::Escape),
        sdl_key(SDL_SCANCODE_ESCAPE) == Some(Key::Escape),
        winit_key(WINIT_KEY_ESCAPE) == Some(Key::Escape),
        tao_key(TaoKey::Escape) == Some(Key::Escape),
        glfw_key(GLFW_KEY_TAB) == Some(Key::Tab),
        sdl_key(SDL_SCANCODE_TAB) == Some(Key::Tab),
        winit_key(WINIT_KEY_TAB) == Some(Key::Tab),
        tao_key(TaoKey::Tab) == Some(Key::Tab),
        glfw_key(GLFW_KEY_BACKSPACE) == Some(Key::Backspace),
        sdl_key(SDL_SCANCODE_BACKSPACE) == Some(Key::Backspace),
        winit_key(WINIT_KEY_BACK) == Some(Key::Backspace),
        tao_key(TaoKey::Backspace) == Some(Key::Backspace),
        glfw_key(GLFW_KEY_ENTER) == Some(Key::Enter),
        sdl_key(SDL_SCANCODE_RETURN) == Some(Key::Enter),
        winit_key(WINIT_KEY_RETURN) == Some(Key::Enter),
        tao_key(TaoKey::Enter) == Some(Key::Enter),
        glfw_key(GLFW_KEY_SPACE) == Some(Key::Space),
        sdl_key(SDL_SCANCODE_SPACE) == Some(Key::Space),
        winit_key(WINIT_KEY_SPACE) == Some(Key::Space),
        tao_key(TaoKey::Space) == Some(Key::Space),
{
}

/// The glfw cursor keeps the shape that egui asks for where glfw has one: text icons show
/// the I-beam, grabbing shows the hand, column and west/east resizing show the horizontal
/// resize arrow, row and north/south resizing show the vertical one, the crosshair stays a
/// crosshair, and the default cursor is the arrow.
pub proof fn lemma_glfw_cursor_shapes()
    ensures
        glfw_cursor(CursorIcon::Default) == GlfwStandardCursor::Arrow,
        glfw_cursor(CursorIcon::Crosshair) == GlfwStandardCursor::Crosshair,
        glfw_cursor(CursorIcon::Text) == GlfwStandardCursor::IBeam,
        glfw_cursor(CursorIcon::VerticalText) == GlfwStandardCursor::IBeam,
        glfw_cursor(CursorIcon::Grab) == GlfwStandardCursor::Hand,
        glfw_cursor(CursorIcon::Grabbing) == GlfwStandardCursor::Hand,
        glfw_cursor(CursorIcon::ResizeHorizontal) == GlfwStandardCursor::HResize,
        glfw_cursor(CursorIcon::ResizeColumn) == GlfwStandardCursor::HResize,
        glfw_cursor(CursorIcon::ResizeWest) == GlfwStandardCursor::HResize,
        glfw_cursor(CursorIcon::ResizeEast) == GlfwStandardCursor::HResize,
        glfw_cursor(CursorIcon::ResizeVertical) == GlfwStandardCursor::VResize,
        glfw_cursor(CursorIcon::ResizeRow) == GlfwStandardCursor::VResize,
        glfw_cursor(CursorIcon::ResizeNorth) == GlfwStandardCursor::VResize,
        glfw_cursor(CursorIcon::ResizeSouth) == GlfwStandardCursor::VResize,
{
}

} // verus!
