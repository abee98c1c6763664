use etk::egui_types::{CursorIcon, Key, Modifiers, PointerButton};
use etk::keymap::{
    egui_to_glfw_cursor, glfw_to_egui_action, glfw_to_egui_key, glfw_to_egui_modifers,
    glfw_to_egui_pointer_button, sdl_to_egui_key, sdl_to_egui_modifiers,
    sdl_to_egui_pointer_button, tao_key_to_egui, tao_modifiers_to_egui, tao_mouse_button_to_egui,
    winit_key_to_egui, winit_modifiers_to_egui, winit_mouse_button_to_egui, GlfwAction,
    GlfwStandardCursor, MouseButtonEvent, TaoKey, TaoModifiersState,
};

#[test]
fn glfw_keys_map_to_egui_keys() {
    assert_eq!(glfw_to_egui_key(65), Some(Key::A));
    assert_eq!(glfw_to_egui_key(90), Some(Key::Z));
    assert_eq!(glfw_to_egui_key(48), Some(Key::Num0));
    assert_eq!(glfw_to_egui_key(57), Some(Key::Num9));
    assert_eq!(glfw_to_egui_key(32), Some(Key::Space));
    assert_eq!(glfw_to_egui_key(262), Some(Key::ArrowRight));
    assert_eq!(glfw_to_egui_key(269), Some(Key::End));
    // F1 and the keypad are not mapped by the glfw backend
    assert_eq!(glfw_to_egui_key(290), None);
    assert_eq!(glfw_to_egui_key(320), None);
    assert_eq!(glfw_to_egui_key(-1), None);
}

#[test]
fn glfw_modifiers_and_buttons() {
    let m = glfw_to_egui_modifers(0x2 | 0x4);
    assert_eq!(
        m,
        Modifiers { alt: true, ctrl: true, shift: false, mac_cmd: false, command: true }
    );
    let none = glfw_to_egui_modifers(0x10 | 0x20);
    assert_eq!(none, Modifiers::new());
    assert_eq!(glfw_to_egui_pointer_button(0), PointerButton::Primary);
    assert_eq!(glfw_to_egui_pointer_button(1), PointerButton::Secondary);
    assert_eq!(glfw_to_egui_pointer_button(2), PointerButton::Middle);
    assert_eq!(glfw_to_egui_pointer_button(3), PointerButton::Extra1);
    assert_eq!(glfw_to_egui_pointer_button(4), PointerButton::Extra2);
    assert_eq!(glfw_to_egui_pointer_button(7), PointerButton::Secondary);
    assert!(!glfw_to_egui_action(GlfwAction::Release));
    assert!(glfw_to_egui_action(GlfwAction::Press));
    assert!(glfw_to_egui_action(GlfwAction::Repeat));
}

#[test]
fn glfw_cursors() {
    assert_eq!(egui_to_glfw_cursor(CursorIcon::Default), GlfwStandardCursor::Arrow);
    assert_eq!(egui_to_glfw_cursor(CursorIcon::Text), GlfwStandardCursor::IBeam);
    assert_eq!(egui_to_glfw_cursor(CursorIcon::VerticalText), GlfwStandardCursor::IBeam);
    assert_eq!(egui_to_glfw_cursor(CursorIcon::Grabbing), GlfwStandardCursor::Hand);
    assert_eq!(egui_to_glfw_cursor(CursorIcon::ResizeWest), GlfwStandardCursor::HResize);
    assert_eq!(egui_to_glfw_cursor(CursorIcon::ResizeSouth), GlfwStandardCursor::VResize);
    assert_eq!(egui_to_glfw_cursor(CursorIcon::Crosshair), GlfwStandardCursor::Crosshair);
    assert_eq!(egui_to_glfw_cursor(CursorIcon::ZoomIn), GlfwStandardCursor::Arrow);
}

#[test]
fn sdl2_keys_modifiers_and_buttons() {
    assert_eq!(sdl_to_egui_key(4), Some(Key::A));
    assert_eq!(sdl_to_egui_key(29), Some(Key::Z));
    assert_eq!(sdl_to_egui_key(30), Some(Key::Num1));
    assert_eq!(sdl_to_egui_key(39), Some(Key::Num0));
    assert_eq!(sdl_to_egui_key(40), Some(Key::Enter));
    assert_eq!(sdl_to_egui_key(58), Some(Key::F1));
    assert_eq!(sdl_to_egui_key(69), Some(Key::F12));
    assert_eq!(sdl_to_egui_key(104), Some(Key::F13));
    assert_eq!(sdl_to_egui_key(111), Some(Key::F20));
    assert_eq!(sdl_to_egui_key(112), None);
    assert_eq!(sdl_to_egui_key(82), Some(Key::ArrowUp));
    assert_eq!(sdl_to_egui_key(224), None);
    let m = sdl_to_egui_modifiers(0x0080 | 0x0400 | 0x0002);
    assert_eq!(
        m,
        Modifiers { alt: false, ctrl: true, shift: true, mac_cmd: false, command: true }
    );
    assert_eq!(sdl_to_egui_pointer_button(1), Some(PointerButton::Primary));
    assert_eq!(sdl_to_egui_pointer_button(2), Some(PointerButton::Middle));
    assert_eq!(sdl_to_egui_pointer_button(3), Some(PointerButton::Secondary));
    assert_eq!(sdl_to_egui_pointer_button(5), Some(PointerButton::Extra2));
    assert_eq!(sdl_to_egui_pointer_button(0), None);
}

#[test]
fn winit_keys_modifiers_and_buttons() {
    assert_eq!(winit_key_to_egui(0), Some(Key::Num1));
    assert_eq!(winit_key_to_egui(9), Some(Key::Num0));
    assert_eq!(winit_key_to_egui(10), Some(Key::A));
    assert_eq!(winit_key_to_egui(35), Some(Key::Z));
    assert_eq!(winit_key_to_egui(36), Some(Key::Escape));
    assert_eq!(winit_key_to_egui(37), Some(Key::F1));
    assert_eq!(winit_key_to_egui(56), Some(Key::F20));
    assert_eq!(winit_key_to_egui(57), None);
    assert_eq!(winit_key_to_egui(74), Some(Key::Backspace));
    assert_eq!(winit_key_to_egui(80), Some(Key::Num0));
    assert_eq!(winit_key_to_egui(89), Some(Key::Num9));
    assert_eq!(winit_key_to_egui(90), None);
    let m = winit_modifiers_to_egui(0b100 | (0b100 << 9));
    assert_eq!(
        m,
        Modifiers { alt: false, ctrl: false, shift: true, mac_cmd: false, command: true }
    );
    assert_eq!(winit_mouse_button_to_egui(MouseButtonEvent::Other(7)), PointerButton::Extra1);
    assert_eq!(winit_mouse_button_to_egui(MouseButtonEvent::Right), PointerButton::Secondary);
}

#[test]
fn tao_keys_modifiers_and_buttons() {
    assert_eq!(tao_key_to_egui(TaoKey::Enter), Some(Key::Enter));
    assert_eq!(tao_key_to_egui(TaoKey::Function(20)), Some(Key::F20));
    assert_eq!(tao_key_to_egui(TaoKey::Function(21)), None);
    assert_eq!(tao_key_to_egui(TaoKey::Unidentified), None);
    let m = tao_modifiers_to_egui(TaoModifiersState {
        shift: false,
        control: true,
        alt: true,
        super_key: false,
    });
    assert_eq!(
        m,
        Modifiers { alt: true, ctrl: true, shift: false, mac_cmd: false, command: false }
    );
    assert_eq!(tao_mouse_button_to_egui(MouseButtonEvent::Middle), PointerButton::Middle);
}
