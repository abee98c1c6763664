use etk::egui_backend::glfw_backend::{
    glfw_to_egui_pointer_button, glfw_window_plan, GlfwBackend as EmbeddedGlfwBackend,
    GlfwClientApi, GlfwProfile, GlfwWindowHint,
};
use etk::egui_backend::opengl::{NativeGlConfig, WebGlConfig};
use etk::egui_backend::{frame_end, BackendConfig, FrameEnd, GfxApiType, OpenGlConfig};
use etk::egui_types::{CursorIcon, EguiEvent, Key, KeyEvent, Modifiers, PointerButton, Reaction};
use etk::keymap::{GlfwAction, GlfwStandardCursor, MouseButtonEvent, TaoKey, TaoModifiersState};
use etk::window_glfw::{window_client_api, CursorProbe, GlfwBackend, GlfwWindowEvent};
use etk::window_sdl2::{add_pressed_modifiers, is_opengl_window, Sdl2Backend, Sdl2Event};
use etk::window_tao::{TaoBackend, TaoConfig, TaoWindowEvent};
use etk::window_winit::{
    glutin_context_plan, native_config_after_creation, GlApi, GlPixelFormat, GlProfile,
    GlRequest, WinitBackend, WinitSettings, WinitWindowEvent,
};

const CTRL: i32 = 0x2;

fn probe(passthrough: bool, within_bounds: bool, moved: bool) -> CursorProbe {
    CursorProbe { passthrough, within_bounds, moved }
}

#[test]
fn glfw_new_backend_has_a_pending_resize() {
    let b = GlfwBackend::new(800, 600);
    assert_eq!(b.framebuffer_size_physical, [800, 600]);
    assert!(b.resized_event_pending);
    assert_eq!(b.cursor_icon, GlfwStandardCursor::Arrow);
    assert!(!b.cursor_inside_bounds);
}

#[test]
fn glfw_tick_maps_events_in_order() {
    let mut b = GlfwBackend::new(800, 600);
    b.take_resize_event();
    let events = vec![
        GlfwWindowEvent::Key(67, GlfwAction::Press, CTRL),
        GlfwWindowEvent::Key(88, GlfwAction::Repeat, CTRL),
        GlfwWindowEvent::Key(86, GlfwAction::Press, CTRL),
        GlfwWindowEvent::Key(86, GlfwAction::Release, CTRL),
        GlfwWindowEvent::Key(340, GlfwAction::Press, 0),
        GlfwWindowEvent::Char("é".to_string()),
        GlfwWindowEvent::MouseButton(1, GlfwAction::Press, 0x1),
        GlfwWindowEvent::FramebufferSize(1024, 768),
        GlfwWindowEvent::Scroll,
        GlfwWindowEvent::ContentScale,
        GlfwWindowEvent::Close,
        GlfwWindowEvent::FileDrop,
        GlfwWindowEvent::Other,
    ];
    let t = b.tick(&events, probe(false, true, true));
    assert_eq!(t.reactions.len(), events.len());
    assert_eq!(t.reactions[0], Reaction::Emit(EguiEvent::Copy));
    assert_eq!(t.reactions[1], Reaction::Emit(EguiEvent::Cut));
    assert_eq!(t.reactions[2], Reaction::Emit(EguiEvent::ClipboardText));
    // releasing V with control is an ordinary key event
    assert_eq!(
        t.reactions[3],
        Reaction::Emit(EguiEvent::Key(KeyEvent {
            key: Key::V,
            pressed: false,
            repeat: false,
            modifiers: Modifiers { alt: false, ctrl: true, shift: false, mac_cmd: false, command: true },
        }))
    );
    // left shift is not a key for egui
    assert_eq!(t.reactions[4], Reaction::Ignore);
    assert_eq!(t.reactions[5], Reaction::Emit(EguiEvent::Text("é".to_string())));
    assert_eq!(
        t.reactions[6],
        Reaction::Emit(EguiEvent::PointerButton {
            button: PointerButton::Secondary,
            pressed: true,
            modifiers: Modifiers { alt: false, ctrl: false, shift: true, mac_cmd: false, command: false },
        })
    );
    assert_eq!(t.reactions[7], Reaction::ResizeScreen);
    assert_eq!(t.reactions[8], Reaction::Emit(EguiEvent::Scroll));
    assert_eq!(t.reactions[9], Reaction::Rescale);
    assert_eq!(t.reactions[10], Reaction::Close);
    assert_eq!(t.reactions[11], Reaction::DropFiles);
    assert_eq!(t.reactions[12], Reaction::Ignore);
    assert_eq!(t.simulated, None);
    assert!(b.resized_event_pending);
    assert_eq!(b.framebuffer_size_physical, [1024, 768]);
}

#[test]
fn glfw_c_without_control_is_a_key_event() {
    let mut b = GlfwBackend::new(1, 1);
    let t = b.tick(&vec![GlfwWindowEvent::Key(67, GlfwAction::Press, 0)], probe(false, true, false));
    assert_eq!(
        t.reactions,
        vec![Reaction::Emit(EguiEvent::Key(KeyEvent {
            key: Key::C,
            pressed: true,
            repeat: false,
            modifiers: Modifiers::new(),
        }))]
    );
}

#[test]
fn glfw_passthrough_simulates_the_pointer() {
    let mut b = GlfwBackend::new(800, 600);
    // the cursor moved within a passthrough window without cursor events
    let t = b.tick(&vec![], probe(true, true, true));
    assert_eq!(t.simulated, Some(EguiEvent::PointerMoved));
    assert!(b.cursor_inside_bounds);
    // it did not move: nothing to report
    let t = b.tick(&vec![], probe(true, true, false));
    assert_eq!(t.simulated, None);
    // it left the window: the pointer is gone, once
    let t = b.tick(&vec![], probe(true, false, true));
    assert_eq!(t.simulated, Some(EguiEvent::PointerGone));
    assert!(!b.cursor_inside_bounds);
    let t = b.tick(&vec![], probe(true, false, true));
    assert_eq!(t.simulated, None);
    // a cursor event in the frame leaves the pointer to the events
    let t = b.tick(&vec![GlfwWindowEvent::CursorPos], probe(true, false, true));
    assert_eq!(t.reactions, vec![Reaction::Emit(EguiEvent::PointerMoved)]);
    assert_eq!(t.simulated, None);
    assert!(b.cursor_inside_bounds);
}

#[test]
fn glfw_cursor_leaving_depends_on_passthrough() {
    let mut b = GlfwBackend::new(800, 600);
    let t = b.tick(&vec![GlfwWindowEvent::CursorEnter(false)], probe(false, false, false));
    assert_eq!(t.reactions, vec![Reaction::Emit(EguiEvent::PointerGone)]);
    let mut b = GlfwBackend::new(800, 600);
    let t = b.tick(&vec![GlfwWindowEvent::CursorEnter(true)], probe(true, true, false));
    assert_eq!(t.reactions, vec![Reaction::Ignore]);
    assert!(b.cursor_inside_bounds);
    let t = b.tick(&vec![GlfwWindowEvent::CursorEnter(false)], probe(true, false, false));
    assert_eq!(t.reactions, vec![Reaction::Ignore]);
    assert!(!b.cursor_inside_bounds);
    // it was marked outside by the event, so no pointer-gone is simulated
    assert_eq!(t.simulated, None);
}

#[test]
fn glfw_cursor_changes_only_when_needed() {
    let mut b = GlfwBackend::new(800, 600);
    assert_eq!(b.set_cursor(CursorIcon::Default), None);
    assert_eq!(b.set_cursor(CursorIcon::Text), Some(GlfwStandardCursor::IBeam));
    assert_eq!(b.set_cursor(CursorIcon::VerticalText), None);
    assert_eq!(b.set_cursor(CursorIcon::Wait), Some(GlfwStandardCursor::Arrow));
    assert_eq!(b.cursor_icon, GlfwStandardCursor::Arrow);
}

#[test]
fn glfw_resize_is_taken_once() {
    let mut b = GlfwBackend::new(800, 600);
    assert!(b.take_resize_event());
    assert!(!b.take_resize_event());
    assert_eq!(b.get_live_physical_size_framebuffer(640, 480), Some([640, 480]));
    assert_eq!(b.framebuffer_size_physical, [640, 480]);
}

#[test]
fn glfw_client_api_follows_backend_config() {
    let mut c = BackendConfig::default();
    assert_eq!(window_client_api(&c), GlfwClientApi::OpenGl);
    c.is_opengl = false;
    assert_eq!(window_client_api(&c), GlfwClientApi::NoApi);
}

#[test]
fn backend_and_opengl_defaults() {
    let c = BackendConfig::default();
    assert!(c.is_opengl);
    assert!(c.opengl_config.is_none());
    assert!(c.transparent.is_none());
    let o = OpenGlConfig::default();
    assert!(o.major.is_none() && o.minor.is_none() && o.es.is_none() && o.srgb.is_none());
    assert!(o.depth.is_none() && o.stencil.is_none() && o.color_bits.is_none());
    assert!(o.multi_samples.is_none() && o.core.is_none());
    let n = NativeGlConfig::default();
    assert_eq!(n.srgb, Some(true));
    assert_eq!(n.double_buffer, Some(true));
    assert_eq!(n.vsync, Some(true));
    assert_eq!(n.debug, Some(false));
    assert_eq!(n.major, None);
    assert_eq!(n.samples, None);
    let w = WebGlConfig::default();
    assert_eq!(w.alpha, None);
    assert_eq!(w.low_power, None);
    assert_eq!(w.desynchronized, None);
}

#[test]
fn embedded_glfw_backend_hints() {
    let native = NativeGlConfig {
        major: Some(3),
        minor: Some(3),
        es: Some(false),
        core: Some(true),
        depth_bits: Some(24),
        stencil_bits: None,
        samples: Some(4),
        srgb: Some(true),
        double_buffer: Some(true),
        vsync: Some(false),
        debug: None,
    };
    let plan = glfw_window_plan(&GfxApiType::OpenGL { native_config: native });
    assert_eq!(
        plan.hints,
        vec![
            GlfwWindowHint::ContextVersionMajor(3),
            GlfwWindowHint::ContextVersionMinor(3),
            GlfwWindowHint::ClientApi(GlfwClientApi::OpenGl),
            GlfwWindowHint::OpenGlProfile(GlfwProfile::Core),
            GlfwWindowHint::DepthBits(Some(24)),
            GlfwWindowHint::StencilBits(None),
            GlfwWindowHint::SRgbCapable(true),
            GlfwWindowHint::Samples(Some(4)),
            GlfwWindowHint::DoubleBuffer(true),
        ]
    );
    assert!(plan.opengl);
    assert_eq!(plan.swap_interval, Some(false));
    let defaults = glfw_window_plan(&GfxApiType::OpenGL { native_config: NativeGlConfig::default() });
    assert_eq!(
        defaults.hints,
        vec![
            GlfwWindowHint::DepthBits(None),
            GlfwWindowHint::StencilBits(None),
            GlfwWindowHint::SRgbCapable(true),
            GlfwWindowHint::DoubleBuffer(true),
            GlfwWindowHint::OpenGlDebugContext(false),
        ]
    );
    assert_eq!(defaults.swap_interval, Some(true));
    let vulkan = glfw_window_plan(&GfxApiType::Vulkan);
    assert_eq!(vulkan.hints, vec![GlfwWindowHint::ClientApi(GlfwClientApi::NoApi)]);
    assert!(!vulkan.opengl);
    assert_eq!(glfw_window_plan(&GfxApiType::NoApi).hints, vec![GlfwWindowHint::ClientApi(GlfwClientApi::NoApi)]);
}

#[test]
fn embedded_glfw_backend_tick() {
    assert_eq!(glfw_to_egui_pointer_button(3), PointerButton::Secondary);
    assert_eq!(glfw_to_egui_pointer_button(2), PointerButton::Middle);
    let mut b = EmbeddedGlfwBackend::new(800, 600, GfxApiType::Vulkan, None);
    assert!(b.take_resize_event());
    let r = b.tick(&vec![
        GlfwWindowEvent::MouseButton(4, GlfwAction::Release, 0),
        GlfwWindowEvent::CursorPos,
        GlfwWindowEvent::CursorEnter(false),
        GlfwWindowEvent::FramebufferSize(-1, 5),
    ]);
    assert_eq!(
        r,
        vec![
            Reaction::Emit(EguiEvent::PointerButton {
                button: PointerButton::Secondary,
                pressed: false,
                modifiers: Modifiers::new(),
            }),
            Reaction::Emit(EguiEvent::PointerMoved),
            Reaction::Ignore,
            Reaction::ResizeScreen,
        ]
    );
    assert!(b.resized_event_pending);
    assert_eq!(b.size_physical_pixels, [u32::MAX, 5]);
    assert_eq!(b.get_live_physical_size_framebuffer(7, 8), [7, 8]);
}

#[test]
fn sdl2_events() {
    assert!(is_opengl_window(0x2 | 0x4));
    assert!(!is_opengl_window(0x10000000));
    let mut b = Sdl2Backend::new([1600, 1200]);
    assert!(b.take_resize_event());
    let ctrl = Modifiers { alt: false, ctrl: true, shift: false, mac_cmd: false, command: false };
    let held = Modifiers::new();
    let r = b.tick(held, &vec![
        Sdl2Event::KeyDown { scancode: 6, keymod: 0x40, repeat: false },
        Sdl2Event::KeyUp { scancode: 27, keymod: 0x80, repeat: false },
        Sdl2Event::KeyDown { scancode: 25, keymod: 0x40, repeat: true },
        Sdl2Event::KeyUp { scancode: 25, keymod: 0x40, repeat: false },
        Sdl2Event::KeyDown { scancode: 6, keymod: 0, repeat: false },
        Sdl2Event::TextInput("ab".to_string()),
        Sdl2Event::MouseButtonDown(1),
        Sdl2Event::MouseButtonUp(0),
        Sdl2Event::WindowLeave,
        Sdl2Event::WindowSizeChanged { drawable_size: [800, 600] },
        Sdl2Event::AppTerminating,
        Sdl2Event::Quit,
    ]);
    assert_eq!(r[0], Reaction::Emit(EguiEvent::Copy));
    assert_eq!(r[1], Reaction::Emit(EguiEvent::Cut));
    assert_eq!(
        r[2],
        Reaction::Emit(EguiEvent::ClipboardTextOr(KeyEvent {
            key: Key::V,
            pressed: true,
            repeat: true,
            modifiers: ctrl,
        }))
    );
    assert_eq!(r[3], Reaction::Emit(EguiEvent::ClipboardText));
    assert_eq!(
        r[4],
        Reaction::Emit(EguiEvent::Key(KeyEvent {
            key: Key::C,
            pressed: true,
            repeat: false,
            modifiers: Modifiers::new(),
        }))
    );
    assert_eq!(r[5], Reaction::Emit(EguiEvent::Text("ab".to_string())));
    assert_eq!(
        r[6],
        Reaction::Emit(EguiEvent::PointerButton {
            button: PointerButton::Primary,
            pressed: true,
            modifiers: Modifiers::new(),
        })
    );
    assert_eq!(r[7], Reaction::Ignore);
    assert_eq!(r[8], Reaction::Emit(EguiEvent::PointerGone));
    assert_eq!(r[9], Reaction::ResizeScreen);
    assert_eq!(r[10], Reaction::Ignore);
    assert_eq!(r[11], Reaction::Close);
    assert!(b.should_close);
    assert!(b.latest_resize_event);
    assert_eq!(b.size_physical_pixels, [800, 600]);
    assert_eq!(b.get_live_physical_size_framebuffer([3, 4]), Some([3, 4]));
}

#[test]
fn sdl2_held_keys_add_modifiers() {
    let m = add_pressed_modifiers(Modifiers::new(), &vec![4, 228, 227]);
    assert_eq!(
        m,
        Modifiers { alt: false, ctrl: true, shift: false, mac_cmd: false, command: true }
    );
    let m = add_pressed_modifiers(m, &vec![225, 230]);
    assert_eq!(
        m,
        Modifiers { alt: true, ctrl: true, shift: true, mac_cmd: false, command: true }
    );
    assert_eq!(add_pressed_modifiers(Modifiers::new(), &vec![]), Modifiers::new());
}

#[test]
fn winit_settings_and_context_plan() {
    let s = WinitSettings::default();
    assert_eq!(s.title, "egui winit window");
    assert_eq!(s.dom_element_id, "egui_winit_canvas");
    let p = glutin_context_plan(&NativeGlConfig::default());
    assert_eq!(p.gl_request, None);
    assert_eq!(p.gl_profile, None);
    assert_eq!(p.srgb, Some(true));
    assert_eq!(p.double_buffer, Some(true));
    assert_eq!(p.vsync, Some(true));
    assert_eq!(p.debug, Some(false));
    let mut es = NativeGlConfig::default();
    es.es = Some(true);
    es.minor = Some(1);
    es.core = Some(false);
    es.samples = Some(8);
    let p = glutin_context_plan(&es);
    assert_eq!(p.gl_request, Some(GlRequest { api: GlApi::OpenGlEs, major: 3, minor: 1 }));
    assert_eq!(p.gl_profile, Some(GlProfile::Compatibility));
    assert_eq!(p.multisampling, Some(8));
    let mut gl = NativeGlConfig::default();
    gl.major = Some(4);
    let p = glutin_context_plan(&gl);
    assert_eq!(p.gl_request, Some(GlRequest { api: GlApi::OpenGl, major: 4, minor: 0 }));
}

#[test]
fn winit_config_after_creation() {
    let requested = NativeGlConfig::default();
    let got = native_config_after_creation(
        &requested,
        GlApi::OpenGl,
        &GlPixelFormat { depth_bits: 24, stencil_bits: 8, multisampling: Some(4), srgb: false, double_buffer: true },
    );
    assert_eq!(got.es, Some(false));
    assert_eq!(got.depth_bits, Some(24));
    assert_eq!(got.stencil_bits, Some(8));
    assert_eq!(got.samples, Some(4));
    assert_eq!(got.srgb, Some(false));
    assert_eq!(got.double_buffer, Some(true));
    assert_eq!(got.vsync, Some(true));
    assert_eq!(got.debug, Some(false));
    assert_eq!(got.major, None);
    // the backend records the settings that the context got
    let pf = GlPixelFormat { depth_bits: 24, stencil_bits: 8, multisampling: None, srgb: true, double_buffer: false };
    let b = WinitBackend::new(
        [10, 20],
        GfxApiType::OpenGL { native_config: requested },
        Some((GlApi::OpenGlEs, pf)),
    );
    match b.gfx_api_type {
        GfxApiType::OpenGL { native_config } => {
            assert_eq!(native_config.es, Some(true));
            assert_eq!(native_config.depth_bits, Some(24));
            assert_eq!(native_config.stencil_bits, Some(8));
            assert_eq!(native_config.samples, None);
            assert_eq!(native_config.srgb, Some(true));
            assert_eq!(native_config.double_buffer, Some(false));
            assert_eq!(native_config.vsync, Some(true));
        }
        _ => panic!("an opengl window records opengl settings"),
    }
    let b = WinitBackend::new([10, 20], GfxApiType::Vulkan, None);
    assert!(matches!(b.gfx_api_type, GfxApiType::Vulkan));
}

#[test]
fn embedded_glfw_fills_unset_settings() {
    let mut requested = NativeGlConfig::default();
    requested.major = Some(3);
    requested.depth_bits = Some(16);
    let mut reported = NativeGlConfig::default();
    reported.major = Some(4);
    reported.minor = Some(6);
    reported.depth_bits = Some(24);
    reported.stencil_bits = Some(8);
    reported.samples = Some(4);
    reported.srgb = Some(false);
    reported.vsync = None;
    let b = EmbeddedGlfwBackend::new(1, 2, GfxApiType::OpenGL { native_config: requested }, Some(reported));
    match b.gfx_api_type {
        GfxApiType::OpenGL { native_config } => {
            // what the user gave stays; what the user left open is what the window reports
            assert_eq!(native_config.major, Some(3));
            assert_eq!(native_config.minor, Some(6));
            assert_eq!(native_config.depth_bits, Some(16));
            assert_eq!(native_config.stencil_bits, Some(8));
            assert_eq!(native_config.samples, Some(4));
            assert_eq!(native_config.srgb, Some(true));
            assert_eq!(native_config.vsync, Some(true));
        }
        _ => panic!("an opengl window records opengl settings"),
    }
}

#[test]
fn winit_events_use_latest_modifiers() {
    let mut b = WinitBackend::new([640, 480], GfxApiType::NoApi, None);
    let r = b.handle_events(&vec![
        WinitWindowEvent::ModifiersChanged(0b100 << 3),
        WinitWindowEvent::KeyboardInput { pressed: true, virtual_keycode: Some(10) },
        WinitWindowEvent::KeyboardInput { pressed: true, virtual_keycode: None },
        WinitWindowEvent::KeyboardInput { pressed: false, virtual_keycode: Some(60) },
        WinitWindowEvent::MouseInput { pressed: false, button: MouseButtonEvent::Left },
        WinitWindowEvent::ReceivedCharacter("x".to_string()),
        WinitWindowEvent::CursorLeft,
        WinitWindowEvent::ScaleFactorChanged,
        WinitWindowEvent::Resized([320, 240]),
        WinitWindowEvent::CloseRequested,
    ]);
    let ctrl = Modifiers { alt: false, ctrl: true, shift: false, mac_cmd: false, command: false };
    assert_eq!(r[0], Reaction::Ignore);
    assert_eq!(
        r[1],
        Reaction::Emit(EguiEvent::Key(KeyEvent { key: Key::A, pressed: true, repeat: false, modifiers: ctrl }))
    );
    assert_eq!(r[2], Reaction::Ignore);
    assert_eq!(r[3], Reaction::Ignore);
    assert_eq!(
        r[4],
        Reaction::Emit(EguiEvent::PointerButton { button: PointerButton::Primary, pressed: false, modifiers: ctrl })
    );
    assert_eq!(r[5], Reaction::Emit(EguiEvent::Text("x".to_string())));
    assert_eq!(r[6], Reaction::Emit(EguiEvent::PointerGone));
    assert_eq!(r[7], Reaction::Rescale);
    assert_eq!(r[8], Reaction::ResizeScreen);
    assert_eq!(r[9], Reaction::Close);
    assert!(b.should_close);
    assert_eq!(b.framebuffer_size, [320, 240]);
    assert_eq!(b.take_latest_size_update([321, 241]), Some([321, 241]));
    // the renderer took the size: the resize is no longer pending
    assert!(!b.latest_resize_event);
    assert_eq!(b.take_latest_size_update([322, 242]), None);
}

#[test]
fn winit_without_resize_gives_no_size_update() {
    let mut b = WinitBackend::new([640, 480], GfxApiType::NoApi, None);
    b.latest_resize_event = false;
    assert_eq!(b.take_latest_size_update([1, 1]), None);
}

#[test]
fn tao_events() {
    assert_eq!(TaoConfig::default().title, "egui tao window");
    let mut b = TaoBackend::new(&GfxApiType::Vulkan, [100, 100]);
    let r = b.handle_events(&vec![
        TaoWindowEvent::ModifiersChanged(TaoModifiersState { shift: true, control: false, alt: false, super_key: true }),
        TaoWindowEvent::KeyboardInput { pressed: true, logical_key: TaoKey::Tab },
        TaoWindowEvent::ReceivedImeText("漢".to_string()),
        TaoWindowEvent::MouseInput { pressed: true, button: MouseButtonEvent::Other(4) },
        TaoWindowEvent::CursorMoved,
        TaoWindowEvent::MouseWheel,
        TaoWindowEvent::DroppedFile,
        TaoWindowEvent::Other,
    ]);
    let m = Modifiers { alt: false, ctrl: false, shift: true, mac_cmd: false, command: true };
    assert_eq!(r[0], Reaction::Ignore);
    assert_eq!(
        r[1],
        Reaction::Emit(EguiEvent::Key(KeyEvent { key: Key::Tab, pressed: true, repeat: false, modifiers: m }))
    );
    assert_eq!(r[2], Reaction::Emit(EguiEvent::Text("漢".to_string())));
    assert_eq!(
        r[3],
        Reaction::Emit(EguiEvent::PointerButton { button: PointerButton::Extra1, pressed: true, modifiers: m })
    );
    assert_eq!(r[4], Reaction::Emit(EguiEvent::PointerMoved));
    assert_eq!(r[5], Reaction::Emit(EguiEvent::Scroll));
    assert_eq!(r[6], Reaction::DropFiles);
    assert_eq!(r[7], Reaction::Ignore);
    assert!(b.take_resize_event());
    assert!(!b.take_resize_event());
    b.handle_event(&TaoWindowEvent::Resized([7, 9]));
    assert!(b.take_resize_event());
    assert_eq!(b.framebuffer_size, [7, 9]);
}

#[test]
fn frame_end_decides_exit_clipboard_and_wait() {
    assert_eq!(
        frame_end(false, "copied", 16),
        FrameEnd { exit: false, copy_to_clipboard: true, wait_millis: 16 }
    );
    assert_eq!(frame_end(true, "", 0), FrameEnd { exit: true, copy_to_clipboard: false, wait_millis: 0 });
    // the delay in milliseconds is cast to u32
    assert_eq!(frame_end(false, "", (1u128 << 32) + 5).wait_millis, 5);
}
