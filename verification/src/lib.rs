//! Window-input mapping, configuration and render bookkeeping for egui backends.
//!
//! The crate keeps the decisions of the egui backends (which egui event a window event
//! becomes, which state a window backend keeps between frames, which scissor rectangle
//! and draw calls a frame needs, which textures a painter keeps) as verified functions
//! over plain values. Windowing and graphics calls live in the application around it.
pub mod demo;
pub mod egui_backend;
pub mod egui_types;
pub mod keymap;
pub mod render_glow;
pub mod render_rend3;
pub mod render_three_d;
pub mod render_wgpu;
pub mod window_backend;
pub mod window_glfw;
pub mod window_sdl2;
pub mod window_tao;
pub mod window_winit;
