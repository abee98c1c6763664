# etk: an egui toolkit with verified backend logic

egui takes input from a window backend (winit, glfw, sdl2, tao) and hands shapes to a
renderer (glow, three-d, wgpu, rend3). This crate holds the decisions of those backends as
functions over plain values, each with a contract proved by Verus:

- `keymap`: the key, mouse-button, modifier and cursor codes of each windowing library,
  mapped to egui's.
- `window_winit`, `window_glfw`, `window_sdl2`, `window_tao`, `egui_backend::glfw_backend`:
  the state that each window backend keeps between frames and the reaction to each window
  event, stated as a step function, with laws over whole frames of events.
- `egui_backend`: the shared configuration, the glfw window hints for a graphics API, what
  an event loop does at the end of a frame, and the scissor rectangles for egui's clip
  rectangles.
- `render_glow`: the WebGL context attributes and the glow painter's texture bookkeeping
  (upload, lookup, deletion), kept in an `intmap::IntMap`.
- `render_wgpu`: the wgpu painter's draw calls, buffer sizes, and a frame's texture step
  (the previous frame's frees leave, this frame's uploads are kept).

`app/` is the demo program around the library: the windowing and opengl calls, the
positions and scales (which are floats), and `main`, which opens a winit window and draws
egui with glow. `tests/` runs the library on concrete values.
