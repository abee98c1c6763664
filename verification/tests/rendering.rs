use etk::demo::App;
use etk::egui_backend::util::{scissor_from_clip_rect, scissor_from_clip_rect_opengl};
use etk::egui_types::TextureId;
use etk::render_glow::{
    create_context_options_from_webgl_config, GlowConfig, Painter, PowerPreference, SamplerKind,
    TextureFilter, WebGlConfig, WebGlContextAttribute,
};
use etk::render_rend3::Rend3Config;
use etk::render_three_d::ThreeDConfig;
use etk::render_wgpu::{
    texture_upload, ClippedPrimitiveInfo, EguiDrawCalls, EguiPainter, PrimitiveKind,
    TextureUpload, WgpuSampler,
};
use etk::window_backend::MouseButton;

#[test]
fn scissor_clamps_to_the_framebuffer() {
    assert_eq!(scissor_from_clip_rect([-5, 10, 50, 700], [100, 600]), Some([0, 10, 50, 590]));
    assert_eq!(scissor_from_clip_rect([10, 20, 30, 60], [100, 100]), Some([10, 20, 20, 40]));
    // entirely outside, or empty: no scissor
    assert_eq!(scissor_from_clip_rect([150, 10, 200, 20], [100, 100]), None);
    assert_eq!(scissor_from_clip_rect([10, 10, 10, 20], [100, 100]), None);
    // a backwards rectangle collapses to nothing
    assert_eq!(scissor_from_clip_rect([50, 50, 10, 10], [100, 100]), None);
}

#[test]
fn opengl_scissor_counts_from_the_bottom() {
    assert_eq!(scissor_from_clip_rect_opengl([-5, 10, 50, 700], [100, 600]), Some([0, 0, 50, 590]));
    assert_eq!(scissor_from_clip_rect_opengl([10, 20, 30, 60], [100, 100]), Some([10, 40, 20, 40]));
    assert_eq!(scissor_from_clip_rect_opengl([10, 10, 10, 20], [100, 100]), None);
}

fn mesh(clip_rect: [u32; 4], vertex_count: usize, index_count: usize, key: u64) -> ClippedPrimitiveInfo {
    ClippedPrimitiveInfo {
        clip_rect,
        primitive: PrimitiveKind::Mesh { vertex_count, index_count, texture_id: TextureId::Managed(key) },
    }
}

#[test]
fn wgpu_draw_calls_take_consecutive_buffer_ranges() {
    let mut p = EguiPainter::new();
    let prims = vec![
        mesh([0, 0, 100, 100], 4, 6, 0),
        // zero-sized clip rectangles still get a one pixel scissor
        mesh([10, 10, 10, 10], 3, 3, 1),
        ClippedPrimitiveInfo { clip_rect: [0, 0, 50, 50], primitive: PrimitiveKind::Callback },
        // outside the framebuffer: skipped, its vertices not taken
        mesh([200, 0, 300, 10], 8, 12, 2),
        mesh([90, 90, 150, 150], 5, 9, 0),
    ];
    let growth = p.plan_draw_calls(&prims, [100, 100]);
    assert!(growth.vertex_buffer && growth.index_buffer);
    assert_eq!(p.vb_len, 4 + 3 + 8 + 5);
    assert_eq!(p.ib_len, 6 + 3 + 12 + 9);
    assert_eq!(
        p.draw_calls,
        vec![
            EguiDrawCalls::Mesh { clip_rect: [0, 0, 100, 100], texture_id: TextureId::Managed(0), base_vertex: 0, index_start: 0, index_end: 6 },
            EguiDrawCalls::Mesh { clip_rect: [10, 10, 1, 1], texture_id: TextureId::Managed(1), base_vertex: 4, index_start: 6, index_end: 9 },
            EguiDrawCalls::Callback { clip_rect: [0, 0, 50, 50], paint_callback: 2 },
            EguiDrawCalls::Mesh { clip_rect: [90, 90, 10, 10], texture_id: TextureId::Managed(0), base_vertex: 7, index_start: 9, index_end: 18 },
        ]
    );
    // a smaller frame keeps the buffers
    let growth = p.plan_draw_calls(&vec![mesh([0, 0, 1, 1], 1, 1, 0)], [100, 100]);
    assert!(!growth.vertex_buffer && !growth.index_buffer);
    assert_eq!(p.vb_len, 20);
    assert_eq!(p.ib_len, 30);
    assert_eq!(p.draw_calls.len(), 1);
}

#[test]
fn wgpu_textures_are_released_one_frame_later() {
    let mut p = EguiPainter::new();
    let t3 = TextureUpload { key: 3, mip_level_count: 1, sampler: WgpuSampler::Linear };
    let t4 = TextureUpload { key: 4, mip_level_count: 1, sampler: WgpuSampler::Nearest };
    let t5 = TextureUpload { key: 5, mip_level_count: 1, sampler: WgpuSampler::Linear };
    p.set_texture(t3);
    p.set_texture(t4);
    p.set_texture(t5);
    assert_eq!(p.texture_count(), 3);
    assert_eq!(p.swap_textures_to_free(vec![TextureId::Managed(3), TextureId::Managed(5)]), Vec::<u64>::new());
    // freed textures stay for the frame in which they are freed
    assert_eq!(p.texture(3), Some(t3));
    assert_eq!(p.swap_textures_to_free(vec![]), vec![3, 5]);
    // and leave at the start of the next one
    assert_eq!(p.texture(3), None);
    assert_eq!(p.texture(5), None);
    assert_eq!(p.texture(4), Some(t4));
    assert_eq!(p.texture_count(), 1);
    assert_eq!(p.swap_textures_to_free(vec![TextureId::User(1)]), Vec::<u64>::new());
    assert_eq!(p.delete_textures, vec![TextureId::User(1)]);
}

#[test]
fn wgpu_frame_texture_step() {
    let mut p = EguiPainter::new();
    let font = TextureUpload { key: 0, mip_level_count: 1, sampler: WgpuSampler::Nearest };
    let other = TextureUpload { key: 2, mip_level_count: 1, sampler: WgpuSampler::Linear };
    let again = TextureUpload { key: 2, mip_level_count: 1, sampler: WgpuSampler::Nearest };
    // frame one uploads two textures and frees the second
    assert_eq!(p.upload_textures(vec![TextureId::Managed(2)], &vec![font, other]), Vec::<u64>::new());
    assert_eq!(p.texture(2), Some(other));
    // frame two releases it, uploads it again, and the last upload of a key wins
    assert_eq!(p.upload_textures(vec![TextureId::Managed(0)], &vec![again]), vec![2]);
    assert_eq!(p.texture(2), Some(again));
    assert_eq!(p.texture(0), Some(font));
    // frame three releases the font texture, which it does not upload again
    assert_eq!(p.upload_textures(vec![], &vec![]), vec![0]);
    assert_eq!(p.texture(0), None);
    assert_eq!(p.texture_count(), 1);
}

#[test]
fn wgpu_texture_upload_plan() {
    assert_eq!(texture_upload(TextureId::Managed(7), true), None);
    assert_eq!(
        texture_upload(TextureId::Managed(0), false),
        Some(TextureUpload { key: 0, mip_level_count: 1, sampler: WgpuSampler::Nearest })
    );
}

#[test]
fn glow_config_and_webgl_attributes() {
    let c = GlowConfig::default();
    assert!(!c.enable_debug);
    assert_eq!(c.webgl_config, WebGlConfig::default());
    assert!(create_context_options_from_webgl_config(&WebGlConfig::default()).is_empty());
    let mut w = WebGlConfig::default();
    w.stencil = Some(true);
    w.alpha = Some(false);
    w.low_power = Some(true);
    let attrs = create_context_options_from_webgl_config(&w);
    assert_eq!(
        attrs,
        vec![
            WebGlContextAttribute::Alpha(false),
            WebGlContextAttribute::PowerPreference(PowerPreference::LowPower),
            WebGlContextAttribute::Stencil(true),
        ]
    );
    let names: Vec<&str> = attrs.iter().map(|a| a.name()).collect();
    assert_eq!(names, vec!["alpha", "powerPreference", "stencil"]);
    assert_eq!(PowerPreference::LowPower.as_str(), "low-power");
    assert_eq!(PowerPreference::HighPerformance.as_str(), "high-performance");
    w.low_power = Some(false);
    assert_eq!(
        create_context_options_from_webgl_config(&w)[1],
        WebGlContextAttribute::PowerPreference(PowerPreference::HighPerformance)
    );
}

#[test]
fn glow_painter_keeps_textures() {
    let mut p = Painter::new();
    assert_eq!(p.texture_count(), 0);
    assert_eq!(p.screen_size_physical(), [0, 0]);
    p.resize_framebuffer([800, 600]);
    assert_eq!(p.screen_size_physical(), [800, 600]);
    assert_eq!(p.texture_handle(0), None);
    p.insert_texture(0, 11, TextureFilter::Linear);
    p.insert_texture(1, 12, TextureFilter::Nearest);
    p.insert_texture(2, 13, TextureFilter::Linear);
    assert_eq!(p.texture_count(), 3);
    assert_eq!(p.texture_handle(1), Some(12));
    // the font texture samples with the font sampler
    assert_eq!(p.texture_for_mesh(TextureId::Managed(0)), (11, SamplerKind::Font));
    assert_eq!(p.texture_for_mesh(TextureId::Managed(1)), (12, SamplerKind::Nearest));
    assert_eq!(p.texture_for_mesh(TextureId::Managed(2)), (13, SamplerKind::Linear));
    p.record_texture_size(2, [64, 32]);
    assert_eq!(p.texture_for_mesh(TextureId::Managed(2)), (13, SamplerKind::Linear));
    p.set_textures_to_delete(vec![TextureId::Managed(2), TextureId::Managed(0)]);
    assert_eq!(p.take_textures_to_delete(), vec![13, 11]);
    assert_eq!(p.texture_count(), 1);
    assert_eq!(p.texture_handle(0), None);
    // a texture that egui did not free stays, with its opengl name
    assert_eq!(p.texture_handle(1), Some(12));
    assert_eq!(p.take_textures_to_delete(), Vec::<u32>::new());
    assert_eq!(p.take_all_textures(), vec![12]);
    assert_eq!(p.texture_count(), 0);
}

#[test]
fn glow_painter_uploads_texture_deltas() {
    let mut p = Painter::new();
    // a new texture with a whole image gets the created name and its size
    assert_eq!(p.upload_texture(4, Some(21), TextureFilter::Nearest, Some([8, 2])), 21);
    assert_eq!(p.texture_for_mesh(TextureId::Managed(4)), (21, SamplerKind::Nearest));
    // a patch of a texture that the painter holds goes into its existing name
    assert_eq!(p.upload_texture(4, None, TextureFilter::Linear, None), 21);
    assert_eq!(p.texture_for_mesh(TextureId::Managed(4)), (21, SamplerKind::Nearest));
    // the font texture samples with the font sampler
    assert_eq!(p.upload_texture(0, Some(5), TextureFilter::Linear, None), 5);
    assert_eq!(p.texture_for_mesh(TextureId::Managed(0)), (5, SamplerKind::Font));
    assert_eq!(p.texture_count(), 2);
}

#[test]
fn small_configs_and_types() {
    assert_eq!(Rend3Config::default(), Rend3Config {});
    let t = ThreeDConfig::default();
    assert!(!t.glow_config.enable_debug);
    let app = App { check: false };
    assert!(!app.check);
    assert_ne!(MouseButton::Custom(5), MouseButton::X2);
}
