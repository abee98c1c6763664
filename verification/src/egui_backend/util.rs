//! Scissor rectangles for egui's clip rectangles.
use vstd::prelude::*;

verus! {

/// `v` held within `lo..=hi` (for `lo <= hi`).
pub open spec fn clamped(v: int, lo: int, hi: int) -> int {
    if v < lo {
        lo
    } else if v > hi {
        hi
    } else {
        v
    }
}

/// The scissor rectangle `[x, y, width, height]` (top-left origin) for a clip rectangle
/// given by its corners in framebuffer pixels: the top-left corner is clamped into the
/// framebuffer, the bottom-right corner between it and the framebuffer's bottom-right
/// corner; there is none when the result is empty.
pub open spec fn scissor(clip_rect: [i32; 4], framebuffer: [u32; 2]) -> Option<[u32; 4]> {
    let x = clamped(clip_rect[0] as int, 0, framebuffer[0] as int);
    let y = clamped(clip_rect[1] as int, 0, framebuffer[1] as int);
    let x2 = clamped(clip_rect[2] as int, x, framebuffer[0] as int);
    let y2 = clamped(clip_rect[3] as int, y, framebuffer[1] as int);
    if x2 - x != 0 && y2 - y != 0 {
        Some([x as u32, y as u32, (x2 - x) as u32, (y2 - y) as u32])
    } else {
        None
    }
}

fn clamp_i32(v: i32, lo: i32, hi: i32) -> (r: i32)
    requires
        lo <= hi,
    ensures
        r == clamped(v as int, lo as int, hi as int),
{
    if v < lo {
        lo
    } else if v > hi {
        hi
    } else {
        v
    }
}

/// The scissor rectangle `[x, y, width, height]` for a clip rectangle.
///
/// The caller multiplies egui's clip rectangle (in points) by the scale and rounds it to
/// whole pixels: `clip_rect` is `[min_x, min_y, max_x, max_y]` in framebuffer pixels. The
/// rectangle is then clamped to `0..width` and `0..height` of the framebuffer, its width
/// and height kept non-negative, and it is returned only when neither is zero.
///
/// This is the top-left-origin rectangle for wgpu/metal/directx; opengl takes
/// [`scissor_from_clip_rect_opengl`].
pub fn scissor_from_clip_rect(clip_rect: [i32; 4], physical_framebuffer_size: [u32; 2]) -> (r:
    Option<[u32; 4]>)
    requires
        physical_framebuffer_size[0] <= i32::MAX,
        physical_framebuffer_size[1] <= i32::MAX,
    ensures
        r == scissor(clip_rect, physical_framebuffer_size),
{
    let width_limit = physical_framebuffer_size[0] as i32;
    let height_limit = physical_framebuffer_size[1] as i32;
    // clamp the top-left corner into the framebuffer
    let clip_min_x = clamp_i32(clip_rect[0], 0, width_limit);
    let clip_min_y = clamp_i32(clip_rect[1], 0, height_limit);
    // clamp the bottom-right corner between the top-left corner and the framebuffer's end
    let clip_max_x = clamp_i32(clip_rect[2], clip_min_x, width_limit);
    let clip_max_y = clamp_i32(clip_rect[3], clip_min_y, height_limit);
    let x = clip_min_x as u32;
    let y = clip_min_y as u32;
    let width = (clip_max_x - clip_min_x) as u32;
    let height = (clip_max_y - clip_min_y) as u32;
    // no scissor at all when the region is empty
    if width != 0 && height != 0 {
        Some([x, y, width, height])
    } else {
        None
    }
}

/// The scissor rectangle for opengl, whose origin is the bottom-left corner: the same
/// region as [`scissor_from_clip_rect`], with `y` measured from the framebuffer's bottom
/// (the framebuffer height minus the rectangle's bottom edge).
pub fn scissor_from_clip_rect_opengl(clip_rect: [i32; 4], physical_framebuffer_size: [u32; 2]) -> (r:
    Option<[u32; 4]>)
    requires
        physical_framebuffer_size[0] <= i32::MAX,
        physical_framebuffer_size[1] <= i32::MAX,
    ensures
        r == (match scissor(clip_rect, physical_framebuffer_size) {
            Some(s) => Some(
                [s[0], (physical_framebuffer_size[1] - (s[1] + s[3])) as u32, s[2], s[3]],
            ),
            None => None,
        }),
{
    match scissor_from_clip_rect(clip_rect, physical_framebuffer_size) {
        Some(arr) => Some(
            [arr[0], physical_framebuffer_size[1] - (arr[1] + arr[3]), arr[2], arr[3]],
        ),
        None => None,
    }
}

/// A scissor rectangle lies within the framebuffer and is never empty.
pub proof fn lemma_scissor_within_framebuffer(clip_rect: [i32; 4], framebuffer: [u32; 2])
    requires
        framebuffer[0] <= i32::MAX,
        framebuffer[1] <= i32::MAX,
    ensures
        scissor(clip_rect, framebuffer) matches Some(s) ==> {
            &&& s[2] > 0 && s[3] > 0
            &&& s[0] + s[2] <= framebuffer[0]
            &&& s[1] + s[3] <= framebuffer[1]
        },
{
}

/// A clip rectangle that lies within the framebuffer and is not empty is its own scissor
/// rectangle.
pub proof fn lemma_scissor_keeps_inner_rect(clip_rect: [i32; 4], framebuffer: [u32; 2])
    requires
        framebuffer[0] <= i32::MAX,
        framebuffer[1] <= i32::MAX,
        0 <= clip_rect[0] < clip_rect[2] <= framebuffer[0],
        0 <= clip_rect[1] < clip_rect[3] <= framebuffer[1],
    ensures
        scissor(clip_rect, framebuffer) == Some(
            [
                clip_rect[0] as u32,
                clip_rect[1] as u32,
                (clip_rect[2] - clip_rect[0]) as u32,
                (clip_rect[3] - clip_rect[1]) as u32,
            ],
        ),
{
}

/// The opengl scissor rectangle is the same region as the top-left-origin one, flipped
/// vertically: its distance from the bottom plus the other's bottom edge is the height.
pub proof fn lemma_opengl_scissor_flips_vertically(clip_rect: [i32; 4], framebuffer: [u32; 2])
    requires
        framebuffer[0] <= i32::MAX,
        framebuffer[1] <= i32::MAX,
    ensures
        scissor(clip_rect, framebuffer) matches Some(s) ==> {
            let flipped_y = (framebuffer[1] - (s[1] + s[3])) as u32;
            &&& flipped_y + s[1] + s[3] == framebuffer[1]
            &&& flipped_y + s[3] <= framebuffer[1]
        },
{
}

} // verus!
