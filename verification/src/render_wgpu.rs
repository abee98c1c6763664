//! The egui painter for wgpu: which draw calls a frame needs, how large its vertex and index
//! buffers must be, and when freed textures are released.
use vstd::prelude::*;
use intmap::IntMap;
use crate::egui_types::TextureId;
use crate::render_glow::deleted_keys;

verus! {

/// The size in bytes of one egui vertex (position, texture coordinates, color).
pub const VERTEX_SIZE: usize = 20;

/// The size in bytes of one index.
pub const INDEX_SIZE: usize = 4;

/// A draw call, recorded while uploading a frame's data and replayed in the render pass.
#[derive(PartialEq, Eq, Clone, Copy, Debug)]
pub enum EguiDrawCalls {
    /// Draw the indices `index_start..index_end` of the index buffer, with the vertices
    /// counted from `base_vertex`, sampling `texture_id`, within the scissor rectangle
    /// `clip_rect` (`[x, y, width, height]`).
    Mesh {
        clip_rect: [u32; 4],
        texture_id: TextureId,
        base_vertex: i32,
        index_start: u32,
        index_end: u32,
    },
    /// Run the paint callback of the frame's primitive number `paint_callback` within the
    /// scissor rectangle `clip_rect`.
    Callback { clip_rect: [u32; 4], paint_callback: usize },
}

/// What a clipped primitive draws.
#[derive(PartialEq, Eq, Structural, Clone, Copy, Debug)]
pub enum PrimitiveKind {
    /// A mesh with this many vertices and indices, sampling one texture.
    Mesh { vertex_count: usize, index_count: usize, texture_id: TextureId },
    /// A paint callback.
    Callback,
}

/// A clipped primitive of the frame. Its clip rectangle is given by its corners
/// `[min_x, min_y, max_x, max_y]` in framebuffer pixels, already scaled, clamped to the
/// framebuffer and rounded.
#[derive(PartialEq, Eq, Clone, Copy, Debug)]
pub struct ClippedPrimitiveInfo {
    pub clip_rect: [u32; 4],
    pub primitive: PrimitiveKind,
}

/// The scissor rectangle `[x, y, width, height]` for a clip rectangle's corners: at least
/// one pixel wide and high, cut to the framebuffer; none when nothing of it remains.
pub open spec fn wgpu_scissor(clip_rect: [u32; 4], framebuffer: [u32; 2]) -> Option<[u32; 4]> {
    let width = if clip_rect[2] - clip_rect[0] >= 1 {
        clip_rect[2] - clip_rect[0]
    } else {
        1
    };
    let height = if clip_rect[3] - clip_rect[1] >= 1 {
        clip_rect[3] - clip_rect[1]
    } else {
        1
    };
    let x = if clip_rect[0] <= framebuffer[0] {
        clip_rect[0] as int
    } else {
        framebuffer[0] as int
    };
    let y = if clip_rect[1] <= framebuffer[1] {
        clip_rect[1] as int
    } else {
        framebuffer[1] as int
    };
    let w = if width <= framebuffer[0] - x {
        width
    } else {
        framebuffer[0] - x
    };
    let h = if height <= framebuffer[1] - y {
        height
    } else {
        framebuffer[1] - y
    };
    if w == 0 || h == 0 {
        None
    } else {
        Some([x as u32, y as u32, w as u32, h as u32])
    }
}

/// The total numbers of vertices and of indices of the meshes among `prims`.
pub open spec fn mesh_totals(prims: Seq<ClippedPrimitiveInfo>) -> (nat, nat)
    decreases prims.len(),
{
    if prims.len() == 0 {
        (0, 0)
    } else {
        let (v, i) = mesh_totals(prims.drop_last());
        match prims.last().primitive {
            PrimitiveKind::Mesh { vertex_count, index_count, .. } => (
                v + vertex_count as nat,
                i + index_count as nat,
            ),
            PrimitiveKind::Callback => (v, i),
        }
    }
}

/// Whether every clip rectangle has its corners in order.
pub open spec fn corners_ordered(prims: Seq<ClippedPrimitiveInfo>) -> bool {
    forall|k: int|
        0 <= k < prims.len() ==> #[trigger] prims[k].clip_rect[0] <= prims[k].clip_rect[2]
            && prims[k].clip_rect[1] <= prims[k].clip_rect[3]
}

/// The draw calls for `prims`, in order, with the numbers of vertices and indices that the
/// drawn meshes take up. A primitive whose scissor rectangle is empty is skipped; a mesh
/// that is drawn takes the next vertices and indices of the buffers.
pub open spec fn plan(prims: Seq<ClippedPrimitiveInfo>, framebuffer: [u32; 2]) -> (
    Seq<EguiDrawCalls>,
    nat,
    nat,
)
    decreases prims.len(),
{
    if prims.len() == 0 {
        (Seq::empty(), 0, 0)
    } else {
        let (calls, v, i) = plan(prims.drop_last(), framebuffer);
        let p = prims.last();
        match wgpu_scissor(p.clip_rect, framebuffer) {
            None => (calls, v, i),
            Some(rect) => match p.primitive {
                PrimitiveKind::Mesh { vertex_count, index_count, texture_id } => (
                    calls.push(
                        EguiDrawCalls::Mesh {
                            clip_rect: rect,
                            texture_id,
                            base_vertex: v as i32,
                            index_start: i as u32,
                            index_end: (i + index_count) as u32,
                        },
                    ),
                    v + vertex_count as nat,
                    i + index_count as nat,
                ),
                PrimitiveKind::Callback => (
                    calls.push(
                        EguiDrawCalls::Callback { clip_rect: rect, paint_callback: (prims.len() - 1) as usize },
                    ),
                    v,
                    i,
                ),
            },
        }
    }
}

/// Whether every drawn mesh starts at a vertex that an `i32` can count.
pub open spec fn base_vertices_fit(prims: Seq<ClippedPrimitiveInfo>, framebuffer: [u32; 2]) -> bool {
    forall|k: int|
        0 <= k < prims.len() && #[trigger] prims[k].primitive is Mesh && wgpu_scissor(
            prims[k].clip_rect,
            framebuffer,
        ) is Some ==> plan(prims.take(k), framebuffer).1 <= i32::MAX
}

/// The egui painter's bookkeeping for wgpu.
#[derive(Debug)]
pub struct EguiPainter {
    /// current capacity of the vertex buffer, in vertices
    pub vb_len: usize,
    /// current capacity of the index buffer, in indices
    pub ib_len: usize,
    /// the textures that egui freed in the previous frame, released in this one
    pub delete_textures: Vec<TextureId>,
    /// the draw calls of the current frame
    pub draw_calls: Vec<EguiDrawCalls>,
    /// the textures that egui set, by key, each as it was uploaded
    pub managed_textures: IntMap<TextureUpload>,
}

/// Which buffers a frame's upload must replace by larger ones.
#[derive(PartialEq, Eq, Structural, Clone, Copy, Debug)]
pub struct BufferGrowth {
    /// the vertex buffer is replaced by one of `vb_len` vertices
    pub vertex_buffer: bool,
    /// the index buffer is replaced by one of `ib_len` indices
    pub index_buffer: bool,
}

/// The sampler that a wgpu texture is bound with.
#[derive(PartialEq, Eq, Structural, Clone, Copy, Debug)]
pub enum WgpuSampler {
    Linear,
    Nearest,
}

/// How a texture's image is uploaded.
#[derive(PartialEq, Eq, Structural, Clone, Copy, Debug)]
pub struct TextureUpload {
    /// the managed texture's key
    pub key: u64,
    /// the number of mip levels of the new texture
    pub mip_level_count: u32,
    /// the sampler of the new texture's bind group
    pub sampler: WgpuSampler,
}

/// How to upload a texture delta: a whole image creates a new texture (with one mip level,
/// sampled with the nearest sampler) that replaces the texture of that key; a patch of an
/// image (`partial`) is not uploaded. Only egui's managed textures are handled, and mip
/// levels only for egui's font texture (key zero), so a whole image must be that texture.
pub fn texture_upload(texture_id: TextureId, partial: bool) -> (upload: Option<TextureUpload>)
    requires
        texture_id is Managed,
        !partial ==> texture_id == TextureId::Managed(0),
    ensures
        upload == (if partial {
            None
        } else {
            Some(TextureUpload { key: 0, mip_level_count: 1, sampler: WgpuSampler::Nearest })
        }),
{
    if partial {
        None
    } else {
        // egui's font texture: one mip level, sampled with the nearest sampler
        Some(TextureUpload { key: 0, mip_level_count: 1, sampler: WgpuSampler::Nearest })
    }
}

/// The textures after a frame's uploads, in order: each upload replaces the texture of its
/// key.
pub open spec fn with_uploads(textures: Map<u64, TextureUpload>, uploads: Seq<TextureUpload>) -> Map<
    u64,
    TextureUpload,
>
    decreases uploads.len(),
{
    if uploads.len() == 0 {
        textures
    } else {
        with_uploads(textures, uploads.drop_last()).insert(uploads.last().key, uploads.last())
    }
}

proof fn lemma_with_uploads_len(textures: Map<u64, TextureUpload>, uploads: Seq<TextureUpload>)
    requires
        textures.dom().finite(),
    ensures
        with_uploads(textures, uploads).dom().finite(),
        with_uploads(textures, uploads).len() <= textures.len() + uploads.len(),
    decreases uploads.len(),
{
    if uploads.len() > 0 {
        lemma_with_uploads_len(textures, uploads.drop_last());
    }
}

/// The key of a managed texture.
pub open spec fn managed_key(t: TextureId) -> u64 {
    match t {
        TextureId::Managed(k) => k,
        TextureId::User(k) => k,
    }
}

/// No texture upload.
pub open spec fn no_uploads() -> Map<u64, TextureUpload> {
    Map::empty()
}

/// The entries of a map of texture uploads, by key.
pub uninterp spec fn upload_entries(m: IntMap<TextureUpload>) -> Map<u64, TextureUpload>;

/// `IntMap::new`: a map without entries.
#[verifier::external_body]
fn upload_map_new() -> (m: IntMap<TextureUpload>)
    ensures
        upload_entries(m) == no_uploads(),
{
    IntMap::new()
}

/// `IntMap::get`: the entry for `key`, if there is one.
#[verifier::external_body]
fn upload_map_get(m: &IntMap<TextureUpload>, key: u64) -> (r: Option<TextureUpload>)
    ensures
        r == (if upload_entries(*m).dom().contains(key) {
            Some(upload_entries(*m)[key])
        } else {
            None
        }),
{
    m.get(key).copied()
}

/// `IntMap::insert`: sets the entry for `key`. The map counts its entries times 1000 when
/// it checks its load, so the count stays below a thousandth of the address space.
#[verifier::external_body]
fn upload_map_insert(m: &mut IntMap<TextureUpload>, key: u64, value: TextureUpload)
    requires
        (upload_entries(*old(m)).len() + (if upload_entries(*old(m)).dom().contains(key) {
            0int
        } else {
            1int
        })) * 1000 <= usize::MAX,
    ensures
        upload_entries(*final(m)) == upload_entries(*old(m)).insert(key, value),
{
    m.insert(key, value);
}

/// `IntMap::remove`: removes the entry for `key`, if there is one.
#[verifier::external_body]
fn upload_map_remove(m: &mut IntMap<TextureUpload>, key: u64)
    ensures
        upload_entries(*final(m)) == upload_entries(*old(m)).remove(key),
{
    m.remove(key);
}

/// `IntMap::len`: the number of entries.
#[verifier::external_body]
fn upload_map_len(m: &IntMap<TextureUpload>) -> (n: usize)
    ensures
        n == upload_entries(*m).len(),
{
    m.len()
}

proof fn lemma_deleted_keys_step(ids: Seq<TextureId>, i: int)
    requires
        0 <= i < ids.len(),
        ids[i] is Managed,
    ensures
        deleted_keys(ids.take(i + 1)) == deleted_keys(ids.take(i)).insert(managed_key(ids[i])),
{
    let before = deleted_keys(ids.take(i));
    let after = deleted_keys(ids.take(i + 1));
    assert(ids.take(i + 1)[i] == ids[i]);
    assert forall|x: u64| #[trigger] after.contains(x) implies before.insert(managed_key(ids[i])).contains(x) by {
        let k = choose|k: int| 0 <= k < ids.take(i + 1).len() && #[trigger] ids.take(i + 1)[k] == TextureId::Managed(x);
        if k < i {
            assert(ids.take(i)[k] == ids.take(i + 1)[k]);
        }
    }
    assert forall|x: u64| #[trigger] before.insert(managed_key(ids[i])).contains(x) implies after.contains(x) by {
        if before.contains(x) {
            let k = choose|k: int| 0 <= k < ids.take(i).len() && #[trigger] ids.take(i)[k] == TextureId::Managed(x);
            assert(ids.take(i + 1)[k] == ids.take(i)[k]);
        }
    }
    assert(after =~= before.insert(managed_key(ids[i])));
}

impl EguiPainter {
    /// The textures that the painter holds, by key.
    pub closed spec fn textures(&self) -> Map<u64, TextureUpload> {
        upload_entries(self.managed_textures)
    }

    /// The painter's well-formedness: it holds finitely many textures.
    pub open spec fn wf(&self) -> bool {
        self.textures().dom().finite()
    }

    /// A painter with empty buffers, no textures to release and no draw calls.
    pub fn new() -> (p: EguiPainter)
        ensures
            p.vb_len == 0,
            p.ib_len == 0,
            p.delete_textures@ == Seq::<TextureId>::empty(),
            p.draw_calls@ == Seq::<EguiDrawCalls>::empty(),
            p.wf(),
            p.textures() == Map::<u64, TextureUpload>::empty(),
    {
        EguiPainter {
            vb_len: 0,
            ib_len: 0,
            delete_textures: Vec::new(),
            draw_calls: Vec::new(),
            managed_textures: upload_map_new(),
        }
    }

    /// Starts a frame's texture work: the textures that egui frees now are kept until the
    /// next frame (they may still be drawn in this one); those that it freed in the previous
    /// frame leave the painter now, and their keys are returned.
    pub fn swap_textures_to_free(&mut self, free: Vec<TextureId>) -> (release: Vec<u64>)
        requires
            old(self).wf(),
            forall|k: int|
                0 <= k < old(self).delete_textures@.len() ==> #[trigger] old(
                    self,
                ).delete_textures@[k] is Managed,
        ensures
            final(self).delete_textures@ == free@,
            release@ == released_keys(old(self).delete_textures@),
            final(self).wf(),
            final(self).textures() == old(self).textures().remove_keys(
                deleted_keys(old(self).delete_textures@),
            ),
            final(self).vb_len == old(self).vb_len,
            final(self).ib_len == old(self).ib_len,
            final(self).draw_calls@ == old(self).draw_calls@,
    {
        let mut previous = free;
        std::mem::swap(&mut previous, &mut self.delete_textures);
        let ghost start = self.textures();
        let mut release: Vec<u64> = Vec::new();
        let mut i: usize = 0;
        while i < previous.len()
            invariant
                i <= previous.len(),
                forall|k: int| 0 <= k < previous@.len() ==> #[trigger] previous@[k] is Managed,
                release@ == previous@.take(i as int).map_values(|t: TextureId| managed_key(t)),
                start.dom().finite(),
                self.textures() == start.remove_keys(deleted_keys(previous@.take(i as int))),
                self.delete_textures@ == free@,
                self.vb_len == old(self).vb_len,
                self.ib_len == old(self).ib_len,
                self.draw_calls@ == old(self).draw_calls@,
            decreases previous.len() - i,
        {
            proof {
                lemma_deleted_keys_step(previous@, i as int);
                let s = deleted_keys(previous@.take(i as int));
                let k = managed_key(previous@[i as int]);
                assert(start.remove_keys(s.insert(k)) =~= start.remove_keys(s).remove(k));
            }
            match previous[i] {
                TextureId::Managed(key) => {
                    upload_map_remove(&mut self.managed_textures, key);
                    release.push(key);
                },
                TextureId::User(_) => {
                    proof {
                        assert(previous@[i as int] is Managed);
                    }
                },
            }
            proof {
                assert(previous@.take(i + 1).map_values(|t: TextureId| managed_key(t))
                    =~= previous@.take(i as int).map_values(|t: TextureId| managed_key(t)).push(
                    managed_key(previous@[i as int]),
                ));
            }
            i = i + 1;
        }
        proof {
            assert(previous@.take(previous.len() as int) == previous@);
            assert(self.textures().dom() =~= start.dom().difference(deleted_keys(previous@)));
        }
        release
    }

    /// Keeps a newly uploaded texture under its key, in place of any texture that had it.
    pub fn set_texture(&mut self, upload: TextureUpload)
        requires
            old(self).wf(),
            (old(self).textures().len() + 1) * 1000 <= usize::MAX,
        ensures
            final(self).wf(),
            final(self).textures() == old(self).textures().insert(upload.key, upload),
            final(self).delete_textures@ == old(self).delete_textures@,
            final(self).vb_len == old(self).vb_len,
            final(self).ib_len == old(self).ib_len,
            final(self).draw_calls@ == old(self).draw_calls@,
    {
        upload_map_insert(&mut self.managed_textures, upload.key, upload);
    }

    /// A frame's texture step: the textures that egui freed in the previous frame leave,
    /// then the frame's uploads are kept in order; the textures that egui frees in this
    /// frame stay until the next one. The keys that left are returned.
    pub fn upload_textures(&mut self, free: Vec<TextureId>, uploads: &Vec<TextureUpload>) -> (release: Vec<u64>)
        requires
            old(self).wf(),
            forall|k: int|
                0 <= k < old(self).delete_textures@.len() ==> #[trigger] old(
                    self,
                ).delete_textures@[k] is Managed,
            (old(self).textures().len() + uploads@.len()) * 1000 <= usize::MAX,
        ensures
            final(self).wf(),
            final(self).delete_textures@ == free@,
            release@ == released_keys(old(self).delete_textures@),
            final(self).textures() == with_uploads(
                old(self).textures().remove_keys(deleted_keys(old(self).delete_textures@)),
                uploads@,
            ),
            final(self).vb_len == old(self).vb_len,
            final(self).ib_len == old(self).ib_len,
            final(self).draw_calls@ == old(self).draw_calls@,
    {
        let release = self.swap_textures_to_free(free);
        let ghost base = self.textures();
        proof {
            let t = old(self).textures();
            let d = deleted_keys(old(self).delete_textures@);
            assert(base.dom() =~= t.dom().difference(d));
            vstd::set_lib::lemma_len_difference(t.dom(), d);
        }
        let mut i: usize = 0;
        while i < uploads.len()
            invariant
                i <= uploads.len(),
                base.dom().finite(),
                (base.len() + uploads@.len()) * 1000 <= usize::MAX,
                self.textures() == with_uploads(base, uploads@.take(i as int)),
                self.delete_textures@ == free@,
                self.vb_len == old(self).vb_len,
                self.ib_len == old(self).ib_len,
                self.draw_calls@ == old(self).draw_calls@,
            decreases uploads.len() - i,
        {
            proof {
                lemma_with_uploads_len(base, uploads@.take(i as int));
                assert(uploads@.take(i + 1).drop_last() == uploads@.take(i as int));
                assert(uploads@.take(i + 1).last() == uploads@[i as int]);
            }
            self.set_texture(uploads[i]);
            i = i + 1;
        }
        proof {
            assert(uploads@.take(uploads.len() as int) == uploads@);
            lemma_with_uploads_len(base, uploads@);
        }
        release
    }

    /// The texture under `key`, when the painter holds one.
    pub fn texture(&self, key: u64) -> (t: Option<TextureUpload>)
        ensures
            t == (if self.textures().dom().contains(key) {
                Some(self.textures()[key])
            } else {
                None
            }),
    {
        upload_map_get(&self.managed_textures, key)
    }

    /// The number of textures that the painter holds.
    pub fn texture_count(&self) -> (n: usize)
        requires
            self.wf(),
        ensures
            n == self.textures().len(),
    {
        upload_map_len(&self.managed_textures)
    }

    /// Plans a frame's geometry: the buffers grow to hold every mesh of the frame (they
    /// never shrink), and the draw calls are recorded in the primitives' order.
    pub fn plan_draw_calls(&mut self, prims: &Vec<ClippedPrimitiveInfo>, framebuffer_size: [u32; 2]) -> (growth: BufferGrowth)
        requires
            corners_ordered(prims@),
            mesh_totals(prims@).0 * VERTEX_SIZE <= usize::MAX,
            mesh_totals(prims@).1 * INDEX_SIZE <= usize::MAX,
            base_vertices_fit(prims@, framebuffer_size),
        ensures
            ({
                let (calls, _, _) = plan(prims@, framebuffer_size);
                let (vertices, indices) = mesh_totals(prims@);
                &&& final(self).draw_calls@ == calls
                &&& growth.vertex_buffer == (old(self).vb_len < vertices)
                &&& growth.index_buffer == (old(self).ib_len < indices)
                &&& final(self).vb_len == (if old(self).vb_len < vertices {
                    vertices
                } else {
                    old(self).vb_len as nat
                })
                &&& final(self).ib_len == (if old(self).ib_len < indices {
                    indices
                } else {
                    old(self).ib_len as nat
                })
            }),
            final(self).delete_textures@ == old(self).delete_textures@,
            final(self).textures() == old(self).textures(),
    {
        proof {
            lemma_totals_bound_plan(prims@, framebuffer_size);
        }
        // total vertices and indices
        let mut vertices: usize = 0;
        let mut indices: usize = 0;
        let mut k: usize = 0;
        while k < prims.len()
            invariant
                k <= prims.len(),
                mesh_totals(prims@).0 * VERTEX_SIZE <= usize::MAX,
                mesh_totals(prims@).1 * INDEX_SIZE <= usize::MAX,
                (vertices as nat, indices as nat) == mesh_totals(prims@.take(k as int)),
            decreases prims.len() - k,
        {
            proof {
                lemma_totals_prefix(prims@, (k + 1) as int);
                assert(prims@.take(k + 1).drop_last() == prims@.take(k as int));
            }
            match prims[k].primitive {
                PrimitiveKind::Mesh { vertex_count, index_count, .. } => {
                    vertices = vertices + vertex_count;
                    indices = indices + index_count;
                },
                PrimitiveKind::Callback => {},
            }
            k = k + 1;
        }
        proof {
            assert(prims@.take(prims.len() as int) == prims@);
        }
        // replace the buffers when they are too small
        let growth = BufferGrowth {
            vertex_buffer: self.vb_len < vertices,
            index_buffer: self.ib_len < indices,
        };
        if self.vb_len < vertices {
            self.vb_len = vertices;
        }
        if self.ib_len < indices {
            self.ib_len = indices;
        }
        // record the draw calls, each mesh taking the next vertices and indices
        self.draw_calls = Vec::new();
        let ghost vb_after = self.vb_len;
        let ghost ib_after = self.ib_len;
        let mut vertex_offset: usize = 0;
        let mut index_offset: usize = 0;
        let mut j: usize = 0;
        while j < prims.len()
            invariant
                j <= prims.len(),
                corners_ordered(prims@),
                base_vertices_fit(prims@, framebuffer_size),
                mesh_totals(prims@).0 * VERTEX_SIZE <= usize::MAX,
                mesh_totals(prims@).1 * INDEX_SIZE <= usize::MAX,
                plan(prims@, framebuffer_size).1 <= mesh_totals(prims@).0,
                plan(prims@, framebuffer_size).2 <= mesh_totals(prims@).1,
                (self.draw_calls@, vertex_offset as nat, index_offset as nat) == plan(
                    prims@.take(j as int),
                    framebuffer_size,
                ),
                self.delete_textures@ == old(self).delete_textures@,
                self.textures() == old(self).textures(),
                self.vb_len == vb_after,
                self.ib_len == ib_after,
            decreases prims.len() - j,
        {
            let p = prims[j];
            proof {
                assert(prims@.take(j + 1).drop_last() == prims@.take(j as int));
                assert(prims@.take(j + 1).last() == p);
                lemma_plan_prefix(prims@, framebuffer_size, (j + 1) as int);
                assert(prims@.take(j as int) == prims@.take(j + 1).take(j as int));
            }
            if let Some(clip_rect) = scissor_for(p.clip_rect, framebuffer_size) {
                match p.primitive {
                    PrimitiveKind::Mesh { vertex_count, index_count, texture_id } => {
                        proof {
                            assert(prims@[j as int] == p);
                            assert(prims@[j as int].primitive is Mesh);
                        }
                        let new_vertex_offset = vertex_offset + vertex_count;
                        let new_index_offset = index_offset + index_count;
                        self.draw_calls.push(
                            EguiDrawCalls::Mesh {
                                clip_rect,
                                texture_id,
                                base_vertex: vertex_offset as i32,
                                index_start: #[verifier::truncate] (index_offset as u32),
                                index_end: #[verifier::truncate] (new_index_offset as u32),
                            },
                        );
                        vertex_offset = new_vertex_offset;
                        index_offset = new_index_offset;
                    },
                    PrimitiveKind::Callback => {
                        self.draw_calls.push(
                            EguiDrawCalls::Callback { clip_rect, paint_callback: j },
                        );
                    },
                }
            }
            j = j + 1;
        }
        proof {
            assert(prims@.take(prims.len() as int) == prims@);
        }
        growth
    }
}

fn scissor_for(clip_rect: [u32; 4], framebuffer_size: [u32; 2]) -> (r: Option<[u32; 4]>)
    requires
        clip_rect[0] <= clip_rect[2],
        clip_rect[1] <= clip_rect[3],
    ensures
        r == wgpu_scissor(clip_rect, framebuffer_size),
{
    let width = if clip_rect[2] - clip_rect[0] >= 1 {
        clip_rect[2] - clip_rect[0]
    } else {
        1
    };
    let height = if clip_rect[3] - clip_rect[1] >= 1 {
        clip_rect[3] - clip_rect[1]
    } else {
        1
    };
    // cut the scissor rectangle to the framebuffer
    let x = if clip_rect[0] <= framebuffer_size[0] {
        clip_rect[0]
    } else {
        framebuffer_size[0]
    };
    let y = if clip_rect[1] <= framebuffer_size[1] {
        clip_rect[1]
    } else {
        framebuffer_size[1]
    };
    let w = if width <= framebuffer_size[0] - x {
        width
    } else {
        framebuffer_size[0] - x
    };
    let h = if height <= framebuffer_size[1] - y {
        height
    } else {
        framebuffer_size[1] - y
    };
    // skip rendering with zero-sized clip areas
    if w == 0 || h == 0 {
        None
    } else {
        Some([x, y, w, h])
    }
}

proof fn lemma_totals_prefix(prims: Seq<ClippedPrimitiveInfo>, n: int)
    requires
        0 <= n <= prims.len(),
    ensures
        mesh_totals(prims.take(n)).0 <= mesh_totals(prims).0,
        mesh_totals(prims.take(n)).1 <= mesh_totals(prims).1,
    decreases prims.len(),
{
    if n < prims.len() {
        lemma_totals_prefix(prims.drop_last(), n);
        assert(prims.drop_last().take(n) == prims.take(n));
    } else {
        assert(prims.take(n) == prims);
    }
}

proof fn lemma_plan_prefix(prims: Seq<ClippedPrimitiveInfo>, framebuffer: [u32; 2], n: int)
    requires
        0 <= n <= prims.len(),
    ensures
        plan(prims.take(n), framebuffer).1 <= plan(prims, framebuffer).1,
        plan(prims.take(n), framebuffer).2 <= plan(prims, framebuffer).2,
    decreases prims.len(),
{
    if n < prims.len() {
        lemma_plan_prefix(prims.drop_last(), framebuffer, n);
        assert(prims.drop_last().take(n) == prims.take(n));
    } else {
        assert(prims.take(n) == prims);
    }
}

proof fn lemma_totals_bound_plan(prims: Seq<ClippedPrimitiveInfo>, framebuffer: [u32; 2])
    ensures
        plan(prims, framebuffer).1 <= mesh_totals(prims).0,
        plan(prims, framebuffer).2 <= mesh_totals(prims).1,
    decreases prims.len(),
{
    if prims.len() > 0 {
        lemma_totals_bound_plan(prims.drop_last(), framebuffer);
    }
}

// ---------------------------------------------------------------------------------------
// Laws

/// Every mesh draw call reads indices that the frame uploaded: its range starts before it
/// ends, and ends within the indices of all the frame's meshes, which the index buffer holds.
pub proof fn lemma_draw_calls_within_index_buffer(prims: Seq<ClippedPrimitiveInfo>, framebuffer: [u32; 2])
    requires
        mesh_totals(prims).1 <= u32::MAX,
    ensures
        forall|k: int|
            0 <= k < plan(prims, framebuffer).0.len() ==> (#[trigger] plan(
                prims,
                framebuffer,
            ).0[k] matches EguiDrawCalls::Mesh { index_start, index_end, .. } ==> index_start
                <= index_end <= mesh_totals(prims).1),
    decreases prims.len(),
{
    lemma_totals_bound_plan(prims, framebuffer);
    if prims.len() > 0 {
        let rest = prims.drop_last();
        lemma_totals_prefix(prims, prims.len() - 1);
        assert(prims.take(prims.len() - 1) == rest);
        lemma_draw_calls_within_index_buffer(rest, framebuffer);
        lemma_plan_grows(prims, framebuffer);
        lemma_totals_bound_plan(rest, framebuffer);
    }
}

proof fn lemma_plan_grows(prims: Seq<ClippedPrimitiveInfo>, framebuffer: [u32; 2])
    requires
        prims.len() > 0,
    ensures
        plan(prims.drop_last(), framebuffer).2 <= plan(prims, framebuffer).2,
        plan(prims.drop_last(), framebuffer).0.is_prefix_of(plan(prims, framebuffer).0),
{
    let calls = plan(prims.drop_last(), framebuffer).0;
    assert(calls.is_prefix_of(calls));
    assert forall|x: EguiDrawCalls| calls.is_prefix_of(#[trigger] calls.push(x)) by {
        assert(calls.push(x).take(calls.len() as int) =~= calls);
    }
}

/// The keys of the textures released at the start of a frame: those freed in the previous
/// frame, in the order freed.
pub open spec fn released_keys(freed_in_previous_frame: Seq<TextureId>) -> Seq<u64> {
    freed_in_previous_frame.map_values(|t: TextureId| managed_key(t))
}

/// A texture that egui frees stays for the frame in which it is freed and leaves the painter
/// at the start of the next one: a key freed in the previous frame is gone after the swap,
/// and every other texture stays as it was.
pub proof fn lemma_freed_texture_leaves_next_frame(
    textures: Map<u64, TextureUpload>,
    freed_in_previous_frame: Seq<TextureId>,
    i: int,
    other: u64,
)
    requires
        0 <= i < freed_in_previous_frame.len(),
        freed_in_previous_frame[i] is Managed,
    ensures
        !textures.remove_keys(deleted_keys(freed_in_previous_frame)).dom().contains(
            managed_key(freed_in_previous_frame[i]),
        ),
        textures.dom().contains(other) && !deleted_keys(freed_in_previous_frame).contains(other)
            ==> {
            &&& textures.remove_keys(deleted_keys(freed_in_previous_frame)).dom().contains(other)
            &&& textures.remove_keys(deleted_keys(freed_in_previous_frame))[other] == textures[other]
        },
{
    assert(freed_in_previous_frame[i] == TextureId::Managed(managed_key(freed_in_previous_frame[i])));
    assert(deleted_keys(freed_in_previous_frame).contains(managed_key(freed_in_previous_frame[i])));
}

/// Whether a clip rectangle's corners lie within the framebuffer, with positive width and
/// height.
pub open spec fn inside_framebuffer(clip_rect: [u32; 4], framebuffer: [u32; 2]) -> bool {
    clip_rect[0] < clip_rect[2] <= framebuffer[0] && clip_rect[1] < clip_rect[3] <= framebuffer[1]
}

/// Whether a draw call draws primitive number `k`, `prim`, within its clip rectangle: a
/// mesh's call samples the mesh's texture, a callback's call names the primitive, and the
/// scissor rectangle is `[min_x, min_y, max_x - min_x, max_y - min_y]`.
pub open spec fn draws_within_clip_rect(call: EguiDrawCalls, prim: ClippedPrimitiveInfo, k: int) -> bool {
    let c = prim.clip_rect;
    match call {
        EguiDrawCalls::Mesh { clip_rect, texture_id, .. } => {
            &&& prim.primitive matches PrimitiveKind::Mesh { texture_id: t, .. } && t == texture_id
            &&& clip_rect[0] == c[0] && clip_rect[1] == c[1]
            &&& clip_rect[2] == c[2] - c[0] && clip_rect[3] == c[3] - c[1]
        },
        EguiDrawCalls::Callback { clip_rect, paint_callback } => {
            &&& prim.primitive is Callback
            &&& paint_callback == k
            &&& clip_rect[0] == c[0] && clip_rect[1] == c[1]
            &&& clip_rect[2] == c[2] - c[0] && clip_rect[3] == c[3] - c[1]
        },
    }
}

/// When every clip rectangle lies within the framebuffer (and the primitives fit a `Vec`),
/// nothing is skipped: the frame has
/// one draw call per primitive, in order, and each call draws its primitive within the
/// clip rectangle itself, so the scissor's width and height are those of the clip
/// rectangle.
pub proof fn lemma_inner_clip_rects_are_scissors(prims: Seq<ClippedPrimitiveInfo>, framebuffer: [u32; 2])
    requires
        prims.len() <= usize::MAX,
        forall|k: int| 0 <= k < prims.len() ==> inside_framebuffer(#[trigger] prims[k].clip_rect, framebuffer),
    ensures
        plan(prims, framebuffer).0.len() == prims.len(),
        forall|k: int|
            0 <= k < prims.len() ==> draws_within_clip_rect(
                #[trigger] plan(prims, framebuffer).0[k],
                prims[k],
                k,
            ),
    decreases prims.len(),
{
    if prims.len() > 0 {
        let prev = prims.drop_last();
        assert forall|k: int| 0 <= k < prev.len() implies inside_framebuffer(#[trigger] prev[k].clip_rect, framebuffer) by {
            assert(prev[k] == prims[k]);
        }
        lemma_inner_clip_rects_are_scissors(prev, framebuffer);
        let last = prims.len() - 1;
        let c = prims[last].clip_rect;
        assert(inside_framebuffer(prims[last].clip_rect, framebuffer));
        assert(wgpu_scissor(c, framebuffer) == Some(
            [c[0], c[1], (c[2] - c[0]) as u32, (c[3] - c[1]) as u32],
        ));
        let calls = plan(prims, framebuffer).0;
        assert forall|k: int| 0 <= k < prims.len() implies draws_within_clip_rect(
            #[trigger] calls[k],
            prims[k],
            k,
        ) by {
            if k < last {
                assert(prims[k] == prev[k]);
                assert(calls[k] == plan(prev, framebuffer).0[k]);
            } else {
                assert(prims.last() == prims[last]);
                match prims[last].primitive {
                    PrimitiveKind::Mesh { vertex_count, index_count, texture_id } => {
                        let (pc, v, i) = plan(prev, framebuffer);
                        assert(calls == pc.push(
                            EguiDrawCalls::Mesh {
                                clip_rect: [c[0], c[1], (c[2] - c[0]) as u32, (c[3] - c[1]) as u32],
                                texture_id,
                                base_vertex: v as i32,
                                index_start: i as u32,
                                index_end: (i + index_count) as u32,
                            },
                        ));
                    },
                    PrimitiveKind::Callback => {
                        let (pc, v, i) = plan(prev, framebuffer);
                        assert(calls == pc.push(
                            EguiDrawCalls::Callback {
                                clip_rect: [c[0], c[1], (c[2] - c[0]) as u32, (c[3] - c[1]) as u32],
                                paint_callback: last as usize,
                            },
                        ));
                    },
                }
            }
        }
    }
}

/// A frame's texture step: a texture that the frame uploads is there afterwards, as the last
/// upload of its key made it; a texture that egui freed in the previous frame and that the
/// frame does not upload again is gone; every other texture stays as it was.
pub proof fn lemma_frame_texture_step(
    textures: Map<u64, TextureUpload>,
    freed_in_previous_frame: Seq<TextureId>,
    uploads: Seq<TextureUpload>,
    key: u64,
)
    ensures
        ({
            let after = with_uploads(
                textures.remove_keys(deleted_keys(freed_in_previous_frame)),
                uploads,
            );
            let uploaded = exists|j: int| 0 <= j < uploads.len() && #[trigger] uploads[j].key == key;
            &&& uploaded ==> after.dom().contains(key) && after[key] == uploads[last_upload_of(
                uploads,
                key,
            )]
            &&& !uploaded && deleted_keys(freed_in_previous_frame).contains(key) ==> !after.dom().contains(key)
            &&& !uploaded && !deleted_keys(freed_in_previous_frame).contains(key) ==> {
                &&& after.dom().contains(key) == textures.dom().contains(key)
                &&& textures.dom().contains(key) ==> after[key] == textures[key]
            }
        }),
{
    lemma_with_uploads_key(textures.remove_keys(deleted_keys(freed_in_previous_frame)), uploads, key);
}

/// The index of the last upload of `key` among `uploads` (`-1` when there is none).
pub open spec fn last_upload_of(uploads: Seq<TextureUpload>, key: u64) -> int
    decreases uploads.len(),
{
    if uploads.len() == 0 {
        -1
    } else if uploads.last().key == key {
        uploads.len() - 1
    } else {
        last_upload_of(uploads.drop_last(), key)
    }
}

proof fn lemma_with_uploads_key(textures: Map<u64, TextureUpload>, uploads: Seq<TextureUpload>, key: u64)
    ensures
        (exists|j: int| 0 <= j < uploads.len() && #[trigger] uploads[j].key == key) ==> {
            &&& 0 <= last_upload_of(uploads, key) < uploads.len()
            &&& with_uploads(textures, uploads).dom().contains(key)
            &&& with_uploads(textures, uploads)[key] == uploads[last_upload_of(uploads, key)]
        },
        !(exists|j: int| 0 <= j < uploads.len() && #[trigger] uploads[j].key == key) ==> {
            &&& with_uploads(textures, uploads).dom().contains(key) == textures.dom().contains(key)
            &&& textures.dom().contains(key) ==> with_uploads(textures, uploads)[key] == textures[key]
        },
    decreases uploads.len(),
{
    if uploads.len() > 0 {
        let prev = uploads.drop_last();
        lemma_with_uploads_key(textures, prev, key);
        if uploads.last().key != key {
            if exists|j: int| 0 <= j < uploads.len() && #[trigger] uploads[j].key == key {
                let j = choose|j: int| 0 <= j < uploads.len() && #[trigger] uploads[j].key == key;
                assert(j < uploads.len() - 1);
                assert(prev[j].key == key);
            } else {
                assert forall|j: int| 0 <= j < prev.len() implies #[trigger] prev[j].key != key by {
                    assert(prev[j] == uploads[j]);
                }
            }
        }
    }
}

/// A texture that egui frees is released exactly one frame later: what a frame releases
/// depends only on what the previous frame freed, one key for each, in order.
pub proof fn lemma_release_one_frame_later(freed_in_previous_frame: Seq<TextureId>, key: u64, i: int)
    requires
        0 <= i < freed_in_previous_frame.len(),
        freed_in_previous_frame[i] == TextureId::Managed(key),
    ensures
        released_keys(freed_in_previous_frame).len() == freed_in_previous_frame.len(),
        released_keys(freed_in_previous_frame)[i] == key,
{
}

} // verus!
