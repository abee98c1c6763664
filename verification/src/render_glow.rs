//! The egui painter for glow (opengl): its configuration, the WebGL context attributes it
//! asks the browser for, and the textures it keeps.
use vstd::prelude::*;
use intmap::IntMap;
use crate::egui_types::TextureId;
pub use crate::egui_backend::opengl::WebGlConfig;

verus! {

/// Configuration of the glow backend.
#[derive(Debug, Clone, Copy)]
pub struct GlowConfig {
    pub webgl_config: WebGlConfig,
    pub enable_debug: bool,
}

impl Default for GlowConfig {
    /// The browser's default WebGL attributes, without opengl debug output.
    fn default() -> (c: GlowConfig)
        ensures
            c.webgl_config == (WebGlConfig {
                alpha: None,
                depth: None,
                stencil: None,
                antialias: None,
                premultiplied_alpha: None,
                preserve_drawing_buffer: None,
                low_power: None,
                fail_if_major_performance_caveat: None,
                desynchronized: None,
            }),
            !c.enable_debug,
    {
        GlowConfig { webgl_config: WebGlConfig::default(), enable_debug: false }
    }
}

// ---------------------------------------------------------------------------------------
// WebGL context attributes

/// The browser's power preference for a WebGL context.
#[derive(PartialEq, Eq, Structural, Clone, Copy, Debug)]
pub enum PowerPreference {
    LowPower,
    HighPerformance,
}

impl PowerPreference {
    /// The value of the `powerPreference` attribute.
    pub fn as_str(&self) -> (s: &'static str)
        ensures
            s@ == (match self {
                PowerPreference::LowPower => "low-power"@,
                PowerPreference::HighPerformance => "high-performance"@,
            }),
    {
        match self {
            PowerPreference::LowPower => "low-power",
            PowerPreference::HighPerformance => "high-performance",
        }
    }
}

/// One attribute of `WebGLContextAttributes` with its value.
#[derive(PartialEq, Eq, Structural, Clone, Copy, Debug)]
pub enum WebGlContextAttribute {
    Alpha(bool),
    Antialias(bool),
    Depth(bool),
    Desynchronized(bool),
    FailIfMajorPerformanceCaveat(bool),
    PowerPreference(PowerPreference),
    PremultipliedAlpha(bool),
    PreserveDrawingBuffer(bool),
    Stencil(bool),
}

impl WebGlContextAttribute {
    /// The attribute's name in `WebGLContextAttributes`.
    pub fn name(&self) -> (s: &'static str)
        ensures
            s@ == (match self {
                WebGlContextAttribute::Alpha(_) => "alpha"@,
                WebGlContextAttribute::Antialias(_) => "antialias"@,
                WebGlContextAttribute::Depth(_) => "depth"@,
                WebGlContextAttribute::Desynchronized(_) => "desynchronized"@,
                WebGlContextAttribute::FailIfMajorPerformanceCaveat(_) => "failIfMajorPerformanceCaveat"@,
                WebGlContextAttribute::PowerPreference(_) => "powerPreference"@,
                WebGlContextAttribute::PremultipliedAlpha(_) => "premultipliedAlpha"@,
                WebGlContextAttribute::PreserveDrawingBuffer(_) => "preserveDrawingBuffer"@,
                WebGlContextAttribute::Stencil(_) => "stencil"@,
            }),
    {
        match self {
            WebGlContextAttribute::Alpha(_) => "alpha",
            WebGlContextAttribute::Antialias(_) => "antialias",
            WebGlContextAttribute::Depth(_) => "depth",
            WebGlContextAttribute::Desynchronized(_) => "desynchronized",
            WebGlContextAttribute::FailIfMajorPerformanceCaveat(_) => "failIfMajorPerformanceCaveat",
            WebGlContextAttribute::PowerPreference(_) => "powerPreference",
            WebGlContextAttribute::PremultipliedAlpha(_) => "premultipliedAlpha",
            WebGlContextAttribute::PreserveDrawingBuffer(_) => "preserveDrawingBuffer",
            WebGlContextAttribute::Stencil(_) => "stencil",
        }
    }
}

/// No attribute, or one.
pub open spec fn attribute_seq(a: Option<WebGlContextAttribute>) -> Seq<WebGlContextAttribute> {
    match a {
        Some(x) => seq![x],
        None => Seq::empty(),
    }
}

/// The attributes for a WebGL config, in the order alpha, antialias, depth, desynchronized,
/// failIfMajorPerformanceCaveat, powerPreference, premultipliedAlpha, preserveDrawingBuffer,
/// stencil: one for each setting that is given, the low-power setting becoming the power
/// preference.
pub open spec fn webgl_attributes(c: WebGlConfig) -> Seq<WebGlContextAttribute> {
    attribute_seq(
        match c.alpha {
            Some(v) => Some(WebGlContextAttribute::Alpha(v)),
            None => None,
        },
    ) + attribute_seq(
        match c.antialias {
            Some(v) => Some(WebGlContextAttribute::Antialias(v)),
            None => None,
        },
    ) + attribute_seq(
        match c.depth {
            Some(v) => Some(WebGlContextAttribute::Depth(v)),
            None => None,
        },
    ) + attribute_seq(
        match c.desynchronized {
            Some(v) => Some(WebGlContextAttribute::Desynchronized(v)),
            None => None,
        },
    ) + attribute_seq(
        match c.fail_if_major_performance_caveat {
            Some(v) => Some(WebGlContextAttribute::FailIfMajorPerformanceCaveat(v)),
            None => None,
        },
    ) + attribute_seq(
        match c.low_power {
            Some(true) => Some(WebGlContextAttribute::PowerPreference(PowerPreference::LowPower)),
            Some(false) => Some(
                WebGlContextAttribute::PowerPreference(PowerPreference::HighPerformance),
            ),
            None => None,
        },
    ) + attribute_seq(
        match c.premultiplied_alpha {
            Some(v) => Some(WebGlContextAttribute::PremultipliedAlpha(v)),
            None => None,
        },
    ) + attribute_seq(
        match c.preserve_drawing_buffer {
            Some(v) => Some(WebGlContextAttribute::PreserveDrawingBuffer(v)),
            None => None,
        },
    ) + attribute_seq(
        match c.stencil {
            Some(v) => Some(WebGlContextAttribute::Stencil(v)),
            None => None,
        },
    )
}

fn push_attribute(attrs: &mut Vec<WebGlContextAttribute>, a: Option<WebGlContextAttribute>)
    ensures
        final(attrs)@ == old(attrs)@ + attribute_seq(a),
{
    if let Some(x) = a {
        attrs.push(x);
    }
    proof {
        assert(final(attrs)@ =~= old(attrs)@ + attribute_seq(a));
    }
}

/// The context attributes to hand to the browser with a WebGL2 context request.
pub fn create_context_options_from_webgl_config(webgl_config: &WebGlConfig) -> (attrs: Vec<
    WebGlContextAttribute,
>)
    ensures
        attrs@ == webgl_attributes(*webgl_config),
{
    let c = *webgl_config;
    let mut attrs: Vec<WebGlContextAttribute> = Vec::new();
    push_attribute(
        &mut attrs,
        match c.alpha {
            Some(v) => Some(WebGlContextAttribute::Alpha(v)),
            None => None,
        },
    );
    push_attribute(
        &mut attrs,
        match c.antialias {
            Some(v) => Some(WebGlContextAttribute::Antialias(v)),
            None => None,
        },
    );
    push_attribute(
        &mut attrs,
        match c.depth {
            Some(v) => Some(WebGlContextAttribute::Depth(v)),
            None => None,
        },
    );
    push_attribute(
        &mut attrs,
        match c.desynchronized {
            Some(v) => Some(WebGlContextAttribute::Desynchronized(v)),
            None => None,
        },
    );
    push_attribute(
        &mut attrs,
        match c.fail_if_major_performance_caveat {
            Some(v) => Some(WebGlContextAttribute::FailIfMajorPerformanceCaveat(v)),
            None => None,
        },
    );
    push_attribute(
        &mut attrs,
        match c.low_power {
            Some(true) => Some(WebGlContextAttribute::PowerPreference(PowerPreference::LowPower)),
            Some(false) => Some(
                WebGlContextAttribute::PowerPreference(PowerPreference::HighPerformance),
            ),
            None => None,
        },
    );
    push_attribute(
        &mut attrs,
        match c.premultiplied_alpha {
            Some(v) => Some(WebGlContextAttribute::PremultipliedAlpha(v)),
            None => None,
        },
    );
    push_attribute(
        &mut attrs,
        match c.preserve_drawing_buffer {
            Some(v) => Some(WebGlContextAttribute::PreserveDrawingBuffer(v)),
            None => None,
        },
    );
    push_attribute(
        &mut attrs,
        match c.stencil {
            Some(v) => Some(WebGlContextAttribute::Stencil(v)),
            None => None,
        },
    );
    proof {
        assert(attrs@ =~= webgl_attributes(c));
    }
    attrs
}

// ---------------------------------------------------------------------------------------
// Textures

/// How a texture is filtered when it is minified.
#[derive(PartialEq, Eq, Structural, Clone, Copy, Debug)]
pub enum TextureFilter {
    Nearest,
    Linear,
}

/// The sampler that a texture is drawn with.
#[derive(PartialEq, Eq, Structural, Clone, Copy, Debug)]
pub enum SamplerKind {
    Linear,
    Nearest,
    /// the sampler for egui's font texture, which clamps to the edge
    Font,
}

/// A texture that the painter uploaded: its opengl name, its size in pixels (zero until
/// the whole image is uploaded) and its sampler.
#[derive(PartialEq, Eq, Structural, Clone, Copy, Debug)]
pub struct GpuTexture {
    pub handle: u32,
    pub width: u32,
    pub height: u32,
    pub sampler: SamplerKind,
}

#[verifier::external_type_specification]
#[verifier::external_body]
#[verifier::reject_recursive_types(V)]
pub struct ExIntMap<V>(IntMap<V>);

/// No texture.
pub open spec fn no_textures() -> Map<u64, GpuTexture> {
    Map::empty()
}

/// The entries of a map of textures, by key.
pub uninterp spec fn texture_entries(m: IntMap<GpuTexture>) -> Map<u64, GpuTexture>;

/// `IntMap::new`: a map without entries.
#[verifier::external_body]
fn texture_map_new() -> (m: IntMap<GpuTexture>)
    ensures
        texture_entries(m) == no_textures(),
{
    IntMap::new()
}

/// `IntMap::get`: the entry for `key`, if there is one.
#[verifier::external_body]
fn texture_map_get(m: &IntMap<GpuTexture>, key: u64) -> (r: Option<GpuTexture>)
    ensures
        r == (if texture_entries(*m).dom().contains(key) {
            Some(texture_entries(*m)[key])
        } else {
            None
        }),
{
    m.get(key).copied()
}

/// `IntMap::insert`: sets the entry for `key` and returns the one it replaces. The map
/// counts its entries times 1000 when it checks its load, so the count stays below a
/// thousandth of the address space.
#[verifier::external_body]
fn texture_map_insert(m: &mut IntMap<GpuTexture>, key: u64, value: GpuTexture) -> (r: Option<
    GpuTexture,
>)
    requires
        (texture_entries(*old(m)).len() + (if texture_entries(*old(m)).dom().contains(key) {
            0int
        } else {
            1int
        })) * 1000 <= usize::MAX,
    ensures
        texture_entries(*final(m)) == texture_entries(*old(m)).insert(key, value),
        r == (if texture_entries(*old(m)).dom().contains(key) {
            Some(texture_entries(*old(m))[key])
        } else {
            None
        }),
{
    m.insert(key, value)
}

/// `IntMap::remove`: removes the entry for `key` and returns it.
#[verifier::external_body]
fn texture_map_remove(m: &mut IntMap<GpuTexture>, key: u64) -> (r: Option<GpuTexture>)
    ensures
        texture_entries(*final(m)) == texture_entries(*old(m)).remove(key),
        r == (if texture_entries(*old(m)).dom().contains(key) {
            Some(texture_entries(*old(m))[key])
        } else {
            None
        }),
{
    m.remove(key)
}

/// `IntMap::len`: the number of entries.
#[verifier::external_body]
fn texture_map_len(m: &IntMap<GpuTexture>) -> (n: usize)
    ensures
        n == texture_entries(*m).len(),
{
    m.len()
}

/// `IntMap::drain`: takes every entry out of the map, each once, in the map's own order:
/// every returned entry was in the map, no key comes twice, and every key of the map comes.
#[verifier::external_body]
fn texture_map_drain(m: &mut IntMap<GpuTexture>) -> (entries: Vec<(u64, GpuTexture)>)
    ensures
        texture_entries(*final(m)) == no_textures(),
        entries@.len() == texture_entries(*old(m)).len(),
        forall|i: int|
            0 <= i < entries@.len() ==> texture_entries(*old(m)).dom().contains(
                #[trigger] entries@[i].0,
            ) && texture_entries(*old(m))[entries@[i].0] == entries@[i].1,
        forall|i: int, j: int|
            0 <= i < j < entries@.len() ==> #[trigger] entries@[i].0 != #[trigger] entries@[j].0,
        forall|k: u64|
            #[trigger] texture_entries(*old(m)).dom().contains(k) ==> exists|i: int|
                0 <= i < entries@.len() && #[trigger] entries@[i].0 == k,
{
    m.drain().collect()
}

/// The glow painter's bookkeeping: the textures that egui manages and the ones that egui
/// freed this frame.
pub struct Painter {
    managed_textures: IntMap<GpuTexture>,
    textures_to_delete: Vec<TextureId>,
    screen_size_physical: [u32; 2],
}

impl Painter {
    /// The textures by key.
    pub closed spec fn textures(&self) -> Map<u64, GpuTexture> {
        texture_entries(self.managed_textures)
    }

    /// The textures to delete once this frame is drawn.
    pub closed spec fn pending_deletes(&self) -> Seq<TextureId> {
        self.textures_to_delete@
    }

    /// The framebuffer size in pixels.
    pub closed spec fn screen_size(&self) -> [u32; 2] {
        self.screen_size_physical
    }

    /// The painter's well-formedness: it holds finitely many textures.
    pub open spec fn wf(&self) -> bool {
        self.textures().dom().finite()
    }

    /// A painter without textures, with nothing to delete and a framebuffer size still to
    /// be set.
    pub fn new() -> (p: Painter)
        ensures
            p.wf(),
            p.textures() == Map::<u64, GpuTexture>::empty(),
            p.pending_deletes() == Seq::<TextureId>::empty(),
            p.screen_size() == [0u32, 0u32],
    {
        Painter {
            managed_textures: texture_map_new(),
            textures_to_delete: Vec::new(),
            screen_size_physical: [0, 0],
        }
    }

    /// The framebuffer size in pixels that the painter draws to.
    pub fn screen_size_physical(&self) -> (size: [u32; 2])
        ensures
            size == self.screen_size(),
    {
        self.screen_size_physical
    }

    /// Follows a framebuffer resize.
    pub fn resize_framebuffer(&mut self, framebuffer_size: [u32; 2])
        requires
            old(self).wf(),
        ensures
            final(self).wf(),
            final(self).screen_size() == framebuffer_size,
            final(self).textures() == old(self).textures(),
            final(self).pending_deletes() == old(self).pending_deletes(),
    {
        self.screen_size_physical = framebuffer_size;
    }

    /// The number of textures that the painter holds.
    pub fn texture_count(&self) -> (n: usize)
        requires
            self.wf(),
        ensures
            n == self.textures().len(),
    {
        texture_map_len(&self.managed_textures)
    }

    /// Starts a frame's upload: the textures that egui frees in this frame are deleted once
    /// it is drawn.
    pub fn set_textures_to_delete(&mut self, free: Vec<TextureId>)
        requires
            old(self).wf(),
        ensures
            final(self).wf(),
            final(self).pending_deletes() == free@,
            final(self).textures() == old(self).textures(),
            final(self).screen_size() == old(self).screen_size(),
    {
        self.textures_to_delete = free;
    }

    /// The opengl name of the managed texture `key`, when the painter holds it.
    pub fn texture_handle(&self, key: u64) -> (handle: Option<u32>)
        requires
            self.wf(),
        ensures
            handle == (if self.textures().dom().contains(key) {
                Some(self.textures()[key].handle)
            } else {
                None
            }),
    {
        match texture_map_get(&self.managed_textures, key) {
            Some(t) => Some(t.handle),
            None => None,
        }
    }

    /// Registers a newly created opengl texture for the managed texture `key`: it has no
    /// size yet, and it samples with the font sampler when it is egui's font texture (key
    /// zero), with the sampler for its minification filter otherwise.
    pub fn insert_texture(&mut self, key: u64, handle: u32, minification: TextureFilter)
        requires
            old(self).wf(),
            (old(self).textures().len() + 1) * 1000 <= usize::MAX,
        ensures
            final(self).wf(),
            final(self).textures() == old(self).textures().insert(
                key,
                new_gpu_texture(key, handle, minification),
            ),
            final(self).pending_deletes() == old(self).pending_deletes(),
            final(self).screen_size() == old(self).screen_size(),
    {
        let sampler = match minification {
            TextureFilter::Nearest => SamplerKind::Nearest,
            TextureFilter::Linear => SamplerKind::Linear,
        };
        // egui's font texture gets the sampler that clamps to the edge
        let sampler = if key == 0 {
            SamplerKind::Font
        } else {
            sampler
        };
        texture_map_insert(
            &mut self.managed_textures,
            key,
            GpuTexture { handle, width: 0, height: 0, sampler },
        );
    }

    /// Uploads one texture delta of egui: when the painter does not hold the texture `key`,
    /// the caller has created an opengl texture (`created`) and it is kept with the sampler
    /// for `minification`; a whole image (`whole_size`) records the texture's size, a patch
    /// (`None`) does not. Returns the opengl name to upload the pixels into.
    pub fn upload_texture(
        &mut self,
        key: u64,
        created: Option<u32>,
        minification: TextureFilter,
        whole_size: Option<[usize; 2]>,
    ) -> (handle: u32)
        requires
            old(self).wf(),
            (created is Some) == !old(self).textures().dom().contains(key),
            (old(self).textures().len() + 1) * 1000 <= usize::MAX,
        ensures
            final(self).wf(),
            final(self).textures() == after_upload(
                old(self).textures(),
                key,
                created,
                minification,
                whole_size,
            ),
            final(self).textures().dom().contains(key),
            handle == final(self).textures()[key].handle,
            handle == (match created {
                Some(h) => h,
                None => old(self).textures()[key].handle,
            }),
            final(self).pending_deletes() == old(self).pending_deletes(),
            final(self).screen_size() == old(self).screen_size(),
    {
        if let Some(h) = created {
            self.insert_texture(key, h, minification);
        }
        proof {
            lemma_len_after_insert(old(self).textures(), key, created, minification);
        }
        let handle = match texture_map_get(&self.managed_textures, key) {
            Some(t) => t.handle,
            None => 0,
        };
        if let Some(size) = whole_size {
            self.record_texture_size(key, size);
        }
        handle
    }

    /// Records that the whole image of the managed texture `key`, of `size` pixels, was
    /// uploaded.
    pub fn record_texture_size(&mut self, key: u64, size: [usize; 2])
        requires
            old(self).wf(),
            old(self).textures().dom().contains(key),
            old(self).textures().len() * 1000 <= usize::MAX,
        ensures
            final(self).wf(),
            final(self).textures() == old(self).textures().insert(
                key,
                GpuTexture {
                    width: size[0] as u32,
                    height: size[1] as u32,
                    ..old(self).textures()[key]
                },
            ),
            final(self).pending_deletes() == old(self).pending_deletes(),
            final(self).screen_size() == old(self).screen_size(),
    {
        let gpu_tex = texture_map_get(&self.managed_textures, key);
        match gpu_tex {
            Some(t) => {
                proof {
                    assert(self.textures().insert(key, t) =~= self.textures());
                }
                texture_map_insert(
                    &mut self.managed_textures,
                    key,
                    GpuTexture {
                        width: #[verifier::truncate] (size[0] as u32),
                        height: #[verifier::truncate] (size[1] as u32),
                        ..t
                    },
                );
            },
            None => {},
        }
    }

    /// The opengl name and sampler to draw a mesh with.
    pub fn texture_for_mesh(&self, texture_id: TextureId) -> (r: (u32, SamplerKind))
        requires
            self.wf(),
            texture_id matches TextureId::Managed(key) && self.textures().dom().contains(key),
        ensures
            texture_id matches TextureId::Managed(key) && r == (
                self.textures()[key].handle,
                self.textures()[key].sampler,
            ),
    {
        match texture_id {
            TextureId::Managed(key) => match texture_map_get(&self.managed_textures, key) {
                Some(t) => (t.handle, t.sampler),
                None => (0, SamplerKind::Linear),
            },
            TextureId::User(_) => (0, SamplerKind::Linear),
        }
    }

    /// Ends a frame's drawing: the textures that egui freed this frame are removed, and their
    /// opengl names returned in order, for deletion.
    pub fn take_textures_to_delete(&mut self) -> (handles: Vec<u32>)
        requires
            old(self).wf(),
            forall|i: int|
                0 <= i < old(self).pending_deletes().len() ==> (#[trigger] old(
                    self,
                ).pending_deletes()[i] matches TextureId::Managed(key) && old(
                    self,
                ).textures().dom().contains(key)),
            forall|i: int, j: int|
                0 <= i < j < old(self).pending_deletes().len() ==> #[trigger] old(
                    self,
                ).pending_deletes()[i] != #[trigger] old(self).pending_deletes()[j],
        ensures
            final(self).wf(),
            final(self).pending_deletes() == Seq::<TextureId>::empty(),
            handles@.len() == old(self).pending_deletes().len(),
            forall|i: int|
                0 <= i < handles@.len() ==> (old(self).pending_deletes()[i] matches TextureId::Managed(
                    key,
                ) && #[trigger] handles@[i] == old(self).textures()[key].handle),
            final(self).textures() == old(self).textures().remove_keys(
                deleted_keys(old(self).pending_deletes()),
            ),
            final(self).screen_size() == old(self).screen_size(),
    {
        let mut to_delete: Vec<TextureId> = Vec::new();
        std::mem::swap(&mut to_delete, &mut self.textures_to_delete);
        let ghost start = self.textures();
        let ghost ids = to_delete@;
        let mut handles: Vec<u32> = Vec::new();
        let mut i: usize = 0;
        while i < to_delete.len()
            invariant
                i <= to_delete.len(),
                to_delete@ == ids,
                start.dom().finite(),
                forall|k: int|
                    0 <= k < ids.len() ==> (#[trigger] ids[k] matches TextureId::Managed(key)
                        && start.dom().contains(key)),
                forall|k: int, l: int|
                    0 <= k < l < ids.len() ==> #[trigger] ids[k] != #[trigger] ids[l],
                self.textures() == start.remove_keys(deleted_keys(ids.take(i as int))),
                self.textures().dom().finite(),
                self.textures_to_delete@ == Seq::<TextureId>::empty(),
                self.screen_size() == old(self).screen_size(),
                handles@.len() == i,
                forall|k: int|
                    0 <= k < i ==> (ids[k] matches TextureId::Managed(key) && #[trigger] handles@[k]
                        == start[key].handle),
            decreases to_delete.len() - i,
        {
            let tid = to_delete[i];
            proof {
                assert(ids[i as int] == tid);
            }
            match tid {
                TextureId::Managed(key) => {
                    proof {
                        assert(!deleted_keys(ids.take(i as int)).contains(key)) by {
                            if deleted_keys(ids.take(i as int)).contains(key) {
                                let k = choose|k: int|
                                    0 <= k < ids.take(i as int).len() && #[trigger] ids.take(
                                        i as int,
                                    )[k] == TextureId::Managed(key);
                                assert(ids[k] == ids.take(i as int)[k]);
                                assert(ids[k] != ids[i as int]);
                            }
                        }
                        assert(self.textures().dom().contains(key));
                    }
                    let removed = texture_map_remove(&mut self.managed_textures, key);
                    match removed {
                        Some(t) => {
                            handles.push(t.handle);
                        },
                        None => {},
                    }
                    proof {
                        let before = deleted_keys(ids.take(i as int));
                        let after = deleted_keys(ids.take(i + 1));
                        assert(after =~= before.insert(key)) by {
                            assert(ids.take(i + 1)[i as int] == TextureId::Managed(key));
                            assert forall|x: u64| #[trigger] after.contains(x) implies before.insert(
                                key,
                            ).contains(x) by {
                                let k = choose|k: int|
                                    0 <= k < ids.take(i + 1).len() && #[trigger] ids.take(i + 1)[k]
                                        == TextureId::Managed(x);
                                if k < i {
                                    assert(ids.take(i as int)[k] == ids.take(i + 1)[k]);
                                }
                            }
                            assert forall|x: u64| #[trigger] before.contains(x) implies after.contains(
                                x,
                            ) by {
                                let k = choose|k: int|
                                    0 <= k < ids.take(i as int).len() && #[trigger] ids.take(
                                        i as int,
                                    )[k] == TextureId::Managed(x);
                                assert(ids.take(i + 1)[k] == ids.take(i as int)[k]);
                            }
                        }
                        assert(self.textures() =~= start.remove_keys(after));
                    }
                },
                TextureId::User(_) => {
                    proof {
                        assert(ids[i as int] matches TextureId::Managed(_));
                    }
                },
            }
            i = i + 1;
        }
        proof {
            assert(ids.take(to_delete.len() as int) == ids);
        }
        handles
    }

    /// Takes out every texture, for the painter's destruction; their opengl names are
    /// returned, one for each texture, in no particular order.
    pub fn take_all_textures(&mut self) -> (handles: Vec<u32>)
        requires
            old(self).wf(),
        ensures
            final(self).wf(),
            final(self).textures() == Map::<u64, GpuTexture>::empty(),
            handles@.len() == old(self).textures().len(),
            forall|i: int|
                0 <= i < handles@.len() ==> holds_handle(old(self).textures(), #[trigger] handles@[i]),
            each_texture_once(old(self).textures(), handles@),
            final(self).pending_deletes() == old(self).pending_deletes(),
            final(self).screen_size() == old(self).screen_size(),
    {
        let ghost before = self.textures();
        let entries = texture_map_drain(&mut self.managed_textures);
        proof {
            assert(before == old(self).textures());
        }
        let mut handles: Vec<u32> = Vec::new();
        let mut i: usize = 0;
        while i < entries.len()
            invariant
                i <= entries.len(),
                handles@.len() == i,
                forall|k: int|
                    0 <= k < i ==> #[trigger] handles@[k] == entries@[k].1.handle,
            decreases entries.len() - i,
        {
            handles.push(entries[i].1.handle);
            i = i + 1;
        }
        proof {
            assert forall|k: int| 0 <= k < handles@.len() implies holds_handle(
                before,
                #[trigger] handles@[k],
            ) by {
                let key = entries@[k].0;
                assert(before.dom().contains(key));
                assert(before[key] == entries@[k].1);
            }
            let keys = entries@.map_values(|e: (u64, GpuTexture)| e.0);
            assert(keys.no_duplicates()) by {
                assert forall|a: int, b: int| 0 <= a < keys.len() && 0 <= b < keys.len() && a != b
                    implies keys[a] != keys[b] by {
                    if a < b {
                        assert(entries@[a].0 != entries@[b].0);
                    } else {
                        assert(entries@[b].0 != entries@[a].0);
                    }
                }
            }
            assert(keys.to_set() =~= before.dom()) by {
                assert forall|x: u64| keys.to_set().contains(x) implies before.dom().contains(x) by {
                    let i = choose|i: int| 0 <= i < keys.len() && keys[i] == x;
                    assert(before.dom().contains(entries@[i].0));
                }
                assert forall|x: u64| before.dom().contains(x) implies keys.to_set().contains(x) by {
                    let i = choose|i: int| 0 <= i < entries@.len() && entries@[i].0 == x;
                    assert(keys[i] == x);
                    assert(keys.contains(x));
                }
            }
            assert forall|k: int| 0 <= k < keys.len() implies #[trigger] handles@[k] == before[keys[k]].handle by {
                assert(before.dom().contains(entries@[k].0));
            }
        }
        handles
    }
}

/// A newly created texture: no size yet, and the font sampler for egui's font texture (key
/// zero), the sampler for its minification filter otherwise.
pub open spec fn new_gpu_texture(key: u64, handle: u32, minification: TextureFilter) -> GpuTexture {
    GpuTexture {
        handle,
        width: 0,
        height: 0,
        sampler: if key == 0 {
            SamplerKind::Font
        } else if minification == TextureFilter::Nearest {
            SamplerKind::Nearest
        } else {
            SamplerKind::Linear
        },
    }
}

/// The textures after one texture delta of egui: the texture is created with the opengl
/// name `created` when the painter did not hold it, and a whole image (`whole_size`) sets
/// its size.
pub open spec fn after_upload(
    textures: Map<u64, GpuTexture>,
    key: u64,
    created: Option<u32>,
    minification: TextureFilter,
    whole_size: Option<[usize; 2]>,
) -> Map<u64, GpuTexture> {
    let with_texture = match created {
        Some(h) => textures.insert(key, new_gpu_texture(key, h, minification)),
        None => textures,
    };
    match whole_size {
        Some(size) => with_texture.insert(
            key,
            GpuTexture { width: size[0] as u32, height: size[1] as u32, ..with_texture[key] },
        ),
        None => with_texture,
    }
}

/// Whether one of the textures has the opengl name `handle`.
pub open spec fn holds_handle(textures: Map<u64, GpuTexture>, handle: u32) -> bool {
    exists|key: u64| textures.dom().contains(key) && #[trigger] textures[key].handle == handle
}

/// Whether `handles` are the opengl names of `textures`, one for each texture, in some
/// order: there is an order of the textures' keys, each key once, whose textures have these
/// names.
pub open spec fn each_texture_once(textures: Map<u64, GpuTexture>, handles: Seq<u32>) -> bool {
    exists|keys: Seq<u64>|
        {
            &&& keys.len() == handles.len()
            &&& keys.no_duplicates()
            &&& keys.to_set() == textures.dom()
            &&& forall|i: int| 0 <= i < keys.len() ==> #[trigger] handles[i] == textures[keys[i]].handle
        }
}

/// The keys of the managed textures among `ids`.
pub open spec fn deleted_keys(ids: Seq<TextureId>) -> Set<u64> {
    Set::new(|k: u64| exists|i: int| 0 <= i < ids.len() && #[trigger] ids[i] == TextureId::Managed(k))
}

proof fn lemma_len_after_insert(textures: Map<u64, GpuTexture>, key: u64, created: Option<u32>, minification: TextureFilter)
    requires
        textures.dom().finite(),
        (created is Some) == !textures.dom().contains(key),
    ensures
        ({
            let t = match created {
                Some(h) => textures.insert(key, new_gpu_texture(key, h, minification)),
                None => textures,
            };
            t.dom().finite() && t.len() <= textures.len() + 1 && t.dom().contains(key)
        }),
{
}

// ---------------------------------------------------------------------------------------
// Laws

/// A texture lives from its upload until egui frees it: once set under a key, it is found
/// there with its opengl name and sampler; a frame's deletion removes exactly the textures
/// that egui freed in that frame, and every other texture stays as it was.
pub proof fn lemma_texture_lifetime(
    textures: Map<u64, GpuTexture>,
    key: u64,
    texture: GpuTexture,
    freed: Seq<TextureId>,
    other: u64,
)
    ensures
        textures.insert(key, texture).dom().contains(key),
        textures.insert(key, texture)[key] == texture,
        deleted_keys(freed).contains(key) ==> !textures.insert(key, texture).remove_keys(
            deleted_keys(freed),
        ).dom().contains(key),
        textures.dom().contains(other) && !deleted_keys(freed).contains(other) ==> {
            &&& textures.remove_keys(deleted_keys(freed)).dom().contains(other)
            &&& textures.remove_keys(deleted_keys(freed))[other] == textures[other]
        },
        (exists|i: int| 0 <= i < freed.len() && #[trigger] freed[i] == TextureId::Managed(key))
            <==> deleted_keys(freed).contains(key),
{
}

/// A texture delta's upload keeps the texture under its key: a texture that the painter
/// did not hold gets the new opengl name and samples with the font sampler when it is
/// egui's font texture (key zero), the nearest or linear sampler for a nearest or linear
/// minification filter otherwise; a texture that it held keeps its name and sampler; a
/// whole image gives the texture the image's size, a patch keeps the size; no other
/// texture changes.
pub proof fn lemma_upload_keeps_texture(
    textures: Map<u64, GpuTexture>,
    key: u64,
    created: Option<u32>,
    minification: TextureFilter,
    whole_size: Option<[usize; 2]>,
    other: u64,
)
    requires
        (created is Some) == !textures.dom().contains(key),
    ensures
        ({
            let after = after_upload(textures, key, created, minification, whole_size);
            &&& after.dom().contains(key)
            &&& created matches Some(h) ==> {
                &&& after[key].handle == h
                &&& key == 0 ==> after[key].sampler == SamplerKind::Font
                &&& key != 0 && minification == TextureFilter::Nearest ==> after[key].sampler
                    == SamplerKind::Nearest
                &&& key != 0 && minification == TextureFilter::Linear ==> after[key].sampler
                    == SamplerKind::Linear
            }
            &&& created is None ==> after[key].handle == textures[key].handle && after[key].sampler
                == textures[key].sampler
            &&& whole_size matches Some(size) ==> after[key].width == size[0] as u32
                && after[key].height == size[1] as u32
            &&& whole_size is None && created is None ==> after[key] == textures[key]
            &&& whole_size is None && created is Some ==> after[key].width == 0 && after[key].height == 0
            &&& other != key ==> (after.dom().contains(other) == textures.dom().contains(other))
                && (textures.dom().contains(other) ==> after[other] == textures[other])
        }),
{
}

} // verus!
