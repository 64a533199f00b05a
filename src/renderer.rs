//! The renderer's state: the current resolution, the generation of
//! per-resolution resources made for it, the pipeline cache and the scene.
//! Its methods decide what the GPU is asked to do; the caller carries out
//! each returned plan on the device.
use vstd::prelude::*;
use crate::frame::{FramePlan, frame_plan};
use crate::layout::{
    Material, Sphere, HIT_RECORD_SIZE, RAY_SIZE, encode_materials, encode_spheres,
    material_ids_valid, materials_words, spheres_words,
};
use crate::pipeline::{PassKind, PipelineCache};
use crate::platform::copy_bytes_per_row_alignment;

verus! {

/// Size in bytes of one texel of the output image.
pub const TEXEL_SIZE: u64 = 4;

/// One generation of the per-resolution resources: the ray buffer, the
/// hit-record buffer, the output image and the dimension uniform, all made
/// for `width` by `height` pixels. A new generation replaces the whole set;
/// no buffer of it is ever resized.
#[derive(Clone, Copy, Debug, PartialEq, Eq, Structural)]
pub struct ResourceSet {
    pub generation: u64,
    pub width: u32,
    pub height: u32,
    /// One ray per pixel.
    pub ray_bytes: u64,
    /// One hit record per pixel.
    pub hit_bytes: u64,
    /// One texel per pixel.
    pub image_bytes: u64,
}

impl ResourceSet {
    /// The resource set of `generation` for `width` by `height` pixels.
    pub open spec fn spec_for(generation: u64, width: u32, height: u32) -> ResourceSet {
        let n = width as int * height as int;
        ResourceSet {
            generation,
            width,
            height,
            ray_bytes: (n * RAY_SIZE) as u64,
            hit_bytes: (n * HIT_RECORD_SIZE) as u64,
            image_bytes: (n * TEXEL_SIZE) as u64,
        }
    }

    pub fn for_resolution(generation: u64, width: u32, height: u32) -> (r: ResourceSet)
        requires
            width as int * height as int <= u32::MAX,
        ensures
            r == ResourceSet::spec_for(generation, width, height),
            r.ray_bytes == width as int * height as int * RAY_SIZE,
            r.hit_bytes == width as int * height as int * HIT_RECORD_SIZE,
            r.image_bytes == width as int * height as int * TEXEL_SIZE,
    {
        let n = width as u64 * height as u64;
        ResourceSet {
            generation,
            width,
            height,
            ray_bytes: n * RAY_SIZE,
            hit_bytes: n * HIT_RECORD_SIZE,
            image_bytes: n * TEXEL_SIZE,
        }
    }
}

/// The scene that has been uploaded: how many spheres and materials.
#[derive(Clone, Copy, Debug, PartialEq, Eq, Structural)]
pub struct SceneSet {
    pub spheres: usize,
    pub materials: usize,
}

/// What the renderer holds, as seen by contracts.
pub struct RendererView {
    pub width: u32,
    pub height: u32,
    /// Generation of the latest resource set; 0 before the first.
    pub generation: u64,
    pub resources: Option<ResourceSet>,
    pub pipelines: PipelineCache,
    pub scene: Option<SceneSet>,
}

impl RendererView {
    /// At every instant at most one resource set exists, and it is complete
    /// and made for the current resolution.
    pub open spec fn wf(self) -> bool {
        &&& self.width as int * self.height as int <= u32::MAX
        &&& match self.resources {
            Some(set) => {
                &&& set == ResourceSet::spec_for(self.generation, self.width, self.height)
                &&& self.width > 0
                &&& self.height > 0
                &&& self.generation > 0
                &&& self.pipelines.is_full()
            },
            None => self.generation == 0,
        }
    }

    /// Whether a frame can be recorded: resources, pipelines and scene exist.
    pub open spec fn is_ready(self) -> bool {
        &&& self.resources is Some
        &&& self.pipelines.is_full()
        &&& self.scene is Some
    }

    /// The state after a resize to `width` by `height`. A size with a zero
    /// side is refused and changes nothing; any other makes a new generation
    /// of resources for it and completes the pipeline cache.
    pub open spec fn after_resize(self, width: u32, height: u32) -> RendererView {
        if width == 0 || height == 0 {
            self
        } else {
            let generation = (self.generation + 1) as u64;
            RendererView {
                width,
                height,
                generation,
                resources: Some(ResourceSet::spec_for(generation, width, height)),
                pipelines: PipelineCache { ray: true, intersect: true, shade: true },
                scene: self.scene,
            }
        }
    }
}

/// What the caller does on an accepted resize: configure the surface,
/// update and upload the camera, destroy the resources of the `retired`
/// generation, make `resources` with `dim_words` in the dimension uniform,
/// and create the pipelines in `build`.
pub struct ResizePlan {
    pub resources: ResourceSet,
    pub retired: Option<u64>,
    pub dim_words: Vec<u32>,
    pub build: Vec<PassKind>,
}

/// What the caller uploads when the scene is built: the sphere buffer, the
/// material buffer and the seed uniform, as words.
pub struct SceneUpload {
    pub sphere_words: Vec<u32>,
    pub material_words: Vec<u32>,
    pub seed_words: Vec<u32>,
}

/// Bytes per row of an image row of `bytes` bytes, padded up to `alignment`.
pub open spec fn spec_padded_row(bytes: int, alignment: int) -> int {
    bytes + ((alignment - bytes % alignment) % alignment)
}

pub struct Renderer {
    width: u32,
    height: u32,
    generation: u64,
    resources: Option<ResourceSet>,
    pipelines: PipelineCache,
    scene: Option<SceneSet>,
}

impl View for Renderer {
    type V = RendererView;

    closed spec fn view(&self) -> RendererView {
        RendererView {
            width: self.width,
            height: self.height,
            generation: self.generation,
            resources: self.resources,
            pipelines: self.pipelines,
            scene: self.scene,
        }
    }
}

impl Renderer {
    /// A renderer for a surface of `width` by `height` pixels, with no
    /// resources, pipelines or scene yet.
    pub fn new(width: u32, height: u32) -> (r: Renderer)
        requires
            width as int * height as int <= u32::MAX,
        ensures
            r@ == (RendererView {
                width,
                height,
                generation: 0,
                resources: None,
                pipelines: PipelineCache { ray: false, intersect: false, shade: false },
                scene: None,
            }),
            r@.wf(),
    {
        Renderer {
            width,
            height,
            generation: 0,
            resources: None,
            pipelines: PipelineCache::empty(),
            scene: None,
        }
    }

    pub fn width(&self) -> (r: u32)
        ensures
            r == self@.width,
    {
        self.width
    }

    pub fn height(&self) -> (r: u32)
        ensures
            r == self@.height,
    {
        self.height
    }

    pub fn generation(&self) -> (r: u64)
        ensures
            r == self@.generation,
    {
        self.generation
    }

    pub fn resources(&self) -> (r: Option<ResourceSet>)
        ensures
            r == self@.resources,
    {
        self.resources
    }

    /// Number of primary rays of a frame: one per pixel.
    pub fn num_rays(&self) -> (r: u32)
        requires
            self@.wf(),
        ensures
            r == self@.width * self@.height,
    {
        self.width * self.height
    }

    /// Bytes per row of the output image in a buffer copy: four bytes per
    /// texel, padded up to wgpu's row alignment.
    pub fn img_bytes_per_row(width: u32) -> (r: u32)
        requires
            4 * width + 255 <= u32::MAX,
        ensures
            r == spec_padded_row(4 * width, 256),
            r % 256 == 0,
            4 * width <= r < 4 * width + 256,
    {
        let bytes_per_row = 4 * width;
        let alignment = copy_bytes_per_row_alignment();
        let pad = (alignment - bytes_per_row % alignment) % alignment;
        bytes_per_row + pad
    }

    /// Whether resources, pipelines and scene all exist.
    pub fn is_ready(&self) -> (r: bool)
        ensures
            r == self@.is_ready(),
    {
        self.resources.is_some() && self.pipelines.is_complete() && self.scene.is_some()
    }

    /// Handles a resize of the surface. A size with a zero side is refused:
    /// nothing changes and no plan is returned. Otherwise the previous
    /// resource set is retired whole and one for the new size replaces it.
    pub fn on_resize(&mut self, width: u32, height: u32) -> (r: Option<ResizePlan>)
        requires
            old(self)@.wf(),
            width as int * height as int <= u32::MAX,
            width > 0 && height > 0 ==> old(self)@.generation < u64::MAX,
        ensures
            final(self)@ == old(self)@.after_resize(width, height),
            final(self)@.wf(),
            r is None <==> (width == 0 || height == 0),
            r matches Some(p) ==> {
                &&& p.resources == ResourceSet::spec_for(final(self)@.generation, width, height)
                &&& p.retired == match old(self)@.resources {
                    Some(set) => Some(set.generation),
                    None => None::<u64>,
                }
                &&& p.dim_words@ == seq![width, height]
                &&& p.build@ == old(self)@.pipelines.spec_missing()
            },
    {
        if width == 0 || height == 0 {
            return None;
        }
        let retired = match self.resources {
            Some(set) => Some(set.generation),
            None => None,
        };
        self.width = width;
        self.height = height;
        self.generation = self.generation + 1;
        let resources = ResourceSet::for_resolution(self.generation, width, height);
        self.resources = Some(resources);
        let build = self.pipelines.fill();
        let dim_words = vec![width, height];
        Some(ResizePlan { resources, retired, dim_words, build })
    }

    /// Builds the scene: the sphere list and material table are encoded for
    /// upload as immutable storage buffers, with `seed` in the seed uniform.
    /// Every sphere's material id must index the material table.
    pub fn make_world(&mut self, spheres: &Vec<Sphere>, materials: &Vec<Material>, seed: u32) -> (r:
        SceneUpload)
        requires
            old(self)@.wf(),
            material_ids_valid(spheres@, materials@),
        ensures
            r.sphere_words@ == spheres_words(spheres@),
            r.material_words@ == materials_words(materials@),
            r.seed_words@ == seq![seed],
            final(self)@ == (RendererView {
                scene: Some(SceneSet { spheres: spheres@.len() as usize, materials: materials@.len() as usize }),
                ..old(self)@
            }),
            final(self)@.wf(),
    {
        let sphere_words = encode_spheres(spheres);
        let material_words = encode_materials(materials);
        self.scene = Some(SceneSet { spheres: spheres.len(), materials: materials.len() });
        SceneUpload { sphere_words, material_words, seed_words: vec![seed] }
    }

    /// The commands of the next frame, on the current resource set.
    pub fn render(&self) -> (r: FramePlan)
        requires
            self@.wf(),
            self@.is_ready(),
        ensures
            r.is_frame(self@.generation, self@.width, self@.height),
    {
        frame_plan(self.generation, self.width, self.height)
    }
}

/// A resize with a zero side leaves the renderer as it was: the same
/// resource set, of the same generation and size, stays in use.
pub proof fn lemma_zero_resize_is_noop(v: RendererView, width: u32, height: u32)
    requires
        width == 0 || height == 0,
    ensures
        v.after_resize(width, height) == v,
        v.after_resize(width, height).resources == v.resources,
{
}

/// An accepted resize replaces the resource set whole: the new set belongs
/// to a generation newer than any before it and is made for the new size,
/// and exactly one consistent set exists afterwards.
pub proof fn lemma_resize_replaces_set(v: RendererView, width: u32, height: u32)
    requires
        v.wf(),
        width > 0,
        height > 0,
        width as int * height as int <= u32::MAX,
        v.generation < u64::MAX,
    ensures
        v.after_resize(width, height).wf(),
        v.after_resize(width, height).generation > v.generation,
        v.after_resize(width, height).resources == Some(
            ResourceSet::spec_for(v.after_resize(width, height).generation, width, height),
        ),
        v.resources matches Some(old_set) ==> old_set.generation < v.after_resize(
            width,
            height,
        ).generation,
{
}

} // verus!
