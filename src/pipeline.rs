//! The three compute pipelines, the layouts they are created with, and the
//! cache that creates each of them once.
use vstd::prelude::*;
use crate::binding::{
    BindingKind, LayoutEntry, Resource, buf_bind_group_lay, img_texture_bind_group_lay,
    material_n_seed_group_lay, sphere_n_dim_group_lay, uniform_bind_group_lay,
    CAMERA_UNIFORM_BIND, DIM_UNIFORM_BIND, HIT_REC_BUF_BIND, IMG_TEX_BIND, MAT_BUF_BIND,
    RAYS_BUF_BIND, SEED_UNIFORM_BIND, SPHERE_BUF_BIND,
};

verus! {

/// The three compute passes of a frame, and their pipelines.
#[derive(Clone, Copy, Debug, PartialEq, Eq, Structural)]
pub enum PassKind {
    /// Writes one primary ray per pixel from the camera.
    RayGen,
    /// Tests each pixel's ray against every sphere and keeps the closest hit.
    Intersect,
    /// Turns each pixel's hit record into a colour in the output image.
    Shade,
}

/// The passes of a frame, in recording order.
pub open spec fn frame_passes() -> Seq<PassKind> {
    seq![PassKind::RayGen, PassKind::Intersect, PassKind::Shade]
}

/// Whether the kernel of pass `k` writes resource `r`.
pub open spec fn pass_writes(k: PassKind, r: Resource) -> bool {
    match k {
        PassKind::RayGen => r is Rays,
        PassKind::Intersect => r is HitRecords,
        PassKind::Shade => r is Image,
    }
}

/// Whether the kernel of pass `k` reads resource `r`.
pub open spec fn pass_reads(k: PassKind, r: Resource) -> bool {
    match k {
        PassKind::RayGen => r is CameraUniform,
        PassKind::Intersect => r is Rays || r is Spheres || r is DimUniform,
        PassKind::Shade => r is HitRecords || r is Spheres || r is DimUniform || r is Materials
            || r is SeedUniform,
    }
}

pub open spec fn uniform_at(binding: u32) -> LayoutEntry {
    LayoutEntry { binding, kind: BindingKind::Uniform }
}

pub open spec fn storage_at(binding: u32, read_only: bool) -> LayoutEntry {
    LayoutEntry { binding, kind: BindingKind::Storage { read_only } }
}

/// The bind-group layouts of each pipeline, in group order.
pub open spec fn spec_pipeline_layout(k: PassKind) -> Seq<Seq<LayoutEntry>> {
    match k {
        PassKind::RayGen => seq![
            seq![uniform_at(CAMERA_UNIFORM_BIND)],
            seq![storage_at(RAYS_BUF_BIND, false)],
        ],
        PassKind::Intersect => seq![
            seq![storage_at(RAYS_BUF_BIND, true)],
            seq![storage_at(HIT_REC_BUF_BIND, false)],
            seq![storage_at(SPHERE_BUF_BIND, true)],
            seq![uniform_at(DIM_UNIFORM_BIND)],
        ],
        PassKind::Shade => seq![
            seq![storage_at(HIT_REC_BUF_BIND, true)],
            seq![storage_at(SPHERE_BUF_BIND, true), uniform_at(DIM_UNIFORM_BIND)],
            seq![LayoutEntry { binding: IMG_TEX_BIND, kind: BindingKind::WriteOnlyImage }],
            seq![storage_at(MAT_BUF_BIND, true), uniform_at(SEED_UNIFORM_BIND)],
        ],
    }
}

/// The views of a list of layouts.
pub open spec fn layout_views(groups: Seq<Vec<LayoutEntry>>) -> Seq<Seq<LayoutEntry>> {
    groups.map_values(|g: Vec<LayoutEntry>| g@)
}

/// The bind-group layouts that pipeline `k` is created with.
pub fn pipeline_layout(k: PassKind) -> (r: Vec<Vec<LayoutEntry>>)
    ensures
        layout_views(r@) == spec_pipeline_layout(k),
{
    let r = match k {
        PassKind::RayGen => vec![
            uniform_bind_group_lay(CAMERA_UNIFORM_BIND),
            buf_bind_group_lay(RAYS_BUF_BIND, false),
        ],
        PassKind::Intersect => vec![
            buf_bind_group_lay(RAYS_BUF_BIND, true),
            buf_bind_group_lay(HIT_REC_BUF_BIND, false),
            buf_bind_group_lay(SPHERE_BUF_BIND, true),
            uniform_bind_group_lay(DIM_UNIFORM_BIND),
        ],
        PassKind::Shade => vec![
            buf_bind_group_lay(HIT_REC_BUF_BIND, true),
            sphere_n_dim_group_lay(SPHERE_BUF_BIND, DIM_UNIFORM_BIND, true),
            img_texture_bind_group_lay(IMG_TEX_BIND),
            material_n_seed_group_lay(MAT_BUF_BIND, SEED_UNIFORM_BIND, true),
        ],
    };
    assert(layout_views(r@) =~= spec_pipeline_layout(k));
    r
}

/// Which of the three pipelines exist. A pipeline depends on its bind-group
/// layouts only, never on the resolution, so once created it is kept for the
/// renderer's lifetime.
#[derive(Clone, Copy, Debug, PartialEq, Eq, Structural)]
pub struct PipelineCache {
    pub ray: bool,
    pub intersect: bool,
    pub shade: bool,
}

impl PipelineCache {
    pub open spec fn has(self, k: PassKind) -> bool {
        match k {
            PassKind::RayGen => self.ray,
            PassKind::Intersect => self.intersect,
            PassKind::Shade => self.shade,
        }
    }

    /// Whether all three pipelines exist.
    pub open spec fn is_full(self) -> bool {
        self.ray && self.intersect && self.shade
    }

    /// The pipelines still to be created, in pass order.
    pub open spec fn spec_missing(self) -> Seq<PassKind> {
        (if self.ray { Seq::empty() } else { seq![PassKind::RayGen] }) + (if self.intersect {
            Seq::empty()
        } else {
            seq![PassKind::Intersect]
        }) + (if self.shade { Seq::empty() } else { seq![PassKind::Shade] })
    }

    /// A cache with no pipeline in it.
    pub fn empty() -> (r: PipelineCache)
        ensures
            r == (PipelineCache { ray: false, intersect: false, shade: false }),
    {
        PipelineCache { ray: false, intersect: false, shade: false }
    }

    pub fn is_complete(&self) -> (r: bool)
        ensures
            r == self.is_full(),
    {
        self.ray && self.intersect && self.shade
    }

    /// Marks every missing pipeline as created and returns those, in pass
    /// order: the caller creates each of them once.
    pub fn fill(&mut self) -> (r: Vec<PassKind>)
        ensures
            r@ == old(self).spec_missing(),
            final(self).is_full(),
    {
        let mut r: Vec<PassKind> = Vec::new();
        if !self.ray {
            r.push(PassKind::RayGen);
        }
        if !self.intersect {
            r.push(PassKind::Intersect);
        }
        if !self.shade {
            r.push(PassKind::Shade);
        }
        self.ray = true;
        self.intersect = true;
        self.shade = true;
        r
    }
}

/// A pipeline is created only where it is missing: filling a full cache
/// creates nothing, and filling any cache twice creates nothing the second time.
pub proof fn lemma_pipelines_created_once(c: PipelineCache)
    ensures
        c.is_full() ==> c.spec_missing().len() == 0,
        forall|k: PassKind| #[trigger] c.spec_missing().contains(k) <==> !c.has(k),
        c.spec_missing().no_duplicates(),
{
    assert forall|k: PassKind| #[trigger] c.spec_missing().contains(k) <==> !c.has(k) by {
        if !c.has(k) {
            let s = c.spec_missing();
            match k {
                PassKind::RayGen => assert(s[0] == k),
                PassKind::Intersect => {
                    if c.ray {
                        assert(s[0] == k);
                    } else {
                        assert(s[1] == k);
                    }
                },
                PassKind::Shade => assert(s[s.len() - 1] == k),
            }
        }
    }
}

} // verus!
