//! The commands of one frame: three compute passes recorded in order, each
//! with its pipeline, its bind groups and its dispatch grid, then a copy of
//! the output image into the surface image.
use vstd::prelude::*;
use crate::binding::{
    BindingKind, GroupEntry, LayoutEntry, Resource, bind_group_from, img_texture_bind_group,
    material_n_seed_bind_group, sphere_n_dim_bind_group, CAMERA_UNIFORM_BIND, DIM_UNIFORM_BIND,
    HIT_REC_BUF_BIND, IMG_TEX_BIND, MAT_BUF_BIND, RAYS_BUF_BIND, SEED_UNIFORM_BIND,
    SPHERE_BUF_BIND,
};
use crate::pipeline::{PassKind, frame_passes, pass_reads, pass_writes, spec_pipeline_layout};

verus! {

/// Side of the square tile of pixels that one work-group covers.
pub const WORKGROUP_SIZE: u32 = 8;

/// Number of work-groups that cover `n` pixels: `n / 8` rounded up.
pub open spec fn spec_workgroups(n: u32) -> u32 {
    ((n + WORKGROUP_SIZE - 1) / WORKGROUP_SIZE as int) as u32
}

/// Number of work-groups that cover `n` pixels along one axis.
pub fn workgroup_count(n: u32) -> (r: u32)
    ensures
        r == spec_workgroups(n),
        r * WORKGROUP_SIZE >= n,
        r * WORKGROUP_SIZE < n + WORKGROUP_SIZE,
{
    let q = n / WORKGROUP_SIZE;
    if n % WORKGROUP_SIZE == 0 {
        q
    } else {
        q + 1
    }
}

/// A resource bound to a pass: the bind group it belongs to, and the entry.
#[derive(Clone, Copy, Debug, PartialEq, Eq, Structural)]
pub struct Binding {
    pub group: u32,
    pub entry: GroupEntry,
}

pub open spec fn bound(group: u32, resource: Resource) -> Binding {
    Binding { group, entry: GroupEntry { binding: resource.spec_slot(), resource } }
}

/// What each pass binds, group by group, in the order it is bound.
pub open spec fn spec_pass_bindings(k: PassKind) -> Seq<Binding> {
    match k {
        PassKind::RayGen => seq![bound(0, Resource::CameraUniform), bound(1, Resource::Rays)],
        PassKind::Intersect => seq![
            bound(0, Resource::Rays),
            bound(1, Resource::HitRecords),
            bound(2, Resource::Spheres),
            bound(3, Resource::DimUniform),
        ],
        PassKind::Shade => seq![
            bound(0, Resource::HitRecords),
            bound(1, Resource::Spheres),
            bound(1, Resource::DimUniform),
            bound(3, Resource::Materials),
            bound(3, Resource::SeedUniform),
            bound(2, Resource::Image),
        ],
    }
}

/// One compute pass: its pipeline, what it binds, and the work-groups it
/// dispatches in x, y and z.
pub struct PassPlan {
    pub kind: PassKind,
    pub bindings: Vec<Binding>,
    pub workgroups: (u32, u32, u32),
}

/// The commands of one frame, against the resource set of `generation`.
/// After the passes, the output image is copied whole, `copy_width` by
/// `copy_height` texels, into the surface image, and the batch is submitted.
pub struct FramePlan {
    pub generation: u64,
    pub passes: Vec<PassPlan>,
    pub copy_width: u32,
    pub copy_height: u32,
}

impl FramePlan {
    /// The plan of a frame at `width` by `height` pixels on the resource set
    /// of `generation`.
    pub open spec fn is_frame(&self, generation: u64, width: u32, height: u32) -> bool {
        &&& self.generation == generation
        &&& self.copy_width == width
        &&& self.copy_height == height
        &&& self.passes@.len() == frame_passes().len()
        &&& forall|i: int|
            0 <= i < self.passes@.len() ==> {
                let p = #[trigger] self.passes@[i];
                &&& p.kind == frame_passes()[i]
                &&& p.bindings@ == spec_pass_bindings(p.kind)
                &&& p.workgroups == (spec_workgroups(width), spec_workgroups(height), 1u32)
            }
    }
}

/// Two plans of a frame on the same resource set and size record the same
/// commands: a frame's commands depend on nothing else.
pub proof fn lemma_frame_plan_determined(
    a: FramePlan,
    b: FramePlan,
    generation: u64,
    width: u32,
    height: u32,
)
    requires
        a.is_frame(generation, width, height),
        b.is_frame(generation, width, height),
    ensures
        a.generation == b.generation,
        a.copy_width == b.copy_width,
        a.copy_height == b.copy_height,
        a.passes@.len() == b.passes@.len(),
        forall|i: int|
            0 <= i < a.passes@.len() ==> (#[trigger] a.passes@[i]).kind == b.passes@[i].kind
                && a.passes@[i].bindings@ == b.passes@[i].bindings@ && a.passes@[i].workgroups
                == b.passes@[i].workgroups,
{
    assert forall|i: int| 0 <= i < a.passes@.len() implies (#[trigger] a.passes@[i]).kind
        == b.passes@[i].kind && a.passes@[i].bindings@ == b.passes@[i].bindings@
        && a.passes@[i].workgroups == b.passes@[i].workgroups by {
        assert(b.passes@[i] == b.passes@[i]);
    }
}

/// Appends the entries of one bind group, tagged with its index.
fn push_group(out: &mut Vec<Binding>, group: u32, entries: Vec<GroupEntry>)
    ensures
        final(out)@ == old(out)@ + entries@.map_values(|e: GroupEntry| Binding { group, entry: e }),
{
    let ghost start = out@;
    let mut i: usize = 0;
    while i < entries.len()
        invariant
            i <= entries.len(),
            out@ == start + entries@.subrange(0, i as int).map_values(
                |e: GroupEntry| Binding { group, entry: e },
            ),
        decreases entries.len() - i,
    {
        out.push(Binding { group, entry: entries[i] });
        i = i + 1;
        assert(entries@.subrange(0, i as int).map_values(|e: GroupEntry| Binding { group, entry: e })
            =~= entries@.subrange(0, i - 1).map_values(|e: GroupEntry| Binding { group, entry: e })
            .push(Binding { group, entry: entries@[i - 1] }));
    }
    assert(entries@.subrange(0, i as int) =~= entries@);
}

/// What pass `k` binds.
pub fn pass_bindings(k: PassKind) -> (r: Vec<Binding>)
    ensures
        r@ == spec_pass_bindings(k),
{
    let mut r: Vec<Binding> = Vec::new();
    match k {
        PassKind::RayGen => {
            push_group(&mut r, 0, bind_group_from(Resource::CameraUniform, CAMERA_UNIFORM_BIND));
            push_group(&mut r, 1, bind_group_from(Resource::Rays, RAYS_BUF_BIND));
        },
        PassKind::Intersect => {
            push_group(&mut r, 0, bind_group_from(Resource::Rays, RAYS_BUF_BIND));
            push_group(&mut r, 1, bind_group_from(Resource::HitRecords, HIT_REC_BUF_BIND));
            push_group(&mut r, 2, bind_group_from(Resource::Spheres, SPHERE_BUF_BIND));
            push_group(&mut r, 3, bind_group_from(Resource::DimUniform, DIM_UNIFORM_BIND));
        },
        PassKind::Shade => {
            push_group(&mut r, 0, bind_group_from(Resource::HitRecords, HIT_REC_BUF_BIND));
            push_group(
                &mut r,
                1,
                sphere_n_dim_bind_group(
                    Resource::Spheres,
                    Resource::DimUniform,
                    SPHERE_BUF_BIND,
                    DIM_UNIFORM_BIND,
                ),
            );
            push_group(
                &mut r,
                3,
                material_n_seed_bind_group(
                    Resource::Materials,
                    Resource::SeedUniform,
                    MAT_BUF_BIND,
                    SEED_UNIFORM_BIND,
                ),
            );
            push_group(&mut r, 2, img_texture_bind_group(Resource::Image, IMG_TEX_BIND));
        },
    }
    assert(r@ =~= spec_pass_bindings(k));
    r
}

/// The plan of a frame at `width` by `height` pixels.
pub fn frame_plan(generation: u64, width: u32, height: u32) -> (r: FramePlan)
    ensures
        r.is_frame(generation, width, height),
{
    let x = workgroup_count(width);
    let y = workgroup_count(height);
    let mut passes: Vec<PassPlan> = Vec::new();
    passes.push(PassPlan { kind: PassKind::RayGen, bindings: pass_bindings(PassKind::RayGen), workgroups: (x, y, 1) });
    passes.push(PassPlan { kind: PassKind::Intersect, bindings: pass_bindings(PassKind::Intersect), workgroups: (x, y, 1) });
    passes.push(PassPlan { kind: PassKind::Shade, bindings: pass_bindings(PassKind::Shade), workgroups: (x, y, 1) });
    FramePlan { generation, passes, copy_width: width, copy_height: height }
}

/// Whether pass `k` binds resource `r`.
pub open spec fn binds(k: PassKind, r: Resource) -> bool {
    exists|i: int|
        0 <= i < spec_pass_bindings(k).len() && (#[trigger] spec_pass_bindings(k)[i]).entry.resource
            == r
}

/// Whether a group layout has an entry at `slot` where `r` can be bound.
pub open spec fn layout_admits(entries: Seq<LayoutEntry>, slot: u32, r: Resource) -> bool {
    exists|j: int|
        0 <= j < entries.len() && (#[trigger] entries[j]).binding == slot && entries[j].kind.admits(
            r,
        )
}

/// Whether a layout entry of this kind grants pass `k` the access it needs
/// to `r`: write access exactly where the pass writes the resource.
pub open spec fn access_fits(kind: BindingKind, k: PassKind, r: Resource) -> bool {
    match kind {
        BindingKind::Storage { read_only } => read_only == !pass_writes(k, r),
        BindingKind::WriteOnlyImage => pass_writes(k, r),
        BindingKind::Uniform => !pass_writes(k, r),
    }
}

/// Whether something is bound at `slot` of bind group `group`.
pub open spec fn binds_slot(bindings: Seq<Binding>, group: u32, slot: u32) -> bool {
    exists|i: int|
        0 <= i < bindings.len() && (#[trigger] bindings[i]).group == group && bindings[i].entry.binding
            == slot
}

/// Each pass binds every resource at the resource's own slot, in a group and
/// at a slot where its pipeline's layout admits that resource, and binds
/// something at every slot of every group of that layout. The layout entry
/// of a bound resource is writable exactly where the pass writes it.
pub proof fn lemma_bindings_match_layouts(k: PassKind)
    ensures
        forall|i: int|
            0 <= i < spec_pass_bindings(k).len() ==> {
                let b = #[trigger] spec_pass_bindings(k)[i];
                &&& b.entry.binding == b.entry.resource.spec_slot()
                &&& b.group < spec_pipeline_layout(k).len()
                &&& layout_admits(
                    spec_pipeline_layout(k)[b.group as int],
                    b.entry.binding,
                    b.entry.resource,
                )
            },
        forall|g: int, j: int|
            0 <= g < spec_pipeline_layout(k).len() && 0 <= j < spec_pipeline_layout(k)[g].len()
                ==> binds_slot(
                spec_pass_bindings(k),
                g as u32,
                (#[trigger] spec_pipeline_layout(k)[g][j]).binding,
            ),
        forall|i: int, j: int|
            0 <= i < spec_pass_bindings(k).len() && 0 <= j < spec_pipeline_layout(
                k,
            )[spec_pass_bindings(k)[i].group as int].len() && spec_pipeline_layout(
                k,
            )[spec_pass_bindings(k)[i].group as int][j].binding == spec_pass_bindings(
                k,
            )[i].entry.binding ==> access_fits(
                #[trigger] spec_pipeline_layout(k)[spec_pass_bindings(k)[i].group as int][j].kind,
                k,
                (#[trigger] spec_pass_bindings(k)[i]).entry.resource,
            ),
{
    let bs = spec_pass_bindings(k);
    let lay = spec_pipeline_layout(k);
    assert forall|i: int| 0 <= i < bs.len() implies {
        let b = #[trigger] bs[i];
        &&& b.entry.binding == b.entry.resource.spec_slot()
        &&& b.group < lay.len()
        &&& layout_admits(lay[b.group as int], b.entry.binding, b.entry.resource)
    } by {
        let g = lay[bs[i].group as int];
        if g.len() > 1 && g[1].binding == bs[i].entry.binding {
            assert(g[1].binding == bs[i].entry.binding);
        } else {
            assert(g[0].binding == bs[i].entry.binding);
        }
    }
    assert forall|g: int, j: int|
        0 <= g < lay.len() && 0 <= j < lay[g].len() implies binds_slot(
        bs,
        g as u32,
        (#[trigger] lay[g][j]).binding,
    ) by {
        // The witness: the binding that stands for entry `j` of group `g`.
        match k {
            PassKind::Shade => {
                let at: int = if g == 0 {
                    0
                } else if g == 1 {
                    1 + j
                } else if g == 2 {
                    5
                } else {
                    3 + j
                };
                assert(bs[at].group == g);
            },
            _ => assert(bs[g].group == g),
        }
    }
}

/// A pass binds exactly the resources that its kernel reads or writes.
pub proof fn lemma_bindings_follow_roles(k: PassKind, r: Resource)
    ensures
        binds(k, r) <==> pass_reads(k, r) || pass_writes(k, r),
{
    let bs = spec_pass_bindings(k);
    if pass_reads(k, r) || pass_writes(k, r) {
        // The witness: the index at which `r` is bound.
        let at: int = match k {
            PassKind::RayGen => if r is CameraUniform {
                0
            } else {
                1
            },
            PassKind::Intersect => match r {
                Resource::Rays => 0,
                Resource::HitRecords => 1,
                Resource::Spheres => 2,
                _ => 3,
            },
            PassKind::Shade => match r {
                Resource::HitRecords => 0,
                Resource::Spheres => 1,
                Resource::DimUniform => 2,
                Resource::Materials => 3,
                Resource::SeedUniform => 4,
                _ => 5,
            },
        };
        assert(bs[at].entry.resource == r);
    }
}

/// The dependencies between the passes of a frame are met by recording
/// order alone: no resource has two writers in a frame, every resource that
/// a pass reads and some pass writes is written by an earlier pass, and a
/// resource that a pass writes is read by at most one other pass.
pub proof fn lemma_frame_dependencies()
    ensures
        forall|i: int, j: int, r: Resource|
            0 <= i < j < frame_passes().len() ==> !(#[trigger] pass_writes(frame_passes()[i], r)
                && #[trigger] pass_writes(frame_passes()[j], r)),
        forall|i: int, j: int, r: Resource|
            0 <= i < frame_passes().len() && 0 <= j < frame_passes().len() && #[trigger] pass_writes(
                frame_passes()[i],
                r,
            ) && #[trigger] pass_reads(frame_passes()[j], r) ==> i < j,
        forall|i: int, j: int, l: int, r: Resource|
            0 <= i < frame_passes().len() && 0 <= j < frame_passes().len() && 0 <= l
                < frame_passes().len() && #[trigger] pass_writes(frame_passes()[i], r)
                && #[trigger] pass_reads(frame_passes()[j], r) && #[trigger] pass_reads(
                frame_passes()[l],
                r,
            ) ==> j == l,
{
}

/// The output image that the frame copies to the surface is written by the
/// last pass recorded, and by no other.
pub proof fn lemma_copy_after_shade()
    ensures
        pass_writes(frame_passes().last(), Resource::Image),
        forall|i: int|
            0 <= i < frame_passes().len() - 1 ==> !pass_writes(
                #[trigger] frame_passes()[i],
                Resource::Image,
            ),
{
}

/// What the frame loop does when the next surface image cannot be acquired.
#[derive(Clone, Copy, Debug, PartialEq, Eq, Structural)]
pub enum FrameAction {
    /// Reconfigure the surface and rebuild the resources at the last known
    /// size, then draw again on the next frame.
    Reconfigure,
    /// Skip this frame and change nothing.
    Skip,
    /// Stop the render loop: the device cannot recover.
    Exit,
}

/// The action for each way of failing to acquire the surface image: a lost
/// or outdated surface is rebuilt, running out of memory ends the loop, and
/// a timeout or any other failure skips the frame.
pub fn frame_error_action(e: &wgpu::SurfaceError) -> (r: FrameAction)
    ensures
        r == match *e {
            wgpu::SurfaceError::Lost | wgpu::SurfaceError::Outdated => FrameAction::Reconfigure,
            wgpu::SurfaceError::OutOfMemory => FrameAction::Exit,
            wgpu::SurfaceError::Timeout | wgpu::SurfaceError::Other => FrameAction::Skip,
        },
{
    match e {
        wgpu::SurfaceError::Lost | wgpu::SurfaceError::Outdated => FrameAction::Reconfigure,
        wgpu::SurfaceError::OutOfMemory => FrameAction::Exit,
        wgpu::SurfaceError::Timeout | wgpu::SurfaceError::Other => FrameAction::Skip,
    }
}

} // verus!
