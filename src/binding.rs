//! Bind-group layouts and bind groups, described as data.
//!
//! Each resource has a fixed binding slot that the kernels address it by; a
//! layout entry gives a slot and the type of binding, and a bind-group entry
//! gives a slot and the resource bound there.
use vstd::prelude::*;

verus! {

pub const CAMERA_UNIFORM_BIND: u32 = 0;
pub const IMG_TEX_BIND: u32 = 1;
pub const RAYS_BUF_BIND: u32 = 2;
pub const SPHERE_BUF_BIND: u32 = 3;
pub const HIT_REC_BUF_BIND: u32 = 4;
pub const DIM_UNIFORM_BIND: u32 = 5;
pub const MAT_BUF_BIND: u32 = 6;
pub const SEED_UNIFORM_BIND: u32 = 7;

/// The GPU resources that the three passes bind.
#[derive(Clone, Copy, Debug, PartialEq, Eq, Structural)]
pub enum Resource {
    CameraUniform,
    Image,
    Rays,
    Spheres,
    HitRecords,
    DimUniform,
    Materials,
    SeedUniform,
}

impl Resource {
    /// The binding slot by which the kernels address the resource.
    pub open spec fn spec_slot(self) -> u32 {
        match self {
            Resource::CameraUniform => CAMERA_UNIFORM_BIND,
            Resource::Image => IMG_TEX_BIND,
            Resource::Rays => RAYS_BUF_BIND,
            Resource::Spheres => SPHERE_BUF_BIND,
            Resource::HitRecords => HIT_REC_BUF_BIND,
            Resource::DimUniform => DIM_UNIFORM_BIND,
            Resource::Materials => MAT_BUF_BIND,
            Resource::SeedUniform => SEED_UNIFORM_BIND,
        }
    }

    pub fn slot(&self) -> (r: u32)
        ensures
            r == self.spec_slot(),
    {
        match self {
            Resource::CameraUniform => CAMERA_UNIFORM_BIND,
            Resource::Image => IMG_TEX_BIND,
            Resource::Rays => RAYS_BUF_BIND,
            Resource::Spheres => SPHERE_BUF_BIND,
            Resource::HitRecords => HIT_REC_BUF_BIND,
            Resource::DimUniform => DIM_UNIFORM_BIND,
            Resource::Materials => MAT_BUF_BIND,
            Resource::SeedUniform => SEED_UNIFORM_BIND,
        }
    }

    /// Whether the resource is a uniform buffer.
    pub open spec fn is_uniform(self) -> bool {
        self is CameraUniform || self is DimUniform || self is SeedUniform
    }

    /// Whether the resource is a storage buffer.
    pub open spec fn is_storage(self) -> bool {
        self is Rays || self is Spheres || self is HitRecords || self is Materials
    }
}

/// The type of a binding, as the kernels declare it. The image is a
/// two-dimensional storage texture in the surface's format, written only.
#[derive(Clone, Copy, Debug, PartialEq, Eq, Structural)]
pub enum BindingKind {
    Uniform,
    Storage { read_only: bool },
    WriteOnlyImage,
}

impl BindingKind {
    /// Whether a resource can be bound where a layout entry of this kind stands.
    pub open spec fn admits(self, r: Resource) -> bool {
        match self {
            BindingKind::Uniform => r.is_uniform(),
            BindingKind::Storage { .. } => r.is_storage(),
            BindingKind::WriteOnlyImage => r is Image,
        }
    }
}

/// One entry of a bind-group layout, visible to compute kernels.
#[derive(Clone, Copy, Debug, PartialEq, Eq, Structural)]
pub struct LayoutEntry {
    pub binding: u32,
    pub kind: BindingKind,
}

/// One entry of a bind group.
#[derive(Clone, Copy, Debug, PartialEq, Eq, Structural)]
pub struct GroupEntry {
    pub binding: u32,
    pub resource: Resource,
}

/// A layout of one uniform buffer.
pub fn uniform_bind_group_lay(binding: u32) -> (r: Vec<LayoutEntry>)
    ensures
        r@ == seq![LayoutEntry { binding, kind: BindingKind::Uniform }],
{
    vec![LayoutEntry { binding, kind: BindingKind::Uniform }]
}

/// A layout of one storage buffer.
pub fn buf_bind_group_lay(binding: u32, read_only: bool) -> (r: Vec<LayoutEntry>)
    ensures
        r@ == seq![LayoutEntry { binding, kind: BindingKind::Storage { read_only } }],
{
    vec![LayoutEntry { binding, kind: BindingKind::Storage { read_only } }]
}

/// A layout of the hit-record buffer and the ray buffer, both read-write.
pub fn mira(hit_record_bind: u32, rays_bind: u32) -> (r: Vec<LayoutEntry>)
    ensures
        r@ == seq![
            LayoutEntry { binding: hit_record_bind, kind: BindingKind::Storage { read_only: false } },
            LayoutEntry { binding: rays_bind, kind: BindingKind::Storage { read_only: false } },
        ],
{
    vec![
        LayoutEntry { binding: hit_record_bind, kind: BindingKind::Storage { read_only: false } },
        LayoutEntry { binding: rays_bind, kind: BindingKind::Storage { read_only: false } },
    ]
}

/// A bind group of the hit-record buffer and the ray buffer.
pub fn mira_bind(rec_rs: Resource, rays_rs: Resource, hit_record_bind: u32, rays_bind: u32) -> (r:
    Vec<GroupEntry>)
    ensures
        r@ == seq![
            GroupEntry { binding: hit_record_bind, resource: rec_rs },
            GroupEntry { binding: rays_bind, resource: rays_rs },
        ],
{
    vec![
        GroupEntry { binding: hit_record_bind, resource: rec_rs },
        GroupEntry { binding: rays_bind, resource: rays_rs },
    ]
}

/// A layout of the sphere buffer and the dimension uniform.
pub fn sphere_n_dim_group_lay(sphere_bind: u32, dim_bind: u32, read_only: bool) -> (r: Vec<
    LayoutEntry,
>)
    ensures
        r@ == seq![
            LayoutEntry { binding: sphere_bind, kind: BindingKind::Storage { read_only } },
            LayoutEntry { binding: dim_bind, kind: BindingKind::Uniform },
        ],
{
    vec![
        LayoutEntry { binding: sphere_bind, kind: BindingKind::Storage { read_only } },
        LayoutEntry { binding: dim_bind, kind: BindingKind::Uniform },
    ]
}

/// A bind group of the sphere buffer and the dimension uniform.
pub fn sphere_n_dim_bind_group(
    sphere_rs: Resource,
    dim_rs: Resource,
    sphere_bind: u32,
    dim_bind: u32,
) -> (r: Vec<GroupEntry>)
    ensures
        r@ == seq![
            GroupEntry { binding: sphere_bind, resource: sphere_rs },
            GroupEntry { binding: dim_bind, resource: dim_rs },
        ],
{
    vec![
        GroupEntry { binding: sphere_bind, resource: sphere_rs },
        GroupEntry { binding: dim_bind, resource: dim_rs },
    ]
}

/// A layout of the material buffer and the seed uniform.
pub fn material_n_seed_group_lay(material_bind: u32, seed_bind: u32, read_only: bool) -> (r: Vec<
    LayoutEntry,
>)
    ensures
        r@ == seq![
            LayoutEntry { binding: material_bind, kind: BindingKind::Storage { read_only } },
            LayoutEntry { binding: seed_bind, kind: BindingKind::Uniform },
        ],
{
    vec![
        LayoutEntry { binding: material_bind, kind: BindingKind::Storage { read_only } },
        LayoutEntry { binding: seed_bind, kind: BindingKind::Uniform },
    ]
}

/// A bind group of the material buffer and the seed uniform.
pub fn material_n_seed_bind_group(
    materials_rs: Resource,
    seed_rs: Resource,
    material_bind: u32,
    seed_bind: u32,
) -> (r: Vec<GroupEntry>)
    ensures
        r@ == seq![
            GroupEntry { binding: material_bind, resource: materials_rs },
            GroupEntry { binding: seed_bind, resource: seed_rs },
        ],
{
    vec![
        GroupEntry { binding: material_bind, resource: materials_rs },
        GroupEntry { binding: seed_bind, resource: seed_rs },
    ]
}

/// A bind group of one resource.
pub fn bind_group_from(resource: Resource, binding: u32) -> (r: Vec<GroupEntry>)
    ensures
        r@ == seq![GroupEntry { binding, resource }],
{
    vec![GroupEntry { binding, resource }]
}

/// A layout of the output image, a write-only storage texture.
pub fn img_texture_bind_group_lay(binding: u32) -> (r: Vec<LayoutEntry>)
    ensures
        r@ == seq![LayoutEntry { binding, kind: BindingKind::WriteOnlyImage }],
{
    vec![LayoutEntry { binding, kind: BindingKind::WriteOnlyImage }]
}

/// A bind group of the output image's view.
pub fn img_texture_bind_group(texture_view: Resource, binding: u32) -> (r: Vec<GroupEntry>)
    ensures
        r@ == seq![GroupEntry { binding, resource: texture_view }],
{
    vec![GroupEntry { binding, resource: texture_view }]
}

} // verus!
