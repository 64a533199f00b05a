use gpudemo::binding::{
    bind_group_from, buf_bind_group_lay, img_texture_bind_group, img_texture_bind_group_lay,
    material_n_seed_bind_group, material_n_seed_group_lay, mira, mira_bind, sphere_n_dim_bind_group,
    sphere_n_dim_group_lay, uniform_bind_group_lay, BindingKind, GroupEntry, LayoutEntry, Resource,
};
use gpudemo::frame::{frame_error_action, frame_plan, pass_bindings, workgroup_count, FrameAction};
use gpudemo::layout::{Material, Sphere};
use gpudemo::pipeline::{pipeline_layout, PassKind, PipelineCache};
use gpudemo::renderer::{Renderer, ResourceSet, TEXEL_SIZE};

fn scene() -> (Vec<Sphere>, Vec<Material>) {
    let bits = |v: [f32; 3]| v.map(f32::to_bits);
    let spheres = vec![
        Sphere::new(bits([0.0, 0.0, 500.0]), 0, 50.0f32.to_bits()),
        Sphere::new(bits([0.0, -1050.0, 500.0]), 1, 1000.0f32.to_bits()),
        Sphere::new(bits([-80.0, -20.0, 300.0]), 2, 50.0f32.to_bits()),
    ];
    let material = |a: [f32; 4]| Material { albedo: a.map(f32::to_bits), kind: 0, fuzz: 0 };
    let materials = vec![
        material([0.1, 0.2, 0.5, 1.0]),
        material([0.8, 0.8, 0.0, 1.0]),
        material([0.5, 0.2, 0.1, 1.0]),
    ];
    (spheres, materials)
}

#[test]
fn slots_are_fixed() {
    let all = [
        Resource::CameraUniform,
        Resource::Image,
        Resource::Rays,
        Resource::Spheres,
        Resource::HitRecords,
        Resource::DimUniform,
        Resource::Materials,
        Resource::SeedUniform,
    ];
    let slots: Vec<u32> = all.iter().map(|r| r.slot()).collect();
    assert_eq!(slots, vec![0, 1, 2, 3, 4, 5, 6, 7]);
}

#[test]
fn group_layout_builders() {
    assert_eq!(uniform_bind_group_lay(5), vec![LayoutEntry { binding: 5, kind: BindingKind::Uniform }]);
    assert_eq!(
        buf_bind_group_lay(3, true),
        vec![LayoutEntry { binding: 3, kind: BindingKind::Storage { read_only: true } }]
    );
    assert_eq!(
        mira(4, 2),
        vec![
            LayoutEntry { binding: 4, kind: BindingKind::Storage { read_only: false } },
            LayoutEntry { binding: 2, kind: BindingKind::Storage { read_only: false } },
        ]
    );
    assert_eq!(
        sphere_n_dim_group_lay(3, 5, true),
        vec![
            LayoutEntry { binding: 3, kind: BindingKind::Storage { read_only: true } },
            LayoutEntry { binding: 5, kind: BindingKind::Uniform },
        ]
    );
    assert_eq!(
        material_n_seed_group_lay(6, 7, false),
        vec![
            LayoutEntry { binding: 6, kind: BindingKind::Storage { read_only: false } },
            LayoutEntry { binding: 7, kind: BindingKind::Uniform },
        ]
    );
    assert_eq!(img_texture_bind_group_lay(1), vec![LayoutEntry { binding: 1, kind: BindingKind::WriteOnlyImage }]);
}

#[test]
fn bind_group_builders() {
    assert_eq!(bind_group_from(Resource::Rays, 2), vec![GroupEntry { binding: 2, resource: Resource::Rays }]);
    assert_eq!(
        mira_bind(Resource::HitRecords, Resource::Rays, 4, 2),
        vec![
            GroupEntry { binding: 4, resource: Resource::HitRecords },
            GroupEntry { binding: 2, resource: Resource::Rays },
        ]
    );
    assert_eq!(
        sphere_n_dim_bind_group(Resource::Spheres, Resource::DimUniform, 3, 5),
        vec![
            GroupEntry { binding: 3, resource: Resource::Spheres },
            GroupEntry { binding: 5, resource: Resource::DimUniform },
        ]
    );
    assert_eq!(
        material_n_seed_bind_group(Resource::Materials, Resource::SeedUniform, 6, 7),
        vec![
            GroupEntry { binding: 6, resource: Resource::Materials },
            GroupEntry { binding: 7, resource: Resource::SeedUniform },
        ]
    );
    assert_eq!(img_texture_bind_group(Resource::Image, 1), vec![GroupEntry { binding: 1, resource: Resource::Image }]);
}

#[test]
fn pipeline_layouts_per_pass() {
    let ray = pipeline_layout(PassKind::RayGen);
    assert_eq!(ray, vec![uniform_bind_group_lay(0), buf_bind_group_lay(2, false)]);
    let intersect = pipeline_layout(PassKind::Intersect);
    assert_eq!(intersect.len(), 4);
    assert_eq!(intersect[0], buf_bind_group_lay(2, true));
    assert_eq!(intersect[1], buf_bind_group_lay(4, false));
    assert_eq!(intersect[2], buf_bind_group_lay(3, true));
    assert_eq!(intersect[3], uniform_bind_group_lay(5));
    let shade = pipeline_layout(PassKind::Shade);
    assert_eq!(shade[0], buf_bind_group_lay(4, true));
    assert_eq!(shade[1], sphere_n_dim_group_lay(3, 5, true));
    assert_eq!(shade[2], img_texture_bind_group_lay(1));
    assert_eq!(shade[3], material_n_seed_group_lay(6, 7, true));
}

#[test]
fn pipeline_cache_fills_once() {
    let mut cache = PipelineCache::empty();
    assert!(!cache.is_complete());
    assert_eq!(cache.fill(), vec![PassKind::RayGen, PassKind::Intersect, PassKind::Shade]);
    assert!(cache.is_complete());
    assert!(cache.fill().is_empty());
    let mut partial = PipelineCache { ray: true, intersect: false, shade: true };
    assert_eq!(partial.fill(), vec![PassKind::Intersect]);
}

#[test]
fn workgroups_round_up() {
    assert_eq!(workgroup_count(0), 0);
    assert_eq!(workgroup_count(1), 1);
    assert_eq!(workgroup_count(8), 1);
    assert_eq!(workgroup_count(9), 2);
    assert_eq!(workgroup_count(36), 5);
    assert_eq!(workgroup_count(64), 8);
    assert_eq!(workgroup_count(u32::MAX), 536_870_912);
}

#[test]
fn row_pitch_is_padded_to_alignment() {
    assert_eq!(Renderer::img_bytes_per_row(1), 256);
    assert_eq!(Renderer::img_bytes_per_row(64), 256);
    assert_eq!(Renderer::img_bytes_per_row(65), 512);
    assert_eq!(Renderer::img_bytes_per_row(1920), 7680);
    assert_eq!(Renderer::img_bytes_per_row(0), 0);
}

#[test]
fn new_renderer_has_nothing() {
    let r = Renderer::new(800, 600);
    assert_eq!((r.width(), r.height()), (800, 600));
    assert_eq!(r.num_rays(), 480_000);
    assert_eq!(r.generation(), 0);
    assert!(r.resources().is_none());
    assert!(!r.is_ready());
}

#[test]
fn resize_builds_full_set() {
    let mut r = Renderer::new(1, 1);
    let plan = r.on_resize(64, 36).expect("accepted");
    assert_eq!(
        plan.resources,
        ResourceSet { generation: 1, width: 64, height: 36, ray_bytes: 73_728, hit_bytes: 110_592, image_bytes: 9_216 }
    );
    assert_eq!(plan.resources.image_bytes, 64 * 36 * TEXEL_SIZE);
    assert_eq!(plan.retired, None);
    assert_eq!(plan.dim_words, vec![64, 36]);
    assert_eq!(plan.build, vec![PassKind::RayGen, PassKind::Intersect, PassKind::Shade]);
    assert_eq!(r.num_rays(), 2304);
    assert_eq!(r.resources(), Some(plan.resources));
}

#[test]
fn second_resize_retires_previous_generation() {
    let mut r = Renderer::new(1, 1);
    r.on_resize(64, 36).unwrap();
    let plan = r.on_resize(128, 72).unwrap();
    assert_eq!(plan.retired, Some(1));
    assert_eq!(plan.resources.generation, 2);
    assert_eq!(plan.resources.ray_bytes, 128 * 72 * 32);
    assert!(plan.build.is_empty());
}

#[test]
fn zero_sized_resize_is_refused() {
    let mut r = Renderer::new(1, 1);
    r.on_resize(64, 36).unwrap();
    let before = r.resources();
    assert!(r.on_resize(0, 36).is_none());
    assert!(r.on_resize(64, 0).is_none());
    assert!(r.on_resize(0, 0).is_none());
    assert_eq!(r.resources(), before);
    assert_eq!((r.width(), r.height(), r.generation()), (64, 36, 1));
}

#[test]
fn make_world_encodes_scene() {
    let (spheres, materials) = scene();
    let mut r = Renderer::new(64, 36);
    let upload = r.make_world(&spheres, &materials, 3.0f32.to_bits());
    assert_eq!(upload.sphere_words.len(), 24);
    assert_eq!(f32::from_bits(upload.sphere_words[8 + 1]), -1050.0);
    assert_eq!(upload.sphere_words[8 + 4], 1);
    assert_eq!(upload.sphere_words[16 + 4], 2);
    assert_eq!(upload.material_words.len(), 24);
    assert_eq!(f32::from_bits(upload.material_words[8]), 0.8);
    assert_eq!(upload.seed_words, vec![3.0f32.to_bits()]);
    assert!(!r.is_ready());
    r.on_resize(64, 36).unwrap();
    assert!(r.is_ready());
}

#[test]
fn frame_plan_records_three_passes() {
    let (spheres, materials) = scene();
    let mut r = Renderer::new(1, 1);
    r.make_world(&spheres, &materials, 0);
    r.on_resize(64, 36).unwrap();
    let plan = r.render();
    assert_eq!(plan.generation, 1);
    assert_eq!((plan.copy_width, plan.copy_height), (64, 36));
    let kinds: Vec<PassKind> = plan.passes.iter().map(|p| p.kind).collect();
    assert_eq!(kinds, vec![PassKind::RayGen, PassKind::Intersect, PassKind::Shade]);
    for p in &plan.passes {
        assert_eq!(p.workgroups, (8, 5, 1));
        assert_eq!(p.bindings, pass_bindings(p.kind));
    }
    let shade: Vec<(u32, u32, Resource)> =
        plan.passes[2].bindings.iter().map(|b| (b.group, b.entry.binding, b.entry.resource)).collect();
    assert_eq!(
        shade,
        vec![
            (0, 4, Resource::HitRecords),
            (1, 3, Resource::Spheres),
            (1, 5, Resource::DimUniform),
            (3, 6, Resource::Materials),
            (3, 7, Resource::SeedUniform),
            (2, 1, Resource::Image),
        ]
    );
    let intersect: Vec<(u32, u32)> = plan.passes[1].bindings.iter().map(|b| (b.group, b.entry.binding)).collect();
    assert_eq!(intersect, vec![(0, 2), (1, 4), (2, 3), (3, 5)]);
}

#[test]
fn frame_plans_repeat() {
    let a = frame_plan(4, 64, 36);
    let b = frame_plan(4, 64, 36);
    assert_eq!(a.passes.len(), b.passes.len());
    for (x, y) in a.passes.iter().zip(b.passes.iter()) {
        assert_eq!(x.kind, y.kind);
        assert_eq!(x.bindings, y.bindings);
        assert_eq!(x.workgroups, y.workgroups);
    }
}

#[test]
fn surface_errors_map_to_actions() {
    assert_eq!(frame_error_action(&wgpu::SurfaceError::Lost), FrameAction::Reconfigure);
    assert_eq!(frame_error_action(&wgpu::SurfaceError::Outdated), FrameAction::Reconfigure);
    assert_eq!(frame_error_action(&wgpu::SurfaceError::OutOfMemory), FrameAction::Exit);
    assert_eq!(frame_error_action(&wgpu::SurfaceError::Timeout), FrameAction::Skip);
    assert_eq!(frame_error_action(&wgpu::SurfaceError::Other), FrameAction::Skip);
}
