use gpudemo::layout::{
    encode_materials, material_ids_in_range, encode_spheres, CameraLean, CameraRecord, HitRecord, Material, Ray, Sphere,
    CAMERA_LEAN_SIZE, CAMERA_SIZE, HIT_RECORD_SIZE, MATERIAL_SIZE, MISS_MATERIAL, RAY_SIZE,
    SPHERE_SIZE,
};

#[test]
fn record_sizes_are_multiples_of_sixteen() {
    for size in [RAY_SIZE, HIT_RECORD_SIZE, SPHERE_SIZE, MATERIAL_SIZE, CAMERA_SIZE, CAMERA_LEAN_SIZE] {
        assert_eq!(size % 16, 0);
    }
    assert_eq!(RAY_SIZE, 32);
    assert_eq!(HIT_RECORD_SIZE, 48);
    assert_eq!(SPHERE_SIZE, 32);
    assert_eq!(MATERIAL_SIZE, 32);
    assert_eq!(CAMERA_SIZE, 144);
    assert_eq!(CAMERA_LEAN_SIZE, 64);
}

#[test]
fn sphere_new_keeps_fields() {
    let s = Sphere::new([0.0f32.to_bits(), (-1050.0f32).to_bits(), 500.0f32.to_bits()], 1, 1000.0f32.to_bits());
    assert_eq!(f32::from_bits(s.position[1]), -1050.0);
    assert_eq!(f32::from_bits(s.radius), 1000.0);
    assert_eq!(s.material_id, 1);
}

#[test]
fn sphere_words_follow_layout() {
    let s = Sphere::new([1, 2, 3], -1, 9);
    let mut out = vec![77u32];
    s.write_words(&mut out);
    assert_eq!(out, vec![77, 1, 2, 3, 9, 0xffff_ffff, 0, 0, 0]);
}

#[test]
fn material_default_is_grey_diffuse() {
    let m = Material::default();
    assert_eq!(m.albedo.map(f32::from_bits), [0.5, 0.5, 0.5, 1.0]);
    assert_eq!(m.kind, 0);
    assert_eq!(f32::from_bits(m.fuzz), 0.0);
    let mut out = Vec::new();
    m.write_words(&mut out);
    assert_eq!(out.len() * 4, MATERIAL_SIZE as usize);
    assert_eq!(&out[4..], &[0, 0, 0, 0]);
}

#[test]
fn encode_lists_concatenates_records() {
    let spheres = vec![Sphere::new([1, 2, 3], 0, 4), Sphere::new([5, 6, 7], 2, 8)];
    let words = encode_spheres(&spheres);
    assert_eq!(words, vec![1, 2, 3, 4, 0, 0, 0, 0, 5, 6, 7, 8, 2, 0, 0, 0]);
    assert_eq!(words.len() * 4, 2 * SPHERE_SIZE as usize);

    let materials = vec![
        Material { albedo: [1, 2, 3, 4], kind: 1, fuzz: 5 },
        Material { albedo: [6, 7, 8, 9], kind: 0, fuzz: 10 },
    ];
    let words = encode_materials(&materials);
    assert_eq!(words, vec![1, 2, 3, 4, 1, 5, 0, 0, 6, 7, 8, 9, 0, 10, 0, 0]);
}

#[test]
fn encode_empty_lists() {
    assert!(encode_spheres(&Vec::new()).is_empty());
    assert!(encode_materials(&Vec::new()).is_empty());
}

#[test]
fn camera_record_words_follow_layout() {
    let c = CameraRecord {
        up_vector: [1, 2, 3],
        position: [4, 5, 6],
        look_at: [7, 8, 9],
        forward: [10, 11, 12],
        right: [13, 14, 15],
        up: [16, 17, 18],
        focal_length: 19,
        focus_distance: 20,
        aperture: 21,
        sensor_height: 22,
        aspect_ratio: 23,
        picture_width: 1920,
        aperture_radius: 25,
        fovy: 26,
        min_coc: 27,
    };
    let w = c.to_words();
    assert_eq!(w.len() * 4, CAMERA_SIZE as usize);
    assert_eq!(
        w,
        vec![
            1, 2, 3, 0, 4, 5, 6, 0, 7, 8, 9, 0, 10, 11, 12, 0, 13, 14, 15, 0, 16, 17, 18, 0, 19, 20,
            21, 22, 23, 1920, 25, 26, 27, 0, 0, 0
        ]
    );
}

#[test]
fn camera_lean_words_follow_layout() {
    let c = CameraLean { pixeloo: [1, 2, 3], pixel_delta_u: [4, 5, 6], pixel_delta_v: [7, 8, 9], pos: [10, 11, 12] };
    let w = c.to_words();
    assert_eq!(w.len() * 4, CAMERA_LEAN_SIZE as usize);
    assert_eq!(w, vec![1, 2, 3, 0, 4, 5, 6, 0, 7, 8, 9, 0, 10, 11, 12, 0]);
}

#[test]
fn hit_record_miss_sentinel() {
    let miss = HitRecord { point: [0; 4], normal: [0; 3], flags: 0, material_id: MISS_MATERIAL };
    assert!(miss.is_miss());
    assert_eq!(MISS_MATERIAL, -1);
    let hit = HitRecord { point: [0; 4], normal: [0; 3], flags: 1, material_id: 2 };
    assert!(!hit.is_miss());
    let _ray = Ray { dir: [0, 0, 1], o: [0, 0, 0] };
}

#[test]
fn material_record_depends_on_itself_only() {
    let target = Material { albedo: [10, 11, 12, 13], kind: 1, fuzz: 14 };
    let a = vec![Material::default(), target, Material::default()];
    let b = vec![Material { albedo: [1, 1, 1, 1], kind: 0, fuzz: 2 }, target];
    let wa = encode_materials(&a);
    let wb = encode_materials(&b);
    assert_eq!(&wa[8..16], &wb[8..16]);
    assert_eq!(&wa[8..16], &[10, 11, 12, 13, 1, 14, 0, 0]);
}

#[test]
fn sphere_record_at_fixed_offset() {
    let spheres: Vec<Sphere> = (0..4).map(|i| Sphere::new([i, i + 1, i + 2], i as i32, 100 + i)).collect();
    let words = encode_spheres(&spheres);
    for (i, s) in spheres.iter().enumerate() {
        let mut one = Vec::new();
        s.write_words(&mut one);
        assert_eq!(&words[8 * i..8 * i + 8], one.as_slice());
    }
}

#[test]
fn material_ids_must_index_table() {
    let materials = vec![Material::default(), Material::default()];
    let ok = vec![Sphere::new([0, 0, 0], 0, 1), Sphere::new([0, 0, 0], 1, 1)];
    assert!(material_ids_in_range(&ok, &materials));
    assert!(material_ids_in_range(&Vec::new(), &materials));
    assert!(!material_ids_in_range(&vec![Sphere::new([0, 0, 0], 2, 1)], &materials));
    assert!(!material_ids_in_range(&vec![Sphere::new([0, 0, 0], -1, 1)], &materials));
    assert!(!material_ids_in_range(&ok, &Vec::new()));
}
