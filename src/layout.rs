//! Records shared with the compute kernels.
//!
//! Every record is a sequence of 32-bit words with a fixed order of fields
//! and zero padding, so that its size is a multiple of 16 bytes. The kernels
//! decode the records at fixed offsets, so the order of the words below is
//! part of the contract with them. A floating-point field is held as its
//! IEEE-754 single-precision bit pattern.
use vstd::prelude::*;

verus! {

/// Size in bytes of an encoded [`Ray`].
pub const RAY_SIZE: u64 = 32;

/// Size in bytes of an encoded [`HitRecord`].
pub const HIT_RECORD_SIZE: u64 = 48;

/// Size in bytes of an encoded [`Sphere`].
pub const SPHERE_SIZE: u64 = 32;

/// Size in bytes of an encoded [`Material`].
pub const MATERIAL_SIZE: u64 = 32;

/// Size in bytes of an encoded [`CameraRecord`].
pub const CAMERA_SIZE: u64 = 144;

/// Size in bytes of an encoded [`CameraLean`].
pub const CAMERA_LEAN_SIZE: u64 = 64;

/// Bit pattern of the single-precision number 0.5.
pub const HALF_BITS: u32 = 0x3f00_0000;

/// Bit pattern of the single-precision number 1.0.
pub const ONE_BITS: u32 = 0x3f80_0000;

/// Material id that the intersect kernel writes where a ray hits nothing.
pub const MISS_MATERIAL: i32 = -1;

/// A primary ray: direction and origin, written by the ray-generation kernel.
#[derive(Clone, Copy)]
pub struct Ray {
    pub dir: [u32; 3],
    pub o: [u32; 3],
}

impl Ray {
    /// Direction, one word of padding, origin, one word of padding.
    pub open spec fn spec_words(self) -> Seq<u32> {
        seq![self.dir@[0], self.dir@[1], self.dir@[2], 0u32, self.o@[0], self.o@[1], self.o@[2], 0u32]
    }
}

/// The closest hit of one pixel's ray, written by the intersect kernel.
#[derive(Clone, Copy)]
pub struct HitRecord {
    /// Hit point in the first three words, ray parameter `t` in the fourth.
    pub point: [u32; 4],
    pub normal: [u32; 3],
    /// Bit 0 is set where the ray hit the back face.
    pub flags: u32,
    /// Material of the sphere hit, or [`MISS_MATERIAL`].
    pub material_id: i32,
}

impl HitRecord {
    /// Point and `t`, normal, flags, material id, three words of padding.
    pub open spec fn spec_words(self) -> Seq<u32> {
        seq![
            self.point@[0], self.point@[1], self.point@[2], self.point@[3],
            self.normal@[0], self.normal@[1], self.normal@[2], self.flags,
            self.material_id as u32, 0u32, 0u32, 0u32,
        ]
    }

    /// Whether the record says that the ray hit no sphere.
    pub fn is_miss(&self) -> (r: bool)
        ensures
            r == (self.material_id == MISS_MATERIAL),
    {
        self.material_id == MISS_MATERIAL
    }
}

/// A sphere of the scene: centre, radius and the index of its material.
#[derive(Clone, Copy)]
pub struct Sphere {
    pub position: [u32; 3],
    pub radius: u32,
    pub material_id: i32,
}

impl Sphere {
    /// Position, radius, material id, three words of padding.
    pub open spec fn spec_words(self) -> Seq<u32> {
        seq![
            self.position@[0], self.position@[1], self.position@[2], self.radius,
            self.material_id as u32, 0u32, 0u32, 0u32,
        ]
    }

    pub fn new(position: [u32; 3], material_id: i32, radius: u32) -> (r: Sphere)
        ensures
            r.position@ == position@,
            r.material_id == material_id,
            r.radius == radius,
    {
        Sphere { position, radius, material_id }
    }

    /// Appends the record's words to `out`.
    pub fn write_words(&self, out: &mut Vec<u32>)
        ensures
            final(out)@ == old(out)@ + self.spec_words(),
    {
        out.push(self.position[0]);
        out.push(self.position[1]);
        out.push(self.position[2]);
        out.push(self.radius);
        out.push(self.material_id as u32);
        out.push(0);
        out.push(0);
        out.push(0);
    }
}

/// A surface material: albedo (RGBA), kind (0 diffuse, 1 metal) and fuzz.
#[derive(Clone, Copy)]
pub struct Material {
    pub albedo: [u32; 4],
    pub kind: u32,
    pub fuzz: u32,
}

impl Material {
    /// Albedo, kind, fuzz, two words of padding.
    pub open spec fn spec_words(self) -> Seq<u32> {
        seq![
            self.albedo@[0], self.albedo@[1], self.albedo@[2], self.albedo@[3],
            self.kind, self.fuzz, 0u32, 0u32,
        ]
    }

    /// Appends the record's words to `out`.
    pub fn write_words(&self, out: &mut Vec<u32>)
        ensures
            final(out)@ == old(out)@ + self.spec_words(),
    {
        out.push(self.albedo[0]);
        out.push(self.albedo[1]);
        out.push(self.albedo[2]);
        out.push(self.albedo[3]);
        out.push(self.kind);
        out.push(self.fuzz);
        out.push(0);
        out.push(0);
    }
}

impl Default for Material {
    /// A diffuse grey: albedo (0.5, 0.5, 0.5, 1.0), no fuzz.
    fn default() -> (r: Material)
        ensures
            r.albedo@ == seq![HALF_BITS, HALF_BITS, HALF_BITS, ONE_BITS],
            r.kind == 0,
            r.fuzz == 0,
    {
        Material { albedo: [HALF_BITS, HALF_BITS, HALF_BITS, ONE_BITS], kind: 0, fuzz: 0 }
    }
}

/// The camera as uploaded to the ray-generation kernel: pose, orthonormal
/// basis, photographic parameters and the parameters derived from them.
#[derive(Clone, Copy)]
pub struct CameraRecord {
    pub up_vector: [u32; 3],
    pub position: [u32; 3],
    pub look_at: [u32; 3],
    pub forward: [u32; 3],
    pub right: [u32; 3],
    pub up: [u32; 3],
    /// In millimetres.
    pub focal_length: u32,
    /// In metres.
    pub focus_distance: u32,
    /// The f-number.
    pub aperture: u32,
    /// In millimetres.
    pub sensor_height: u32,
    pub aspect_ratio: u32,
    /// In pixels; an integer, not a bit pattern.
    pub picture_width: u32,
    /// In millimetres.
    pub aperture_radius: u32,
    /// Vertical field of view, in radians.
    pub fovy: u32,
    /// Smallest aperture radius, in millimetres.
    pub min_coc: u32,
}

impl CameraRecord {
    /// Six vectors of three words, each followed by a word of padding; the
    /// six photographic parameters; the three derived ones; three words of
    /// padding.
    pub open spec fn spec_words(self) -> Seq<u32> {
        seq![
            self.up_vector@[0], self.up_vector@[1], self.up_vector@[2], 0u32,
            self.position@[0], self.position@[1], self.position@[2], 0u32,
            self.look_at@[0], self.look_at@[1], self.look_at@[2], 0u32,
            self.forward@[0], self.forward@[1], self.forward@[2], 0u32,
            self.right@[0], self.right@[1], self.right@[2], 0u32,
            self.up@[0], self.up@[1], self.up@[2], 0u32,
            self.focal_length, self.focus_distance, self.aperture, self.sensor_height,
            self.aspect_ratio, self.picture_width, self.aperture_radius, self.fovy,
            self.min_coc, 0u32, 0u32, 0u32,
        ]
    }

    /// The record's words, in upload order.
    pub fn to_words(&self) -> (r: Vec<u32>)
        ensures
            r@ == self.spec_words(),
    {
        let mut r: Vec<u32> = Vec::new();
        push_vec3(&mut r, &self.up_vector);
        push_vec3(&mut r, &self.position);
        push_vec3(&mut r, &self.look_at);
        push_vec3(&mut r, &self.forward);
        push_vec3(&mut r, &self.right);
        push_vec3(&mut r, &self.up);
        r.push(self.focal_length);
        r.push(self.focus_distance);
        r.push(self.aperture);
        r.push(self.sensor_height);
        r.push(self.aspect_ratio);
        r.push(self.picture_width);
        r.push(self.aperture_radius);
        r.push(self.fovy);
        r.push(self.min_coc);
        r.push(0);
        r.push(0);
        r.push(0);
        r
    }
}

/// What the ray-generation kernel needs of the camera in its lean form:
/// centre of the first pixel, the steps between pixels, and the position.
#[derive(Clone, Copy)]
pub struct CameraLean {
    pub pixeloo: [u32; 3],
    pub pixel_delta_u: [u32; 3],
    pub pixel_delta_v: [u32; 3],
    pub pos: [u32; 3],
}

impl CameraLean {
    /// Four vectors of three words, each followed by a word of padding.
    pub open spec fn spec_words(self) -> Seq<u32> {
        seq![
            self.pixeloo@[0], self.pixeloo@[1], self.pixeloo@[2], 0u32,
            self.pixel_delta_u@[0], self.pixel_delta_u@[1], self.pixel_delta_u@[2], 0u32,
            self.pixel_delta_v@[0], self.pixel_delta_v@[1], self.pixel_delta_v@[2], 0u32,
            self.pos@[0], self.pos@[1], self.pos@[2], 0u32,
        ]
    }

    /// The record's words, in upload order.
    pub fn to_words(&self) -> (r: Vec<u32>)
        ensures
            r@ == self.spec_words(),
    {
        let mut r: Vec<u32> = Vec::new();
        push_vec3(&mut r, &self.pixeloo);
        push_vec3(&mut r, &self.pixel_delta_u);
        push_vec3(&mut r, &self.pixel_delta_v);
        push_vec3(&mut r, &self.pos);
        r
    }
}

/// Appends a vector of three words and one word of padding.
fn push_vec3(out: &mut Vec<u32>, v: &[u32; 3])
    ensures
        final(out)@ == old(out)@ + seq![v@[0], v@[1], v@[2], 0u32],
{
    out.push(v[0]);
    out.push(v[1]);
    out.push(v[2]);
    out.push(0);
}

/// Whether every sphere's material id indexes the material table.
pub open spec fn material_ids_valid(spheres: Seq<Sphere>, materials: Seq<Material>) -> bool {
    forall|i: int|
        0 <= i < spheres.len() ==> 0 <= (#[trigger] spheres[i]).material_id < materials.len()
}

/// Tells whether every sphere's material id indexes the material table.
pub fn material_ids_in_range(spheres: &Vec<Sphere>, materials: &Vec<Material>) -> (r: bool)
    ensures
        r == material_ids_valid(spheres@, materials@),
{
    let mut i: usize = 0;
    while i < spheres.len()
        invariant
            i <= spheres.len(),
            forall|k: int|
                0 <= k < i ==> 0 <= (#[trigger] spheres@[k]).material_id < materials@.len(),
        decreases spheres.len() - i,
    {
        let id = spheres[i].material_id;
        if id < 0 || id as usize >= materials.len() {
            return false;
        }
        i = i + 1;
    }
    true
}

/// The words of a list of spheres, one record after the other.
pub open spec fn spheres_words(s: Seq<Sphere>) -> Seq<u32>
    decreases s.len(),
{
    if s.len() == 0 {
        Seq::empty()
    } else {
        spheres_words(s.drop_last()) + s.last().spec_words()
    }
}

/// The words of a material table, one record after the other.
pub open spec fn materials_words(s: Seq<Material>) -> Seq<u32>
    decreases s.len(),
{
    if s.len() == 0 {
        Seq::empty()
    } else {
        materials_words(s.drop_last()) + s.last().spec_words()
    }
}

/// Encodes a list of spheres.
pub fn encode_spheres(spheres: &Vec<Sphere>) -> (r: Vec<u32>)
    ensures
        r@ == spheres_words(spheres@),
{
    let mut r: Vec<u32> = Vec::new();
    let mut i: usize = 0;
    while i < spheres.len()
        invariant
            i <= spheres.len(),
            r@ == spheres_words(spheres@.subrange(0, i as int)),
        decreases spheres.len() - i,
    {
        proof {
            assert(spheres@.subrange(0, i + 1).drop_last() == spheres@.subrange(0, i as int));
        }
        spheres[i].write_words(&mut r);
        i = i + 1;
    }
    proof {
        assert(spheres@.subrange(0, i as int) == spheres@);
    }
    r
}

/// Encodes a material table.
pub fn encode_materials(materials: &Vec<Material>) -> (r: Vec<u32>)
    ensures
        r@ == materials_words(materials@),
{
    let mut r: Vec<u32> = Vec::new();
    let mut i: usize = 0;
    while i < materials.len()
        invariant
            i <= materials.len(),
            r@ == materials_words(materials@.subrange(0, i as int)),
        decreases materials.len() - i,
    {
        proof {
            assert(materials@.subrange(0, i + 1).drop_last() == materials@.subrange(0, i as int));
        }
        materials[i].write_words(&mut r);
        i = i + 1;
    }
    proof {
        assert(materials@.subrange(0, i as int) == materials@);
    }
    r
}

/// Each record's size is four bytes per word, and a multiple of 16 bytes.
pub proof fn lemma_record_sizes(
    ray: Ray,
    hit: HitRecord,
    sphere: Sphere,
    material: Material,
    camera: CameraRecord,
    lean: CameraLean,
)
    ensures
        4 * ray.spec_words().len() == RAY_SIZE,
        4 * hit.spec_words().len() == HIT_RECORD_SIZE,
        4 * sphere.spec_words().len() == SPHERE_SIZE,
        4 * material.spec_words().len() == MATERIAL_SIZE,
        4 * camera.spec_words().len() == CAMERA_SIZE,
        4 * lean.spec_words().len() == CAMERA_LEAN_SIZE,
        RAY_SIZE % 16 == 0,
        HIT_RECORD_SIZE % 16 == 0,
        SPHERE_SIZE % 16 == 0,
        MATERIAL_SIZE % 16 == 0,
        CAMERA_SIZE % 16 == 0,
        CAMERA_LEAN_SIZE % 16 == 0,
{
}

/// A list of spheres encodes to `SPHERE_SIZE / 4` words per sphere.
pub proof fn lemma_spheres_words_len(s: Seq<Sphere>)
    ensures
        4 * spheres_words(s).len() == SPHERE_SIZE * s.len(),
    decreases s.len(),
{
    if s.len() > 0 {
        lemma_spheres_words_len(s.drop_last());
    }
}

/// A material table encodes to `MATERIAL_SIZE / 4` words per material.
pub proof fn lemma_materials_words_len(s: Seq<Material>)
    ensures
        4 * materials_words(s).len() == MATERIAL_SIZE * s.len(),
    decreases s.len(),
{
    if s.len() > 0 {
        lemma_materials_words_len(s.drop_last());
    }
}

/// Sphere `i` of a list stands at words `8 * i` to `8 * i + 8` of its
/// encoding, the fixed offset at which the kernels decode it.
pub proof fn lemma_sphere_offset(s: Seq<Sphere>, i: int)
    requires
        0 <= i < s.len(),
    ensures
        spheres_words(s).subrange(8 * i, 8 * i + 8) == s[i].spec_words(),
    decreases s.len(),
{
    lemma_spheres_words_len(s.drop_last());
    if i < s.len() - 1 {
        lemma_sphere_offset(s.drop_last(), i);
        assert(spheres_words(s).subrange(8 * i, 8 * i + 8) =~= spheres_words(
            s.drop_last(),
        ).subrange(8 * i, 8 * i + 8));
    } else {
        assert(spheres_words(s).subrange(8 * i, 8 * i + 8) =~= s.last().spec_words());
    }
}

/// Material `i` of a table stands at words `8 * i` to `8 * i + 8` of its
/// encoding, the fixed offset at which the kernels decode it.
pub proof fn lemma_material_offset(s: Seq<Material>, i: int)
    requires
        0 <= i < s.len(),
    ensures
        materials_words(s).subrange(8 * i, 8 * i + 8) == s[i].spec_words(),
    decreases s.len(),
{
    lemma_materials_words_len(s.drop_last());
    if i < s.len() - 1 {
        lemma_material_offset(s.drop_last(), i);
        assert(materials_words(s).subrange(8 * i, 8 * i + 8) =~= materials_words(
            s.drop_last(),
        ).subrange(8 * i, 8 * i + 8));
    } else {
        assert(materials_words(s).subrange(8 * i, 8 * i + 8) =~= s.last().spec_words());
    }
}

/// What a kernel reads of material `i` depends on that material alone: two
/// tables that agree on material `i` encode it to the same words, whatever
/// the other materials are.
pub proof fn lemma_material_record_independent(a: Seq<Material>, b: Seq<Material>, i: int)
    requires
        0 <= i < a.len(),
        0 <= i < b.len(),
        a[i] == b[i],
    ensures
        materials_words(a).subrange(8 * i, 8 * i + 8) == materials_words(b).subrange(
            8 * i,
            8 * i + 8,
        ),
{
    lemma_material_offset(a, i);
    lemma_material_offset(b, i);
}

} // verus!
