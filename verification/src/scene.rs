//! The scene and its encoding into GPU buffers.
//!
//! A scene is a list of spheres and a list of materials. For the kernel it
//! becomes four buffers: the sphere records, the material records, one array
//! with the pixels of every texture, and the indices of the spheres that emit
//! light.

use vstd::prelude::*;
use crate::material::{spec_advance, GpuMaterial, RayCastMaterial};
use crate::sphere::Sphere;
use crate::texture::{Pixel, TextureDescriptor};
use crate::wire::{le_bytes, words_to_bytes};

verus! {

/// The largest number of spheres whose indices fit a word.
pub const MAX_SPHERES: u64 = 0x1_0000_0000;

/// What is to be rendered.
#[derive(Debug)]
pub struct Scene {
    pub spheres: Vec<Sphere>,
    pub materials: Vec<RayCastMaterial>,
}

/// The four scene buffers in byte form, ready for upload.
#[derive(Debug)]
pub struct SceneBuffers {
    /// Eight words per sphere.
    pub spheres: Vec<u8>,
    /// Eight words per material.
    pub materials: Vec<u8>,
    /// Three words per pixel of the global texture array.
    pub textures: Vec<u8>,
    /// One word per light.
    pub lights: Vec<u8>,
}

/// The global texture array: the pixels of every material's textures, in the
/// order of the materials.
pub open spec fn global_texture_data(materials: Seq<RayCastMaterial>) -> Seq<Pixel>
    decreases materials.len(),
{
    if materials.len() == 0 {
        Seq::empty()
    } else {
        global_texture_data(materials.drop_last()) + materials.last().pixels()
    }
}

/// The sum of the pixel counts of the materials' textures.
pub open spec fn pixel_total(materials: Seq<RayCastMaterial>) -> int
    decreases materials.len(),
{
    if materials.len() == 0 {
        0
    } else {
        pixel_total(materials.drop_last()) + materials.last().pixels().len()
    }
}

/// The length of the global texture array before material `i` is encoded.
pub open spec fn texture_offset(materials: Seq<RayCastMaterial>, i: int) -> int {
    global_texture_data(materials.take(i)).len() as int
}

/// Whether material `i` can be encoded at its offset: each of its textures
/// starts below [`crate::texture::EMPTY_TEXTURE_OFFSET`].
pub open spec fn encodable_in(materials: Seq<RayCastMaterial>, i: int) -> bool {
    materials[i].encodable_at(texture_offset(materials, i))
}

/// The material records: each material encoded at the offset that the
/// materials before it leave behind.
pub open spec fn gpu_materials(materials: Seq<RayCastMaterial>) -> Seq<GpuMaterial> {
    Seq::new(
        materials.len(),
        |i: int| materials[i].gpu_material(texture_offset(materials, i)),
    )
}

/// Whether sphere `i` is a light: its material is emissive.
pub open spec fn is_light(spheres: Seq<Sphere>, materials: Seq<RayCastMaterial>, i: int) -> bool {
    materials[spheres[i].material_idx as int].spec_is_emissive()
}

/// The indices of the lights among the spheres, in ascending order.
pub open spec fn light_indices(spheres: Seq<Sphere>, materials: Seq<RayCastMaterial>) -> Seq<u32>
    decreases spheres.len(),
{
    if spheres.len() == 0 {
        Seq::empty()
    } else {
        let before = light_indices(spheres.drop_last(), materials);
        if is_light(spheres, materials, spheres.len() - 1) {
            before.push((spheres.len() - 1) as u32)
        } else {
            before
        }
    }
}

/// The words of a run of sphere records.
pub open spec fn sphere_words(spheres: Seq<Sphere>) -> Seq<u32> {
    Seq::new(8 * spheres.len(), |j: int| spheres[j / 8].words()[j % 8])
}

/// The words of a run of material records.
pub open spec fn material_words(records: Seq<GpuMaterial>) -> Seq<u32> {
    Seq::new(8 * records.len(), |j: int| records[j / 8].words()[j % 8])
}

/// The words of a run of pixels: red, green, blue of each.
pub open spec fn pixel_words(pixels: Seq<Pixel>) -> Seq<u32> {
    Seq::new(3 * pixels.len(), |j: int| pixels[j / 3][j % 3].bits)
}

impl Scene {
    /// Every sphere names a material of the scene, and every texture holds
    /// one pixel for each of its points.
    pub open spec fn well_formed(&self) -> bool {
        &&& forall|i: int|
            0 <= i < self.spheres@.len() ==> (#[trigger] self.spheres@[i]).material_idx
                < self.materials@.len()
        &&& forall|i: int|
            0 <= i < self.materials@.len() ==> (#[trigger] self.materials@[i]).well_formed()
    }

    /// The scene fits the kernel's 32-bit indices: the index of every sphere
    /// fits a word, and every texture starts at an offset below
    /// [`crate::texture::EMPTY_TEXTURE_OFFSET`].
    pub open spec fn encodable(&self) -> bool {
        &&& self.spheres@.len() <= MAX_SPHERES
        &&& forall|i: int|
            0 <= i < self.materials@.len() ==> #[trigger] encodable_in(self.materials@, i)
    }

    /// Whether the scene is well formed.
    pub fn is_well_formed(&self) -> (ok: bool)
        ensures
            ok == self.well_formed(),
    {
        let mut i: usize = 0;
        while i < self.spheres.len()
            invariant
                i <= self.spheres@.len(),
                forall|k: int|
                    0 <= k < i ==> (#[trigger] self.spheres@[k]).material_idx
                        < self.materials@.len(),
            decreases self.spheres.len() - i,
        {
            if self.spheres[i].material_idx as usize >= self.materials.len() {
                return false;
            }
            i += 1;
        }
        let mut j: usize = 0;
        while j < self.materials.len()
            invariant
                j <= self.materials@.len(),
                forall|k: int|
                    0 <= k < self.spheres@.len() ==> (#[trigger] self.spheres@[k]).material_idx
                        < self.materials@.len(),
                forall|k: int| 0 <= k < j ==> (#[trigger] self.materials@[k]).well_formed(),
            decreases self.materials.len() - j,
        {
            if !self.materials[j].is_well_formed() {
                return false;
            }
            j += 1;
        }
        true
    }

    /// Whether the scene fits the kernel's 32-bit indices.
    pub fn is_encodable(&self) -> (ok: bool)
        ensures
            ok == self.encodable(),
    {
        if self.spheres.len() as u64 > MAX_SPHERES {
            return false;
        }
        let mut offset: u32 = 0;
        let mut i: usize = 0;
        while i < self.materials.len()
            invariant
                i <= self.materials@.len(),
                self.spheres@.len() <= MAX_SPHERES,
                offset == spec_advance(0, texture_offset(self.materials@, i as int)),
                forall|k: int| 0 <= k < i ==> #[trigger] encodable_in(self.materials@, k),
            decreases self.materials.len() - i,
        {
            proof {
                lemma_texture_offset_step(self.materials@, i as int);
                lemma_texture_offset_bound(self.materials@, i as int);
            }
            if !self.materials[i].is_encodable_at(offset) {
                assert(!encodable_in(self.materials@, i as int));
                return false;
            }
            assert(encodable_in(self.materials@, i as int));
            offset = self.materials[i].end_offset(offset);
            i += 1;
        }
        true
    }

    /// The material records and the global texture array of the scene.
    pub fn encode_materials(&self) -> (encoded: (Vec<GpuMaterial>, Vec<Pixel>))
        requires
            self.encodable(),
        ensures
            encoded.0@ == gpu_materials(self.materials@),
            encoded.1@ == global_texture_data(self.materials@),
    {
        let mut texture_data: Vec<Pixel> = Vec::new();
        let mut material_data: Vec<GpuMaterial> = Vec::with_capacity(self.materials.len());
        let mut i: usize = 0;
        while i < self.materials.len()
            invariant
                i <= self.materials@.len(),
                self.encodable(),
                texture_data@ == global_texture_data(self.materials@.take(i as int)),
                material_data@ == gpu_materials(self.materials@).take(i as int),
            decreases self.materials.len() - i,
        {
            proof {
                lemma_texture_offset_step(self.materials@, i as int);
                assert(encodable_in(self.materials@, i as int));
            }
            let gpu_material = self.materials[i].encode(&mut texture_data);
            material_data.push(gpu_material);
            assert(gpu_materials(self.materials@).take(i as int).push(gpu_material)
                =~= gpu_materials(self.materials@).take(i + 1));
            i += 1;
        }
        assert(self.materials@.take(i as int) =~= self.materials@);
        assert(gpu_materials(self.materials@).take(i as int) =~= gpu_materials(self.materials@));
        (material_data, texture_data)
    }

    /// The indices of the spheres that emit light, in ascending order.
    pub fn light_indices(&self) -> (lights: Vec<u32>)
        requires
            self.well_formed(),
            self.spheres@.len() <= MAX_SPHERES,
        ensures
            lights@ == light_indices(self.spheres@, self.materials@),
    {
        let mut lights: Vec<u32> = Vec::new();
        let mut i: usize = 0;
        while i < self.spheres.len()
            invariant
                i <= self.spheres@.len(),
                self.well_formed(),
                self.spheres@.len() <= MAX_SPHERES,
                lights@ == light_indices(self.spheres@.take(i as int), self.materials@),
            decreases self.spheres.len() - i,
        {
            proof {
                assert(self.spheres@.take(i + 1).drop_last() =~= self.spheres@.take(i as int));
                assert(self.spheres@[i as int].material_idx < self.materials@.len());
            }
            let material = &self.materials[self.spheres[i].material_idx as usize];
            if material.is_emissive() {
                lights.push(i as u32);
            }
            i += 1;
        }
        assert(self.spheres@.take(i as int) =~= self.spheres@);
        lights
    }

    /// Encodes the scene into its four buffers.
    pub fn encode(&self) -> (buffers: SceneBuffers)
        requires
            self.well_formed(),
            self.encodable(),
        ensures
            buffers.spheres@ == le_bytes(sphere_words(self.spheres@)),
            buffers.materials@ == le_bytes(material_words(gpu_materials(self.materials@))),
            buffers.textures@ == le_bytes(pixel_words(global_texture_data(self.materials@))),
            buffers.lights@ == le_bytes(light_indices(self.spheres@, self.materials@)),
            buffers.spheres@.len() == 32 * self.spheres@.len(),
            buffers.materials@.len() == 32 * self.materials@.len(),
            buffers.textures@.len() == 12 * pixel_total(self.materials@),
            buffers.lights@.len() == 4 * light_indices(self.spheres@, self.materials@).len(),
    {
        let spheres = encode_spheres(&self.spheres);
        let (material_data, texture_data) = self.encode_materials();
        let materials = encode_material_records(&material_data);
        let textures = encode_pixels(&texture_data);
        let lights = words_to_bytes(&self.light_indices());
        proof {
            lemma_pixel_total(self.materials@);
        }
        SceneBuffers { spheres, materials, textures, lights }
    }
}

/// The byte form of a run of sphere records.
pub fn encode_spheres(spheres: &Vec<Sphere>) -> (bytes: Vec<u8>)
    ensures
        bytes@ == le_bytes(sphere_words(spheres@)),
        bytes@.len() == 32 * spheres@.len(),
{
    let mut words: Vec<u32> = Vec::new();
    let mut i: usize = 0;
    while i < spheres.len()
        invariant
            i <= spheres@.len(),
            words@ == sphere_words(spheres@.take(i as int)),
        decreases spheres.len() - i,
    {
        spheres[i].push_words(&mut words);
        assert(words@ =~= sphere_words(spheres@.take(i + 1)));
        i += 1;
    }
    assert(spheres@.take(i as int) =~= spheres@);
    words_to_bytes(&words)
}

/// The byte form of a run of material records.
pub fn encode_material_records(records: &Vec<GpuMaterial>) -> (bytes: Vec<u8>)
    ensures
        bytes@ == le_bytes(material_words(records@)),
        bytes@.len() == 32 * records@.len(),
{
    let mut words: Vec<u32> = Vec::new();
    let mut i: usize = 0;
    while i < records.len()
        invariant
            i <= records@.len(),
            words@ == material_words(records@.take(i as int)),
        decreases records.len() - i,
    {
        records[i].push_words(&mut words);
        assert(words@ =~= material_words(records@.take(i + 1)));
        i += 1;
    }
    assert(records@.take(i as int) =~= records@);
    words_to_bytes(&words)
}

/// The byte form of a run of pixels.
pub fn encode_pixels(pixels: &Vec<Pixel>) -> (bytes: Vec<u8>)
    ensures
        bytes@ == le_bytes(pixel_words(pixels@)),
        bytes@.len() == 12 * pixels@.len(),
{
    let mut words: Vec<u32> = Vec::new();
    let mut i: usize = 0;
    while i < pixels.len()
        invariant
            i <= pixels@.len(),
            words@ == pixel_words(pixels@.take(i as int)),
        decreases pixels.len() - i,
    {
        let pixel: Pixel = pixels[i];
        words.push(pixel[0].bits);
        words.push(pixel[1].bits);
        words.push(pixel[2].bits);
        assert(words@ =~= pixel_words(pixels@.take(i + 1)));
        i += 1;
    }
    assert(pixels@.take(i as int) =~= pixels@);
    assert(words@.len() == 3 * pixels@.len());
    words_to_bytes(&words)
}

/// Encoding material `i` moves the end of the global texture array from its
/// offset by the number of its pixels.
pub proof fn lemma_texture_offset_step(materials: Seq<RayCastMaterial>, i: int)
    requires
        0 <= i < materials.len(),
    ensures
        texture_offset(materials, i + 1) == texture_offset(materials, i)
            + materials[i].pixels().len(),
        global_texture_data(materials.take(i + 1)) == global_texture_data(materials.take(i))
            + materials[i].pixels(),
{
    assert(materials.take(i + 1).drop_last() =~= materials.take(i));
    assert(materials.take(i + 1).last() == materials[i]);
}

/// No offset exceeds the length of the whole array.
pub proof fn lemma_texture_offset_bound(materials: Seq<RayCastMaterial>, i: int)
    requires
        0 <= i <= materials.len(),
    ensures
        0 <= texture_offset(materials, i) <= global_texture_data(materials).len(),
        global_texture_data(materials).subrange(0, texture_offset(materials, i))
            == global_texture_data(materials.take(i)),
    decreases materials.len() - i,
{
    if i == materials.len() {
        assert(materials.take(i) =~= materials);
        assert(global_texture_data(materials).subrange(0, texture_offset(materials, i))
            =~= global_texture_data(materials));
    } else {
        lemma_texture_offset_bound(materials, i + 1);
        lemma_texture_offset_step(materials, i);
        let whole = global_texture_data(materials);
        let longer = global_texture_data(materials.take(i + 1));
        let shorter = global_texture_data(materials.take(i));
        assert(whole.subrange(0, shorter.len() as int) =~= longer.subrange(
            0,
            shorter.len() as int,
        ));
        assert(longer.subrange(0, shorter.len() as int) =~= shorter);
    }
}

/// The global texture array has as many pixels as the textures have together.
pub proof fn lemma_pixel_total(materials: Seq<RayCastMaterial>)
    ensures
        global_texture_data(materials).len() == pixel_total(materials),
    decreases materials.len(),
{
    if materials.len() > 0 {
        lemma_pixel_total(materials.drop_last());
    }
}

/// Whether every non-empty descriptor of `first` ends at or before the start
/// of every non-empty descriptor of `second`.
pub open spec fn lies_before(first: GpuMaterial, second: GpuMaterial) -> bool {
    &&& descriptor_lies_before(first.desc1, second.desc1)
    &&& descriptor_lies_before(first.desc1, second.desc2)
    &&& descriptor_lies_before(first.desc2, second.desc1)
    &&& descriptor_lies_before(first.desc2, second.desc2)
}

/// Whether `first` ends at or before the start of `second`, where neither is
/// empty.
pub open spec fn descriptor_lies_before(first: TextureDescriptor, second: TextureDescriptor) -> bool {
    !first.is_empty() && !second.is_empty() ==> first.end() <= second.offset
}

/// Whether all materials are well formed and each of their textures starts
/// below [`crate::texture::EMPTY_TEXTURE_OFFSET`].
pub open spec fn materials_encodable(materials: Seq<RayCastMaterial>) -> bool {
    &&& forall|k: int| 0 <= k < materials.len() ==> (#[trigger] materials[k]).well_formed()
    &&& forall|k: int| 0 <= k < materials.len() ==> #[trigger] encodable_in(materials, k)
}

/// The offsets grow with the materials: material `i` ends at or before the
/// offset of every later material.
pub proof fn lemma_texture_offsets_ascend(materials: Seq<RayCastMaterial>, i: int, j: int)
    requires
        0 <= i < j <= materials.len(),
    ensures
        texture_offset(materials, i) + materials[i].pixels().len() <= texture_offset(materials, j),
    decreases j - i,
{
    lemma_texture_offset_step(materials, i);
    if i + 1 < j {
        lemma_texture_offsets_ascend(materials, i + 1, j);
    }
}

/// Each descriptor of a material record finds exactly the pixels of its
/// texture in the global texture array; slots without a texture are empty.
/// The first descriptor of a checkerboard is its odd texture, the second its
/// even one, and the first ends where the second starts.
pub proof fn lemma_descriptors_locate_textures(materials: Seq<RayCastMaterial>, i: int)
    requires
        materials_encodable(materials),
        0 <= i < materials.len(),
    ensures
        ({
            let record = gpu_materials(materials)[i];
            let data = global_texture_data(materials);
            match materials[i] {
                RayCastMaterial::Lambertian { albedo } => record.desc1.locates(&albedo, data)
                    && record.desc2.is_empty(),
                RayCastMaterial::Metal { albedo, .. } => record.desc1.locates(&albedo, data)
                    && record.desc2.is_empty(),
                RayCastMaterial::Dielectric { .. } => record.desc1.is_empty()
                    && record.desc2.is_empty(),
                RayCastMaterial::Checkerboard { even, odd } => record.desc1.locates(&odd, data)
                    && record.desc2.locates(&even, data) && record.desc1.end()
                    == record.desc2.offset,
                RayCastMaterial::Emissive { emit } => record.desc1.locates(&emit, data)
                    && record.desc2.is_empty(),
            }
        }),
        gpu_materials(materials)[i].desc1.is_empty() || texture_offset(materials, i)
            <= gpu_materials(materials)[i].desc1.offset,
        gpu_materials(materials)[i].desc2.is_empty() || texture_offset(materials, i)
            <= gpu_materials(materials)[i].desc2.offset,
        gpu_materials(materials)[i].desc1.is_empty() || gpu_materials(materials)[i].desc1.end()
            <= texture_offset(materials, i + 1),
        gpu_materials(materials)[i].desc2.is_empty() || gpu_materials(materials)[i].desc2.end()
            <= texture_offset(materials, i + 1),
{
    let data = global_texture_data(materials);
    let start = texture_offset(materials, i);
    let stop = texture_offset(materials, i + 1);
    let own = materials[i].pixels();
    lemma_texture_offset_step(materials, i);
    lemma_texture_offset_bound(materials, i);
    lemma_texture_offset_bound(materials, i + 1);
    assert(materials[i].well_formed());
    assert(encodable_in(materials, i));
    assert(data.subrange(start, stop) =~= own) by {
        assert(data.subrange(0, stop) == global_texture_data(materials.take(i)) + own);
        assert forall|k: int| 0 <= k < own.len() implies data.subrange(start, stop)[k]
            == own[k] by {
            assert(data.subrange(0, stop)[start + k] == own[k]);
        }
    }
    match materials[i] {
        RayCastMaterial::Checkerboard { even, odd } => {
            let middle = start + odd@.len();
            assert(data.subrange(start, middle) =~= odd@) by {
                assert forall|k: int| 0 <= k < odd@.len() implies data.subrange(start, middle)[k]
                    == odd@[k] by {
                    assert(data.subrange(start, stop)[k] == own[k]);
                }
            }
            assert(data.subrange(middle, stop) =~= even@) by {
                assert forall|k: int| 0 <= k < even@.len() implies data.subrange(middle, stop)[k]
                    == even@[k] by {
                    assert(data.subrange(start, stop)[odd@.len() + k] == own[odd@.len() + k]);
                }
            }
        },
        _ => {},
    }
}

/// The textures of different materials never overlap in the global texture
/// array: what an earlier material's descriptors span ends before anything of
/// a later material starts.
pub proof fn lemma_descriptors_never_overlap(materials: Seq<RayCastMaterial>, i: int, j: int)
    requires
        materials_encodable(materials),
        0 <= i < j < materials.len(),
    ensures
        lies_before(gpu_materials(materials)[i], gpu_materials(materials)[j]),
{
    lemma_descriptors_locate_textures(materials, i);
    lemma_descriptors_locate_textures(materials, j);
    lemma_texture_offset_step(materials, i);
    lemma_texture_offsets_ascend(materials, i, j);
}

/// The light indices are exactly the indices of the spheres whose material is
/// emissive, each once, in ascending order.
pub proof fn lemma_light_indices(spheres: Seq<Sphere>, materials: Seq<RayCastMaterial>)
    requires
        spheres.len() <= MAX_SPHERES,
    ensures
        light_indices(spheres, materials).len() <= spheres.len(),
        forall|k: int|
            0 <= k < light_indices(spheres, materials).len() ==> {
                let i = #[trigger] light_indices(spheres, materials)[k];
                i < spheres.len() && is_light(spheres, materials, i as int)
            },
        forall|i: int|
            0 <= i < spheres.len() && is_light(spheres, materials, i) ==> light_indices(
                spheres,
                materials,
            ).contains(i as u32),
        forall|k: int, l: int|
            0 <= k < l < light_indices(spheres, materials).len() ==> light_indices(
                spheres,
                materials,
            )[k] < light_indices(spheres, materials)[l],
    decreases spheres.len(),
{
    if spheres.len() > 0 {
        let shorter = spheres.drop_last();
        let before = light_indices(shorter, materials);
        let lights = light_indices(spheres, materials);
        let last = spheres.len() - 1;
        lemma_light_indices(shorter, materials);
        assert forall|i: int| 0 <= i < shorter.len() implies is_light(shorter, materials, i)
            == is_light(spheres, materials, i) by {
            assert(shorter[i] == spheres[i]);
        }
        assert forall|k: int| 0 <= k < lights.len() implies {
            let i = #[trigger] lights[k];
            i < spheres.len() && is_light(spheres, materials, i as int)
        } by {
            if k < before.len() {
                assert(lights[k] == before[k]);
            }
        }
        assert forall|i: int| 0 <= i < spheres.len() && is_light(spheres, materials, i) implies lights.contains(
            i as u32,
        ) by {
            if i < last {
                assert(before.contains(i as u32));
                let k = choose|k: int| 0 <= k < before.len() && before[k] == i as u32;
                assert(lights[k] == i as u32);
            } else {
                assert(lights[lights.len() - 1] == i as u32);
            }
        }
        assert forall|k: int, l: int| 0 <= k < l < lights.len() implies lights[k] < lights[l] by {
            assert(lights[k] == before[k]);
            if l < before.len() {
                assert(lights[l] == before[l]);
            }
        }
    }
}

} // verus!
