//! Materials and their GPU records.
//!
//! A material is one of a closed set of variants, each owning the textures
//! it needs. On the GPU it is a record of eight words: a type tag, two texture
//! descriptors and one scalar parameter. Encoding a material appends its
//! textures to the global texture array and notes where they went.

use vstd::prelude::*;
use crate::scalar::{Scalar, ZERO_BITS};
use crate::texture::{Pixel, Texture, TextureDescriptor, EMPTY_TEXTURE_OFFSET};

verus! {

/// Type tag of [`RayCastMaterial::Lambertian`].
pub const LAMBERTIAN_ID: u32 = 0;

/// Type tag of [`RayCastMaterial::Metal`].
pub const METAL_ID: u32 = 1;

/// Type tag of [`RayCastMaterial::Dielectric`].
pub const DIELECTRIC_ID: u32 = 2;

/// Type tag of [`RayCastMaterial::Checkerboard`].
pub const CHECKERBOARD_ID: u32 = 3;

/// Type tag of [`RayCastMaterial::Emissive`].
pub const EMISSIVE_ID: u32 = 4;

/// The surface of a sphere.
#[derive(Debug)]
pub enum RayCastMaterial {
    Lambertian { albedo: Texture },
    Metal { albedo: Texture, fuzz: Scalar },
    Dielectric { refraction_index: Scalar },
    Checkerboard { even: Texture, odd: Texture },
    Emissive { emit: Texture },
}

/// The descriptor of `texture` when its first pixel lands at `offset`.
pub open spec fn descriptor_at(texture: &Texture, offset: int) -> TextureDescriptor {
    TextureDescriptor {
        width: texture.spec_dimensions().0,
        height: texture.spec_dimensions().1,
        offset: offset as u32,
    }
}

/// The GPU record of a material: eight words.
#[derive(Clone, Copy, Debug, PartialEq, Eq, Structural)]
pub struct GpuMaterial {
    /// The type tag of the variant.
    pub id: u32,
    /// The first texture of the variant, if it has one.
    pub desc1: TextureDescriptor,
    /// The second texture of the variant, if it has one.
    pub desc2: TextureDescriptor,
    /// Fuzz of a metal, refraction index of a dielectric, else `0.0`.
    pub x: Scalar,
}

impl GpuMaterial {
    /// The record as words, in field order.
    pub open spec fn words(self) -> Seq<u32> {
        seq![
            self.id,
            self.desc1.width,
            self.desc1.height,
            self.desc1.offset,
            self.desc2.width,
            self.desc2.height,
            self.desc2.offset,
            self.x.bits,
        ]
    }

    /// Appends the record to a run of words.
    pub fn push_words(&self, out: &mut Vec<u32>)
        ensures
            final(out)@ == old(out)@ + self.words(),
    {
        out.push(self.id);
        out.push(self.desc1.width);
        out.push(self.desc1.height);
        out.push(self.desc1.offset);
        out.push(self.desc2.width);
        out.push(self.desc2.height);
        out.push(self.desc2.offset);
        out.push(self.x.bits);
        assert(out@ =~= old(out)@ + self.words());
    }

    /// The record of a diffuse material; appends `albedo` to the global array.
    pub fn lambertian(albedo: &Texture, global_texture_data: &mut Vec<Pixel>) -> (material:
        GpuMaterial)
        requires
            old(global_texture_data)@.len() < EMPTY_TEXTURE_OFFSET,
        ensures
            final(global_texture_data)@ == old(global_texture_data)@ + albedo@,
            material == (GpuMaterial {
                id: LAMBERTIAN_ID,
                desc1: descriptor_at(albedo, old(global_texture_data)@.len() as int),
                desc2: TextureDescriptor { width: 0, height: 0, offset: EMPTY_TEXTURE_OFFSET },
                x: Scalar { bits: ZERO_BITS },
            }),
    {
        GpuMaterial {
            id: LAMBERTIAN_ID,
            desc1: Self::append_to_global_texture_data(albedo, global_texture_data),
            desc2: TextureDescriptor::empty(),
            x: Scalar::zero(),
        }
    }

    /// The record of a metal; appends `albedo` to the global array.
    pub fn metal(albedo: &Texture, fuzz: Scalar, global_texture_data: &mut Vec<Pixel>) -> (material:
        GpuMaterial)
        requires
            old(global_texture_data)@.len() < EMPTY_TEXTURE_OFFSET,
        ensures
            final(global_texture_data)@ == old(global_texture_data)@ + albedo@,
            material == (GpuMaterial {
                id: METAL_ID,
                desc1: descriptor_at(albedo, old(global_texture_data)@.len() as int),
                desc2: TextureDescriptor { width: 0, height: 0, offset: EMPTY_TEXTURE_OFFSET },
                x: fuzz,
            }),
    {
        GpuMaterial {
            id: METAL_ID,
            desc1: Self::append_to_global_texture_data(albedo, global_texture_data),
            desc2: TextureDescriptor::empty(),
            x: fuzz,
        }
    }

    /// The record of a dielectric, which has no texture.
    pub fn dielectric(refraction_index: Scalar) -> (material: GpuMaterial)
        ensures
            material == (GpuMaterial {
                id: DIELECTRIC_ID,
                desc1: TextureDescriptor { width: 0, height: 0, offset: EMPTY_TEXTURE_OFFSET },
                desc2: TextureDescriptor { width: 0, height: 0, offset: EMPTY_TEXTURE_OFFSET },
                x: refraction_index,
            }),
    {
        GpuMaterial {
            id: DIELECTRIC_ID,
            desc1: TextureDescriptor::empty(),
            desc2: TextureDescriptor::empty(),
            x: refraction_index,
        }
    }

    /// The record of a checkerboard; appends `first`, then `second`, to the
    /// global array.
    pub fn checkerboard(
        first: &Texture,
        second: &Texture,
        global_texture_data: &mut Vec<Pixel>,
    ) -> (material: GpuMaterial)
        requires
            old(global_texture_data)@.len() + first@.len() < EMPTY_TEXTURE_OFFSET,
        ensures
            final(global_texture_data)@ == old(global_texture_data)@ + first@ + second@,
            material == (GpuMaterial {
                id: CHECKERBOARD_ID,
                desc1: descriptor_at(first, old(global_texture_data)@.len() as int),
                desc2: descriptor_at(
                    second,
                    (old(global_texture_data)@.len() + first@.len()) as int,
                ),
                x: Scalar { bits: ZERO_BITS },
            }),
    {
        let desc1 = Self::append_to_global_texture_data(first, global_texture_data);
        let desc2 = Self::append_to_global_texture_data(second, global_texture_data);
        GpuMaterial { id: CHECKERBOARD_ID, desc1, desc2, x: Scalar::zero() }
    }

    /// The record of a light source; appends `emit` to the global array.
    pub fn emissive(emit: &Texture, global_texture_data: &mut Vec<Pixel>) -> (material: GpuMaterial)
        requires
            old(global_texture_data)@.len() < EMPTY_TEXTURE_OFFSET,
        ensures
            final(global_texture_data)@ == old(global_texture_data)@ + emit@,
            material == (GpuMaterial {
                id: EMISSIVE_ID,
                desc1: descriptor_at(emit, old(global_texture_data)@.len() as int),
                desc2: TextureDescriptor { width: 0, height: 0, offset: EMPTY_TEXTURE_OFFSET },
                x: Scalar { bits: ZERO_BITS },
            }),
    {
        GpuMaterial {
            id: EMISSIVE_ID,
            desc1: Self::append_to_global_texture_data(emit, global_texture_data),
            desc2: TextureDescriptor::empty(),
            x: Scalar::zero(),
        }
    }

    /// Appends the pixels of `texture` to the global array and returns the
    /// descriptor that finds them there. What the array held stays in place.
    pub fn append_to_global_texture_data(
        texture: &Texture,
        global_texture_data: &mut Vec<Pixel>,
    ) -> (descriptor: TextureDescriptor)
        requires
            old(global_texture_data)@.len() < EMPTY_TEXTURE_OFFSET,
        ensures
            final(global_texture_data)@ == old(global_texture_data)@ + texture@,
            descriptor == descriptor_at(texture, old(global_texture_data)@.len() as int),
            !descriptor.is_empty(),
    {
        let dimensions = texture.dimensions();
        let offset: u32 = global_texture_data.len() as u32;
        let pixels = texture.as_slice();
        let ghost before = global_texture_data@;
        let mut i: usize = 0;
        while i < pixels.len()
            invariant
                i <= pixels.len(),
                pixels@ == texture@,
                global_texture_data@ == before + texture@.take(i as int),
            decreases pixels.len() - i,
        {
            global_texture_data.push(pixels[i]);
            assert(texture@.take(i as int).push(texture@[i as int]) =~= texture@.take(i + 1));
            i += 1;
        }
        assert(texture@.take(i as int) =~= texture@);
        TextureDescriptor { width: dimensions.0, height: dimensions.1, offset }
    }
}

/// `offset + count`, capped at [`EMPTY_TEXTURE_OFFSET`].
pub open spec fn spec_advance(offset: int, count: int) -> int {
    if offset + count < EMPTY_TEXTURE_OFFSET {
        offset + count
    } else {
        EMPTY_TEXTURE_OFFSET as int
    }
}

/// `offset + count`, capped at [`EMPTY_TEXTURE_OFFSET`].
pub fn advance(offset: u32, count: usize) -> (end: u32)
    ensures
        end == spec_advance(offset as int, count as int),
{
    if count >= EMPTY_TEXTURE_OFFSET as usize {
        EMPTY_TEXTURE_OFFSET
    } else {
        let sum: u64 = offset as u64 + count as u64;
        if sum < EMPTY_TEXTURE_OFFSET as u64 {
            sum as u32
        } else {
            EMPTY_TEXTURE_OFFSET
        }
    }
}

impl RayCastMaterial {
    /// Whether spheres of this material are light sources.
    pub open spec fn spec_is_emissive(&self) -> bool {
        self is Emissive
    }

    /// The textures of this material hold one pixel for each of their points.
    pub open spec fn well_formed(&self) -> bool {
        match self {
            RayCastMaterial::Lambertian { albedo } => albedo.well_formed(),
            RayCastMaterial::Metal { albedo, .. } => albedo.well_formed(),
            RayCastMaterial::Dielectric { .. } => true,
            RayCastMaterial::Checkerboard { even, odd } => even.well_formed() && odd.well_formed(),
            RayCastMaterial::Emissive { emit } => emit.well_formed(),
        }
    }

    /// Whether the material can be encoded when the global texture array
    /// holds `offset` pixels: each of its textures then starts at an offset
    /// below [`EMPTY_TEXTURE_OFFSET`], so that the offset fits a word and is
    /// not taken for the mark of an empty descriptor.
    pub open spec fn encodable_at(&self, offset: int) -> bool {
        match self {
            RayCastMaterial::Dielectric { .. } => true,
            RayCastMaterial::Checkerboard { odd, .. } => offset + odd@.len()
                < EMPTY_TEXTURE_OFFSET,
            _ => offset < EMPTY_TEXTURE_OFFSET,
        }
    }

    /// The pixels that this material adds to the global texture array, in the
    /// order in which they are added. A checkerboard adds its odd texture
    /// first.
    pub open spec fn pixels(&self) -> Seq<Pixel> {
        match self {
            RayCastMaterial::Lambertian { albedo } => albedo@,
            RayCastMaterial::Metal { albedo, .. } => albedo@,
            RayCastMaterial::Dielectric { .. } => Seq::empty(),
            RayCastMaterial::Checkerboard { even, odd } => odd@ + even@,
            RayCastMaterial::Emissive { emit } => emit@,
        }
    }

    /// The GPU record of this material when the global texture array holds
    /// `offset` pixels before its textures are added.
    pub open spec fn gpu_material(&self, offset: int) -> GpuMaterial {
        let none = TextureDescriptor { width: 0, height: 0, offset: EMPTY_TEXTURE_OFFSET };
        let zero = Scalar { bits: ZERO_BITS };
        match self {
            RayCastMaterial::Lambertian { albedo } => GpuMaterial {
                id: LAMBERTIAN_ID,
                desc1: descriptor_at(albedo, offset),
                desc2: none,
                x: zero,
            },
            RayCastMaterial::Metal { albedo, fuzz } => GpuMaterial {
                id: METAL_ID,
                desc1: descriptor_at(albedo, offset),
                desc2: none,
                x: *fuzz,
            },
            RayCastMaterial::Dielectric { refraction_index } => GpuMaterial {
                id: DIELECTRIC_ID,
                desc1: none,
                desc2: none,
                x: *refraction_index,
            },
            RayCastMaterial::Checkerboard { even, odd } => GpuMaterial {
                id: CHECKERBOARD_ID,
                desc1: descriptor_at(odd, offset),
                desc2: descriptor_at(even, offset + odd@.len()),
                x: zero,
            },
            RayCastMaterial::Emissive { emit } => GpuMaterial {
                id: EMISSIVE_ID,
                desc1: descriptor_at(emit, offset),
                desc2: none,
                x: zero,
            },
        }
    }

    /// Whether spheres of this material are light sources.
    #[verifier::when_used_as_spec(spec_is_emissive)]
    pub fn is_emissive(&self) -> (emissive: bool)
        ensures
            emissive == self.spec_is_emissive(),
    {
        match self {
            RayCastMaterial::Emissive { .. } => true,
            _ => false,
        }
    }

    /// Whether the textures of this material are well formed.
    pub fn is_well_formed(&self) -> (ok: bool)
        ensures
            ok == self.well_formed(),
    {
        match self {
            RayCastMaterial::Lambertian { albedo } => albedo.is_well_formed(),
            RayCastMaterial::Metal { albedo, .. } => albedo.is_well_formed(),
            RayCastMaterial::Dielectric { .. } => true,
            RayCastMaterial::Checkerboard { even, odd } => even.is_well_formed()
                && odd.is_well_formed(),
            RayCastMaterial::Emissive { emit } => emit.is_well_formed(),
        }
    }

    /// Whether the material can be encoded at `offset`, where an `offset` of
    /// [`EMPTY_TEXTURE_OFFSET`] stands for every larger one too.
    pub fn is_encodable_at(&self, offset: u32) -> (ok: bool)
        ensures
            ok == self.encodable_at(offset as int),
    {
        match self {
            RayCastMaterial::Dielectric { .. } => true,
            RayCastMaterial::Checkerboard { odd, .. } => advance(offset, odd.as_slice().len())
                < EMPTY_TEXTURE_OFFSET,
            _ => offset < EMPTY_TEXTURE_OFFSET,
        }
    }

    /// The length of the global texture array after this material is encoded
    /// at `offset`, capped at [`EMPTY_TEXTURE_OFFSET`].
    pub fn end_offset(&self, offset: u32) -> (end: u32)
        ensures
            end == spec_advance(offset as int, self.pixels().len() as int),
    {
        match self {
            RayCastMaterial::Lambertian { albedo } => advance(offset, albedo.as_slice().len()),
            RayCastMaterial::Metal { albedo, .. } => advance(offset, albedo.as_slice().len()),
            RayCastMaterial::Dielectric { .. } => advance(offset, 0),
            RayCastMaterial::Checkerboard { even, odd } => advance(
                advance(offset, odd.as_slice().len()),
                even.as_slice().len(),
            ),
            RayCastMaterial::Emissive { emit } => advance(offset, emit.as_slice().len()),
        }
    }

    /// Encodes this material: appends its textures to the global array and
    /// returns its GPU record.
    pub fn encode(&self, global_texture_data: &mut Vec<Pixel>) -> (material: GpuMaterial)
        requires
            self.encodable_at(old(global_texture_data)@.len() as int),
        ensures
            final(global_texture_data)@ == old(global_texture_data)@ + self.pixels(),
            material == self.gpu_material(old(global_texture_data)@.len() as int),
    {
        match self {
            RayCastMaterial::Lambertian { albedo } => GpuMaterial::lambertian(
                albedo,
                global_texture_data,
            ),
            RayCastMaterial::Metal { albedo, fuzz } => GpuMaterial::metal(
                albedo,
                *fuzz,
                global_texture_data,
            ),
            RayCastMaterial::Dielectric { refraction_index } => {
                assert(global_texture_data@ + Seq::<Pixel>::empty() =~= global_texture_data@);
                GpuMaterial::dielectric(*refraction_index)
            },
            RayCastMaterial::Checkerboard { even, odd } => {
                assert(old(global_texture_data)@ + odd@ + even@ =~= old(global_texture_data)@ + (
                odd@ + even@));
                GpuMaterial::checkerboard(odd, even, global_texture_data)
            },
            RayCastMaterial::Emissive { emit } => GpuMaterial::emissive(emit, global_texture_data),
        }
    }
}

} // verus!
