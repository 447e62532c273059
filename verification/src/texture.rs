//! Textures and the descriptors by which the kernel finds them.
//!
//! All textures of a scene end up in one array of RGB triples. A
//! [`TextureDescriptor`] says where in that array one texture starts and what
//! its dimensions are.

use vstd::prelude::*;
use crate::scalar::Scalar;

verus! {

/// One RGB triple.
pub type Pixel = [Scalar; 3];

/// The offset that marks a descriptor as empty.
pub const EMPTY_TEXTURE_OFFSET: u32 = 0xffff_ffff;

/// Where a texture lies in the global texture array: three words.
#[derive(Clone, Copy, Debug, PartialEq, Eq, Structural)]
pub struct TextureDescriptor {
    pub width: u32,
    pub height: u32,
    /// Index of the texture's first pixel in the global array, or
    /// [`EMPTY_TEXTURE_OFFSET`].
    pub offset: u32,
}

impl TextureDescriptor {
    /// Whether the descriptor refers to no texture.
    pub open spec fn is_empty(self) -> bool {
        self.offset == EMPTY_TEXTURE_OFFSET
    }

    /// The number of pixels that the descriptor spans.
    pub open spec fn pixel_count(self) -> int {
        self.width * self.height
    }

    /// The index just past the descriptor's last pixel.
    pub open spec fn end(self) -> int {
        self.offset + self.pixel_count()
    }

    /// The record as words, in field order.
    pub open spec fn words(self) -> Seq<u32> {
        seq![self.width, self.height, self.offset]
    }

    /// Whether the descriptor names exactly the pixels of `texture` inside
    /// `data`.
    pub open spec fn locates(self, texture: &Texture, data: Seq<Pixel>) -> bool {
        &&& !self.is_empty()
        &&& self.width == texture.spec_dimensions().0
        &&& self.height == texture.spec_dimensions().1
        &&& self.end() <= data.len()
        &&& data.subrange(self.offset as int, self.end()) == texture@
    }

    /// The descriptor of a material slot that holds no texture.
    pub fn empty() -> (descriptor: TextureDescriptor)
        ensures
            descriptor.width == 0,
            descriptor.height == 0,
            descriptor.offset == EMPTY_TEXTURE_OFFSET,
            descriptor.is_empty(),
    {
        TextureDescriptor { width: 0, height: 0, offset: EMPTY_TEXTURE_OFFSET }
    }
}

/// The number of points in a rectangle of the given width and height.
pub fn area(width: u32, height: u32) -> (count: u64)
    ensures
        count == width * height,
{
    assert(width * height <= 0xffff_ffff * 0xffff_ffff) by (nonlinear_arith)
        requires
            0 <= width <= 0xffff_ffff,
            0 <= height <= 0xffff_ffff,
    ;
    (width as u64) * (height as u64)
}

/// A rectangle of RGB triples, row by row.
#[derive(Debug)]
pub struct Texture {
    dimensions: (u32, u32),
    data: Vec<Pixel>,
}

impl View for Texture {
    type V = Seq<Pixel>;

    /// The pixels, row by row.
    closed spec fn view(&self) -> Seq<Pixel> {
        self.data@
    }
}

impl Texture {
    /// Width and height in pixels.
    pub closed spec fn spec_dimensions(&self) -> (u32, u32) {
        self.dimensions
    }

    /// A texture holds one pixel for each point of its rectangle.
    pub open spec fn well_formed(&self) -> bool {
        self@.len() == self.spec_dimensions().0 * self.spec_dimensions().1
    }

    /// A texture of a single pixel of the given colour.
    pub fn new_from_color(color: Pixel) -> (texture: Texture)
        ensures
            texture.spec_dimensions() == (1u32, 1u32),
            texture@ == seq![color],
            texture.well_formed(),
    {
        let mut data: Vec<Pixel> = Vec::new();
        data.push(color);
        Texture { dimensions: (1, 1), data }
    }

    /// A texture of the given dimensions over decoded pixels, if there is one
    /// pixel for each point.
    pub fn new_from_pixels(dimensions: (u32, u32), data: Vec<Pixel>) -> (texture: Option<Texture>)
        ensures
            texture is Some <==> data@.len() == dimensions.0 * dimensions.1,
            texture matches Some(t) ==> {
                &&& t.spec_dimensions() == dimensions
                &&& t@ == data@
                &&& t.well_formed()
            },
    {
        if data.len() as u64 == area(dimensions.0, dimensions.1) {
            Some(Texture { dimensions, data })
        } else {
            None
        }
    }

    /// The pixels, row by row.
    pub fn as_slice(&self) -> (pixels: &[Pixel])
        ensures
            pixels@ == self@,
    {
        self.data.as_slice()
    }

    /// Width and height in pixels.
    pub fn dimensions(&self) -> (dimensions: (u32, u32))
        ensures
            dimensions == self.spec_dimensions(),
    {
        self.dimensions
    }

    /// Whether the texture holds one pixel for each point of its rectangle.
    pub fn is_well_formed(&self) -> (ok: bool)
        ensures
            ok == self.well_formed(),
    {
        self.data.len() as u64 == area(self.dimensions.0, self.dimensions.1)
    }
}

} // verus!
