//! The binding arrangement that the kernel expects.
//!
//! The kernel reads ten buffers in four binding groups. Which buffer sits in
//! which group under which binding index, of what kind it is and which shader
//! stage sees it, is fixed here once.

use vstd::prelude::*;
use crate::scalar::Scalar;
use crate::wire::{le_bytes, words_to_bytes};

verus! {

/// Number of binding groups.
pub const BIND_GROUP_COUNT: u32 = 4;

/// Size of the frame data buffer: viewport width, viewport height and frame
/// number, rounded up to 16 bytes.
pub const FRAME_DATA_BUFFER_BYTES: u64 = 16;

/// Bytes per pixel of the accumulation image: three scalars.
pub const IMAGE_PIXEL_BYTES: u64 = 12;

/// Size of [`VertexUniforms`] in a buffer.
pub const VERTEX_UNIFORMS_BYTES: u64 = 128;

/// The shader stage that sees a buffer.
#[derive(Clone, Copy, Debug, PartialEq, Eq, Structural)]
pub enum ShaderStage {
    Vertex,
    Fragment,
}

/// How a buffer is bound.
#[derive(Clone, Copy, Debug, PartialEq, Eq, Structural)]
pub enum BufferKind {
    Uniform,
    Storage { read_only: bool },
}

/// One of the ten buffers of the kernel.
#[derive(Clone, Copy, Debug, PartialEq, Eq, Structural)]
pub enum Slot {
    /// The transform of the full-screen quad.
    VertexUniforms,
    /// Viewport size and frame number.
    FrameData,
    /// The accumulation image, which the kernel reads and writes.
    Image,
    Camera,
    Sampling,
    SkyState,
    Spheres,
    Materials,
    Textures,
    Lights,
}

impl Slot {
    /// The binding group of the slot: 0 holds the quad transform, 1 the image
    /// and the frame data, 2 the per-frame parameters, 3 the scene.
    pub open spec fn spec_group(self) -> u32 {
        match self {
            Slot::VertexUniforms => 0,
            Slot::FrameData | Slot::Image => 1,
            Slot::Camera | Slot::Sampling | Slot::SkyState => 2,
            Slot::Spheres | Slot::Materials | Slot::Textures | Slot::Lights => 3,
        }
    }

    /// The binding index of the slot within its group.
    pub open spec fn spec_binding(self) -> u32 {
        match self {
            Slot::VertexUniforms | Slot::FrameData | Slot::Camera | Slot::Spheres => 0,
            Slot::Image | Slot::Sampling | Slot::Materials => 1,
            Slot::SkyState | Slot::Textures => 2,
            Slot::Lights => 3,
        }
    }

    /// How the slot is bound: the small per-frame records are uniforms, the
    /// rest is storage, read-only but for the image.
    pub open spec fn spec_kind(self) -> BufferKind {
        match self {
            Slot::VertexUniforms | Slot::FrameData | Slot::Camera | Slot::Sampling
                => BufferKind::Uniform,
            Slot::Image => BufferKind::Storage { read_only: false },
            Slot::SkyState | Slot::Spheres | Slot::Materials | Slot::Textures | Slot::Lights
                => BufferKind::Storage { read_only: true },
        }
    }

    /// The stage that sees the slot: the vertex stage for the quad transform,
    /// the fragment stage for everything else.
    pub open spec fn spec_visibility(self) -> ShaderStage {
        match self {
            Slot::VertexUniforms => ShaderStage::Vertex,
            _ => ShaderStage::Fragment,
        }
    }

    /// The number of slots in binding group `group`.
    pub open spec fn group_size(group: u32) -> u32 {
        if group == 0 {
            1
        } else if group == 1 {
            2
        } else if group == 2 {
            3
        } else if group == 3 {
            4
        } else {
            0
        }
    }

    /// The binding group of the slot.
    #[verifier::when_used_as_spec(spec_group)]
    pub fn group(self) -> (group: u32)
        ensures
            group == self.spec_group(),
            group < BIND_GROUP_COUNT,
    {
        match self {
            Slot::VertexUniforms => 0,
            Slot::FrameData | Slot::Image => 1,
            Slot::Camera | Slot::Sampling | Slot::SkyState => 2,
            Slot::Spheres | Slot::Materials | Slot::Textures | Slot::Lights => 3,
        }
    }

    /// The binding index of the slot within its group.
    #[verifier::when_used_as_spec(spec_binding)]
    pub fn binding(self) -> (binding: u32)
        ensures
            binding == self.spec_binding(),
            binding < Self::group_size(self.spec_group()),
    {
        match self {
            Slot::VertexUniforms | Slot::FrameData | Slot::Camera | Slot::Spheres => 0,
            Slot::Image | Slot::Sampling | Slot::Materials => 1,
            Slot::SkyState | Slot::Textures => 2,
            Slot::Lights => 3,
        }
    }

    /// How the slot is bound.
    #[verifier::when_used_as_spec(spec_kind)]
    pub fn kind(self) -> (kind: BufferKind)
        ensures
            kind == self.spec_kind(),
    {
        match self {
            Slot::VertexUniforms | Slot::FrameData | Slot::Camera | Slot::Sampling
                => BufferKind::Uniform,
            Slot::Image => BufferKind::Storage { read_only: false },
            Slot::SkyState | Slot::Spheres | Slot::Materials | Slot::Textures | Slot::Lights
                => BufferKind::Storage { read_only: true },
        }
    }

    /// The stage that sees the slot.
    #[verifier::when_used_as_spec(spec_visibility)]
    pub fn visibility(self) -> (stage: ShaderStage)
        ensures
            stage == self.spec_visibility(),
    {
        match self {
            Slot::VertexUniforms => ShaderStage::Vertex,
            _ => ShaderStage::Fragment,
        }
    }

    /// The slot at `binding` in `group`, if there is one.
    pub fn at(group: u32, binding: u32) -> (slot: Option<Slot>)
        ensures
            slot is Some <==> group < BIND_GROUP_COUNT && binding < Self::group_size(group),
            slot matches Some(s) ==> s.spec_group() == group && s.spec_binding() == binding,
    {
        if group == 0 && binding == 0 {
            Some(Slot::VertexUniforms)
        } else if group == 1 && binding == 0 {
            Some(Slot::FrameData)
        } else if group == 1 && binding == 1 {
            Some(Slot::Image)
        } else if group == 2 && binding == 0 {
            Some(Slot::Camera)
        } else if group == 2 && binding == 1 {
            Some(Slot::Sampling)
        } else if group == 2 && binding == 2 {
            Some(Slot::SkyState)
        } else if group == 3 && binding == 0 {
            Some(Slot::Spheres)
        } else if group == 3 && binding == 1 {
            Some(Slot::Materials)
        } else if group == 3 && binding == 2 {
            Some(Slot::Textures)
        } else if group == 3 && binding == 3 {
            Some(Slot::Lights)
        } else {
            None
        }
    }
}

/// No two slots share a group and a binding index, and the binding indices of
/// a group are the numbers from 0 up to its size.
pub proof fn lemma_slots_are_distinct(a: Slot, b: Slot)
    ensures
        a.spec_group() == b.spec_group() && a.spec_binding() == b.spec_binding() ==> a == b,
        a.spec_group() < BIND_GROUP_COUNT,
        a.spec_binding() < Slot::group_size(a.spec_group()),
{
}

/// The transform of the full-screen quad as the vertex stage reads it: two
/// 4x4 matrices, column by column.
#[derive(Clone, Copy, Debug)]
pub struct VertexUniforms {
    pub view_projection_matrix: [Scalar; 16],
    pub model_matrix: [Scalar; 16],
}

impl VertexUniforms {
    /// The record as words, in field order.
    pub open spec fn words(self) -> Seq<u32> {
        Seq::new(
            32,
            |j: int|
                if j < 16 {
                    self.view_projection_matrix[j].bits
                } else {
                    self.model_matrix[j - 16].bits
                },
        )
    }

    /// The record as it is written to its buffer.
    pub fn to_bytes(&self) -> (bytes: Vec<u8>)
        ensures
            bytes@ == le_bytes(self.words()),
            bytes@.len() == VERTEX_UNIFORMS_BYTES,
    {
        let mut words: Vec<u32> = Vec::new();
        let mut i: usize = 0;
        while i < 16
            invariant
                i <= 16,
                words@ == self.words().take(i as int),
            decreases 16 - i,
        {
            words.push(self.view_projection_matrix[i].bits);
            assert(words@ =~= self.words().take(i + 1));
            i += 1;
        }
        let mut k: usize = 0;
        while k < 16
            invariant
                k <= 16,
                words@ == self.words().take(16 + k),
            decreases 16 - k,
        {
            words.push(self.model_matrix[k].bits);
            assert(words@ =~= self.words().take(16 + k + 1));
            k += 1;
        }
        assert(words@ =~= self.words());
        words_to_bytes(&words)
    }
}

} // verus!
