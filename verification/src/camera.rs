//! The camera: what the caller sets and what the kernel reads.

use vstd::prelude::*;
use crate::scalar::{Scalar, ZERO_BITS};
use crate::wire::{le_bytes, words_to_bytes};

verus! {

/// The lens of the ray-casting camera.
#[derive(Clone, Copy, Debug, PartialEq, Eq, Structural)]
pub struct RayCastCameraParams {
    /// Vertical field of view in degrees.
    pub vfov: Scalar,
    /// Diameter of the lens.
    pub aperture: Scalar,
    /// Distance from the eye to the plane in focus.
    pub focus_distance: Scalar,
}

/// A perspective camera, with a lens where depth of field is wanted.
#[derive(Clone, Copy, Debug, PartialEq, Eq, Structural)]
pub struct Camera {
    pub fov: Scalar,
    pub near: Scalar,
    pub far: Scalar,
    pub aspect: Scalar,
    pub rccp: Option<RayCastCameraParams>,
}

impl Camera {
    /// A camera of the given field of view, aspect ratio and clip planes.
    pub fn new(
        fov: Scalar,
        aspect: Scalar,
        near: Scalar,
        far: Scalar,
        rccp: Option<RayCastCameraParams>,
    ) -> (camera: Camera)
        ensures
            camera == (Camera { fov, near, far, aspect, rccp }),
    {
        Camera { fov, near, far, aspect, rccp }
    }
}

/// Size of a [`GpuCamera`] in a buffer.
pub const GPU_CAMERA_BYTES: u64 = 96;

/// The camera as the kernel reads it: six vectors of three scalars, each
/// followed by one more word, which is padding except after `v`, where it is
/// the lens radius.
#[derive(Clone, Copy, Debug)]
pub struct GpuCamera {
    /// Position of the eye.
    pub eye: [Scalar; 3],
    pub _padding1: Scalar,
    /// The image plane's horizontal extent.
    pub horizontal: [Scalar; 3],
    pub _padding2: Scalar,
    /// The image plane's vertical extent.
    pub vertical: [Scalar; 3],
    pub _padding3: Scalar,
    /// Unit vector to the right of the view direction.
    pub u: [Scalar; 3],
    pub _padding4: Scalar,
    /// Unit vector upwards.
    pub v: [Scalar; 3],
    pub lens_radius: Scalar,
    /// The lower left corner of the image plane.
    pub lower_left_corner: [Scalar; 3],
    pub _padding5: Scalar,
}

impl GpuCamera {
    /// The record as words, in field order.
    pub open spec fn words(self) -> Seq<u32> {
        seq![
            self.eye[0].bits,
            self.eye[1].bits,
            self.eye[2].bits,
            self._padding1.bits,
            self.horizontal[0].bits,
            self.horizontal[1].bits,
            self.horizontal[2].bits,
            self._padding2.bits,
            self.vertical[0].bits,
            self.vertical[1].bits,
            self.vertical[2].bits,
            self._padding3.bits,
            self.u[0].bits,
            self.u[1].bits,
            self.u[2].bits,
            self._padding4.bits,
            self.v[0].bits,
            self.v[1].bits,
            self.v[2].bits,
            self.lens_radius.bits,
            self.lower_left_corner[0].bits,
            self.lower_left_corner[1].bits,
            self.lower_left_corner[2].bits,
            self._padding5.bits,
        ]
    }

    /// The record of the given vectors and lens radius, padded with `0.0`.
    pub fn from_parts(
        eye: [Scalar; 3],
        horizontal: [Scalar; 3],
        vertical: [Scalar; 3],
        u: [Scalar; 3],
        v: [Scalar; 3],
        lens_radius: Scalar,
        lower_left_corner: [Scalar; 3],
    ) -> (camera: GpuCamera)
        ensures
            camera.eye == eye,
            camera.horizontal == horizontal,
            camera.vertical == vertical,
            camera.u == u,
            camera.v == v,
            camera.lens_radius == lens_radius,
            camera.lower_left_corner == lower_left_corner,
            camera._padding1.bits == ZERO_BITS,
            camera._padding2.bits == ZERO_BITS,
            camera._padding3.bits == ZERO_BITS,
            camera._padding4.bits == ZERO_BITS,
            camera._padding5.bits == ZERO_BITS,
    {
        GpuCamera {
            eye,
            _padding1: Scalar::zero(),
            horizontal,
            _padding2: Scalar::zero(),
            vertical,
            _padding3: Scalar::zero(),
            u,
            _padding4: Scalar::zero(),
            v,
            lens_radius,
            lower_left_corner,
            _padding5: Scalar::zero(),
        }
    }

    /// The record as it is written to its buffer.
    pub fn to_bytes(&self) -> (bytes: Vec<u8>)
        ensures
            bytes@ == le_bytes(self.words()),
            bytes@.len() == GPU_CAMERA_BYTES,
    {
        let mut words: Vec<u32> = Vec::new();
        push_vector(&mut words, &self.eye, self._padding1);
        push_vector(&mut words, &self.horizontal, self._padding2);
        push_vector(&mut words, &self.vertical, self._padding3);
        push_vector(&mut words, &self.u, self._padding4);
        push_vector(&mut words, &self.v, self.lens_radius);
        push_vector(&mut words, &self.lower_left_corner, self._padding5);
        assert(words@ =~= self.words());
        words_to_bytes(&words)
    }
}

/// Appends a vector of three scalars and the word that follows it.
fn push_vector(out: &mut Vec<u32>, vector: &[Scalar; 3], fourth: Scalar)
    ensures
        final(out)@ == old(out)@ + seq![
            vector[0].bits,
            vector[1].bits,
            vector[2].bits,
            fourth.bits,
        ],
{
    out.push(vector[0].bits);
    out.push(vector[1].bits);
    out.push(vector[2].bits);
    out.push(fourth.bits);
    assert(out@ =~= old(out)@ + seq![vector[0].bits, vector[1].bits, vector[2].bits, fourth.bits]);
}

} // verus!
