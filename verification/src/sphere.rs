//! Spheres, the only shape of the scene.

use vstd::prelude::*;
use crate::scalar::{Scalar, ONE_BITS};

verus! {

/// A sphere as the kernel reads it: eight words.
///
/// The centre is a point in homogeneous coordinates, so that it sits on a
/// 16-byte boundary; two words of padding close the record.
#[derive(Clone, Copy, Debug)]
pub struct Sphere {
    pub center: [Scalar; 4],
    pub radius: Scalar,
    /// Index of the sphere's material in the scene's material list.
    pub material_idx: u32,
    pub _padding: [u32; 2],
}

impl Sphere {
    /// The record as words, in field order.
    pub open spec fn words(self) -> Seq<u32> {
        seq![
            self.center[0].bits,
            self.center[1].bits,
            self.center[2].bits,
            self.center[3].bits,
            self.radius.bits,
            self.material_idx,
            self._padding[0],
            self._padding[1],
        ]
    }

    /// The sphere around `center`, whose fourth coordinate becomes `1.0`.
    pub fn new(center: [Scalar; 3], radius: Scalar, material_idx: u32) -> (sphere: Sphere)
        ensures
            sphere.center[0] == center[0],
            sphere.center[1] == center[1],
            sphere.center[2] == center[2],
            sphere.center[3].bits == ONE_BITS,
            sphere.radius == radius,
            sphere.material_idx == material_idx,
            sphere._padding[0] == 0,
            sphere._padding[1] == 0,
    {
        Sphere {
            center: [center[0], center[1], center[2], Scalar::one()],
            radius,
            material_idx,
            _padding: [0, 0],
        }
    }

    /// Appends the record to a run of words.
    pub fn push_words(&self, out: &mut Vec<u32>)
        ensures
            final(out)@ == old(out)@ + self.words(),
    {
        out.push(self.center[0].bits);
        out.push(self.center[1].bits);
        out.push(self.center[2].bits);
        out.push(self.center[3].bits);
        out.push(self.radius.bits);
        out.push(self.material_idx);
        out.push(self._padding[0]);
        out.push(self._padding[1]);
        assert(out@ =~= old(out)@ + self.words());
    }
}

} // verus!
