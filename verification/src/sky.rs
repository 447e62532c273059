//! The sky: what the caller sets and what the kernel reads.
//!
//! The analytic sky model itself is not part of this crate. Its output, 27
//! coefficients and 3 radiances, is packed here together with the direction
//! of the sun into the record that the kernel reads.

use vstd::prelude::*;
use vstd::std_specs::cmp::PartialEqSpecImpl;
use crate::scalar::{Scalar, ONE_BITS, ZERO_BITS};
use crate::wire::{le_bytes, words_to_bytes};

verus! {

/// The pattern of `85.0`.
pub const DEFAULT_ZENITH_BITS: u32 = 0x42aa_0000;

/// The pattern of `4.0`.
pub const DEFAULT_TURBIDITY_BITS: u32 = 0x4080_0000;

/// Where the sun stands and how the air and the ground are.
#[derive(Clone, Copy, Debug)]
pub struct SkyParams {
    /// Azimuth of the sun in degrees, from 0 up to 360.
    pub azimuth_degrees: Scalar,
    /// Angle between the sun and the zenith in degrees, from 0 to 90.
    pub zenith_degrees: Scalar,
    /// Turbidity of the air, from 1 to 10.
    pub turbidity: Scalar,
    /// Albedo of the ground per colour channel, each from 0 to 1.
    pub albedo: [Scalar; 3],
}

impl PartialEq for SkyParams {
    /// Two sets of sky parameters are equal when all their scalars have the
    /// same patterns.
    fn eq(&self, other: &SkyParams) -> (equal: bool) {
        let equal = self.azimuth_degrees == other.azimuth_degrees && self.zenith_degrees
            == other.zenith_degrees && self.turbidity == other.turbidity && self.albedo[0]
            == other.albedo[0] && self.albedo[1] == other.albedo[1] && self.albedo[2]
            == other.albedo[2];
        proof {
            if equal {
                assert(self.albedo =~= other.albedo);
            }
        }
        equal
    }
}

impl PartialEqSpecImpl for SkyParams {
    open spec fn obeys_eq_spec() -> bool {
        true
    }

    open spec fn eq_spec(&self, other: &SkyParams) -> bool {
        *self == *other
    }
}

impl Default for SkyParams {
    /// A low sun in the north over a white ground: azimuth `0.0`, zenith
    /// `85.0`, turbidity `4.0`, albedo `1.0`.
    fn default() -> (sky: SkyParams)
        ensures
            sky.azimuth_degrees.bits == ZERO_BITS,
            sky.zenith_degrees.bits == DEFAULT_ZENITH_BITS,
            sky.turbidity.bits == DEFAULT_TURBIDITY_BITS,
            sky.albedo[0].bits == ONE_BITS,
            sky.albedo[1].bits == ONE_BITS,
            sky.albedo[2].bits == ONE_BITS,
    {
        SkyParams {
            azimuth_degrees: Scalar::zero(),
            zenith_degrees: Scalar::from_bits(DEFAULT_ZENITH_BITS),
            turbidity: Scalar::from_bits(DEFAULT_TURBIDITY_BITS),
            albedo: [Scalar::one(), Scalar::one(), Scalar::one()],
        }
    }
}

/// Size of a [`GpuSkyState`] in a buffer.
pub const GPU_SKY_STATE_BYTES: u64 = 144;

/// The sky as the kernel reads it: 36 words.
#[derive(Clone, Copy, Debug)]
pub struct GpuSkyState {
    /// Coefficients of the sky model, nine per colour channel. Byte 0.
    pub params: [Scalar; 27],
    /// Radiances of the sky model, one per colour channel. Byte 108.
    pub radiances: [Scalar; 3],
    /// Two words that the kernel skips. Byte 120.
    pub _padding: [u32; 2],
    /// Unit vector towards the sun, with a fourth coordinate of `0.0`. Byte 128.
    pub sun_direction: [Scalar; 4],
}

impl GpuSkyState {
    /// The record as words, in field order.
    pub open spec fn words(self) -> Seq<u32> {
        Seq::new(
            36,
            |j: int|
                if j < 27 {
                    self.params[j].bits
                } else if j < 30 {
                    self.radiances[j - 27].bits
                } else if j < 32 {
                    self._padding[j - 30]
                } else {
                    self.sun_direction[j - 32].bits
                },
        )
    }

    /// The record of the model's output and the direction of the sun. The
    /// padding words are 0 and 2.
    pub fn new(params: [Scalar; 27], radiances: [Scalar; 3], sun_direction: [Scalar; 4]) -> (state:
        GpuSkyState)
        ensures
            state.params == params,
            state.radiances == radiances,
            state.sun_direction == sun_direction,
            state._padding[0] == 0,
            state._padding[1] == 2,
    {
        GpuSkyState { params, radiances, _padding: [0, 2], sun_direction }
    }

    /// The record as it is written to its buffer.
    pub fn to_bytes(&self) -> (bytes: Vec<u8>)
        ensures
            bytes@ == le_bytes(self.words()),
            bytes@.len() == GPU_SKY_STATE_BYTES,
    {
        let mut words: Vec<u32> = Vec::new();
        let mut i: usize = 0;
        while i < 27
            invariant
                i <= 27,
                words@ == self.words().take(i as int),
            decreases 27 - i,
        {
            words.push(self.params[i].bits);
            assert(words@ =~= self.words().take(i + 1));
            i += 1;
        }
        words.push(self.radiances[0].bits);
        words.push(self.radiances[1].bits);
        words.push(self.radiances[2].bits);
        words.push(self._padding[0]);
        words.push(self._padding[1]);
        words.push(self.sun_direction[0].bits);
        words.push(self.sun_direction[1].bits);
        words.push(self.sun_direction[2].bits);
        words.push(self.sun_direction[3].bits);
        assert(words@ =~= self.words());
        words_to_bytes(&words)
    }
}

} // verus!
