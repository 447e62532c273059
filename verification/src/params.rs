//! Render parameters and their validation.
//!
//! A set of parameters is checked before anything is uploaded. The checks run
//! in a fixed order and the first that fails names the error.

use vstd::arithmetic::power2::pow2;
use vstd::prelude::*;
use vstd::std_specs::cmp::PartialEqSpecImpl;
use crate::camera::Camera;
use crate::sampling::SamplingParams;
use crate::scalar::{
    lemma_named_values,
    lemma_order_is_numeric,
    lemma_within_is_numeric,
    Scalar,
    NINETY_BITS,
    ONE_BITS,
    ZERO_BITS,
};
use crate::sky::SkyParams;

verus! {

/// `hw_skymodel::rgb::Error`, the error with which the analytic sky model
/// refuses its parameters. Nothing is assumed of what it holds: the crate only
/// carries such a value from where the model returned it to the caller.
#[verifier::external_type_specification]
#[verifier::external_body]
pub struct ExSkyModelError(hw_skymodel::rgb::Error);

/// Why a set of render parameters was refused.
#[derive(Debug)]
pub enum RenderParamsValidationError {
    /// `max_samples_per_pixel` (first) is not a multiple of
    /// `num_samples_per_pixel` (second).
    MaxSampleCountNotMultiple(u32, u32),
    /// Width or height of the viewport is zero.
    ViewportSize(u32, u32),
    /// The vertical field of view is not between 0 and 90 degrees.
    VfovOutOfRange(Scalar),
    /// The aperture is not between 0 and 1.
    ApertureOutOfRange(Scalar),
    /// The focus distance is not at least 0.
    FocusDistanceOutOfRange(Scalar),
    /// The sky model refused the sky parameters.
    HwSkyModelValidationError(hw_skymodel::rgb::Error),
}

/// Everything that a render depends on besides the scene.
#[derive(Clone, Copy, Debug)]
pub struct RenderParams {
    pub camera: Camera,
    pub sky: SkyParams,
    pub sampling: SamplingParams,
    /// Width and height of the viewport in pixels.
    pub viewport_size: (u32, u32),
}

impl PartialEq for RenderParams {
    /// Two sets of parameters are equal when they agree in every field,
    /// scalars by their patterns.
    fn eq(&self, other: &RenderParams) -> (equal: bool) {
        self.camera == other.camera && self.sky == other.sky && self.sampling == other.sampling
            && self.viewport_size.0 == other.viewport_size.0 && self.viewport_size.1
            == other.viewport_size.1
    }
}

impl PartialEqSpecImpl for RenderParams {
    open spec fn obeys_eq_spec() -> bool {
        true
    }

    open spec fn eq_spec(&self, other: &RenderParams) -> bool {
        *self == *other
    }
}

impl RenderParams {
    /// The sampling budget is a whole number of frames.
    pub open spec fn sampling_ok(&self) -> bool {
        self.sampling.max_samples_per_pixel as int % self.sampling.num_samples_per_pixel as int
            == 0
    }

    /// Neither side of the viewport is zero.
    pub open spec fn viewport_ok(&self) -> bool {
        self.viewport_size.0 != 0 && self.viewport_size.1 != 0
    }

    /// The vertical field of view lies between 0 and 90 degrees, both
    /// included.
    pub open spec fn vfov_ok(&self) -> bool {
        self.camera.rccp->0.vfov.spec_within(Scalar { bits: ZERO_BITS }, Scalar { bits: NINETY_BITS })
    }

    /// The aperture lies between 0 and 1, both included.
    pub open spec fn aperture_ok(&self) -> bool {
        self.camera.rccp->0.aperture.spec_within(
            Scalar { bits: ZERO_BITS },
            Scalar { bits: ONE_BITS },
        )
    }

    /// The focus distance is at least 0.
    pub open spec fn focus_distance_ok(&self) -> bool {
        (Scalar { bits: ZERO_BITS }).spec_le(self.camera.rccp->0.focus_distance)
    }

    /// The outcome of validation: the error of the first check that fails, in
    /// the order sampling, viewport, field of view, aperture, focus distance,
    /// sky model.
    pub open spec fn spec_validate(&self, sky: Result<(), hw_skymodel::rgb::Error>) -> Result<
        (),
        RenderParamsValidationError,
    > {
        if !self.sampling_ok() {
            Err(
                RenderParamsValidationError::MaxSampleCountNotMultiple(
                    self.sampling.max_samples_per_pixel,
                    self.sampling.num_samples_per_pixel,
                ),
            )
        } else if !self.viewport_ok() {
            Err(
                RenderParamsValidationError::ViewportSize(
                    self.viewport_size.0,
                    self.viewport_size.1,
                ),
            )
        } else if !self.vfov_ok() {
            Err(RenderParamsValidationError::VfovOutOfRange(self.camera.rccp->0.vfov))
        } else if !self.aperture_ok() {
            Err(RenderParamsValidationError::ApertureOutOfRange(self.camera.rccp->0.aperture))
        } else if !self.focus_distance_ok() {
            Err(
                RenderParamsValidationError::FocusDistanceOutOfRange(
                    self.camera.rccp->0.focus_distance,
                ),
            )
        } else {
            match sky {
                Ok(_) => Ok(()),
                Err(e) => Err(RenderParamsValidationError::HwSkyModelValidationError(e)),
            }
        }
    }

    /// Whether validation can be asked of these parameters: the camera has a
    /// lens and the share of one frame is not zero.
    pub open spec fn checkable(&self) -> bool {
        self.camera.rccp is Some && self.sampling.num_samples_per_pixel > 0
    }

    /// Whether validation can be asked of these parameters.
    pub fn is_checkable(&self) -> (ok: bool)
        ensures
            ok == self.checkable(),
    {
        self.camera.rccp.is_some() && self.sampling.num_samples_per_pixel > 0
    }

    /// Checks the parameters, given what the sky model said of `self.sky`.
    ///
    /// The checks on the parameters themselves come first; only where they
    /// all pass does an error of the sky model come out, unchanged.
    pub fn validate(&self, sky: Result<(), hw_skymodel::rgb::Error>) -> (result: Result<
        (),
        RenderParamsValidationError,
    >)
        requires
            self.checkable(),
        ensures
            result == self.spec_validate(sky),
            result is Ok <==> self.sampling_ok() && self.viewport_ok() && self.vfov_ok()
                && self.aperture_ok() && self.focus_distance_ok() && sky is Ok,
    {
        let rccp = self.camera.rccp.unwrap();
        if self.sampling.max_samples_per_pixel % self.sampling.num_samples_per_pixel != 0 {
            return Err(
                RenderParamsValidationError::MaxSampleCountNotMultiple(
                    self.sampling.max_samples_per_pixel,
                    self.sampling.num_samples_per_pixel,
                ),
            );
        }
        if self.viewport_size.0 == 0 || self.viewport_size.1 == 0 {
            return Err(
                RenderParamsValidationError::ViewportSize(
                    self.viewport_size.0,
                    self.viewport_size.1,
                ),
            );
        }
        if !rccp.vfov.within(Scalar::zero(), Scalar::ninety()) {
            return Err(RenderParamsValidationError::VfovOutOfRange(rccp.vfov));
        }
        if !rccp.aperture.within(Scalar::zero(), Scalar::one()) {
            return Err(RenderParamsValidationError::ApertureOutOfRange(rccp.aperture));
        }
        if !Scalar::zero().le(rccp.focus_distance) {
            return Err(RenderParamsValidationError::FocusDistanceOutOfRange(rccp.focus_distance));
        }
        match sky {
            Ok(_) => Ok(()),
            Err(e) => Err(RenderParamsValidationError::HwSkyModelValidationError(e)),
        }
    }
}

/// What the range checks mean in numbers, with every value counted in units
/// of 2^-149, where `1.0` is 2^149: the field of view passes exactly when it
/// is a number from 0 to 90, the aperture when it is a number from 0 to 1,
/// and the focus distance when it is a number of at least 0 or positive
/// infinity. A NaN passes none of them.
pub proof fn lemma_range_checks_are_numeric(params: RenderParams)
    ensures
        ({
            let lens = params.camera.rccp->0;
            &&& params.vfov_ok() <==> !lens.vfov.spec_is_nan() && 0 <= lens.vfov.scaled_value()
                <= 90 * pow2(149)
            &&& params.aperture_ok() <==> !lens.aperture.spec_is_nan() && 0
                <= lens.aperture.scaled_value() <= pow2(149)
            &&& params.focus_distance_ok() <==> !lens.focus_distance.spec_is_nan() && 0
                <= lens.focus_distance.scaled_value()
        }),
{
    let lens = params.camera.rccp->0;
    let zero = Scalar { bits: ZERO_BITS };
    lemma_named_values();
    lemma_within_is_numeric(lens.vfov, zero, Scalar { bits: NINETY_BITS });
    lemma_within_is_numeric(lens.aperture, zero, Scalar { bits: ONE_BITS });
    if !lens.focus_distance.spec_is_nan() {
        lemma_order_is_numeric(zero, lens.focus_distance);
    }
}

} // verus!
