//! The orchestrator of the raytracer, without the GPU.
//!
//! [`Raytracer`] is the CPU side of the renderer: the parameters in force,
//! the accumulation progress and the frame counter. Each of its operations
//! decides what changes and hands back the bytes to upload; creating buffers,
//! writing them and issuing the draw is left to the owner of the device.

use vstd::prelude::*;
use crate::bindings::{Slot, VertexUniforms, FRAME_DATA_BUFFER_BYTES, IMAGE_PIXEL_BYTES};
use crate::camera::GpuCamera;
use crate::params::{RenderParams, RenderParamsValidationError};
use crate::sampling::{
    accumulated_after,
    frame_params,
    lemma_accumulated_after,
    next_accumulated,
    RenderProgress,
    GPU_SAMPLING_PARAMS_BYTES,
};
use crate::scene::{
    global_texture_data,
    gpu_materials,
    light_indices,
    material_words,
    pixel_words,
    sphere_words,
    Scene,
    SceneBuffers,
};
use crate::sky::GpuSkyState;
use crate::wire::{le_bytes, words_to_bytes};

verus! {

/// The frame number of the first frame.
pub const FIRST_FRAME_NUMBER: u32 = 1;

/// What the sky model said, without the state that it built.
pub open spec fn sky_outcome(sky_state: Result<GpuSkyState, hw_skymodel::rgb::Error>) -> Result<
    (),
    hw_skymodel::rgb::Error,
> {
    match sky_state {
        Ok(_) => Ok(()),
        Err(e) => Err(e),
    }
}

/// The state of the orchestrator as a value: the parameters in force, the
/// samples per pixel accumulated so far, and the number of the next frame.
pub struct RaytracerState {
    pub params: RenderParams,
    pub accumulated: int,
    pub frame_number: int,
}

impl RaytracerState {
    /// The state after one frame is drawn.
    pub open spec fn render_frame(self) -> RaytracerState {
        RaytracerState {
            params: self.params,
            accumulated: next_accumulated(self.accumulated, self.params.sampling),
            frame_number: self.frame_number + 1,
        }
    }

    /// The state after `frames` frames are drawn.
    pub open spec fn after_frames(self, frames: nat) -> RaytracerState
        decreases frames,
    {
        if frames == 0 {
            self
        } else {
            self.after_frames((frames - 1) as nat).render_frame()
        }
    }

    /// Whether a call of `set_render_params` with `params` changes anything:
    /// the parameters differ from those in force and pass validation.
    pub open spec fn accepts(
        self,
        params: RenderParams,
        sky: Result<(), hw_skymodel::rgb::Error>,
    ) -> bool {
        params != self.params && params.spec_validate(sky) is Ok
    }

    /// The state after `set_render_params`: new parameters that pass
    /// validation come into force and the image starts afresh; otherwise
    /// nothing changes.
    pub open spec fn set_render_params(
        self,
        params: RenderParams,
        sky: Result<(), hw_skymodel::rgb::Error>,
    ) -> RaytracerState {
        if self.accepts(params, sky) {
            RaytracerState { params, accumulated: 0, frame_number: self.frame_number }
        } else {
            self
        }
    }

    /// The words of the frame data: viewport width, viewport height, frame
    /// number.
    pub open spec fn frame_data(self) -> Seq<u32> {
        seq![self.params.viewport_size.0, self.params.viewport_size.1, self.frame_number as u32]
    }
}

/// Validates `render_params` against what the sky model said and, where they
/// pass, hands the sky state on.
fn validated_sky(
    render_params: &RenderParams,
    sky_state: Result<GpuSkyState, hw_skymodel::rgb::Error>,
) -> (result: Result<GpuSkyState, RenderParamsValidationError>)
    requires
        render_params.checkable(),
    ensures
        result is Ok <==> render_params.spec_validate(sky_outcome(sky_state)) is Ok,
        result matches Ok(state) ==> sky_state == Ok::<GpuSkyState, hw_skymodel::rgb::Error>(
            state,
        ),
        result matches Err(e) ==> render_params.spec_validate(sky_outcome(sky_state)) == Err::<
            (),
            RenderParamsValidationError,
        >(e),
{
    let (state, outcome) = match sky_state {
        Ok(state) => (Some(state), Ok(())),
        Err(e) => (None, Err(e)),
    };
    match render_params.validate(outcome) {
        Ok(_) => Ok(state.unwrap()),
        Err(e) => Err(e),
    }
}

/// The CPU side of the renderer.
#[derive(Debug)]
pub struct Raytracer {
    pub latest_render_params: RenderParams,
    pub render_progress: RenderProgress,
    pub frame_number: u32,
}

impl View for Raytracer {
    type V = RaytracerState;

    open spec fn view(&self) -> RaytracerState {
        RaytracerState {
            params: self.latest_render_params,
            accumulated: self.render_progress@,
            frame_number: self.frame_number as int,
        }
    }
}

/// The initial contents of the buffers that are filled at construction.
///
/// The frame data and sampling buffers have no initial contents: they are
/// written before every draw.
#[derive(Debug)]
pub struct RaytracerBuffers {
    /// Contents of [`crate::bindings::Slot::VertexUniforms`].
    pub vertex_uniforms: Vec<u8>,
    /// Size in bytes of [`crate::bindings::Slot::Image`], which starts zeroed.
    pub image_bytes: u64,
    /// Contents of [`crate::bindings::Slot::Camera`].
    pub camera: Vec<u8>,
    /// Contents of [`crate::bindings::Slot::SkyState`].
    pub sky_state: Vec<u8>,
    /// Contents of the four scene slots.
    pub scene: SceneBuffers,
}

impl RaytracerBuffers {
    /// What `slot` holds when it is created: its bytes, or nothing for the
    /// three buffers that start zeroed (the image, and the frame data and
    /// sampling records, which are written before every draw).
    pub open spec fn spec_initial_contents(&self, slot: Slot) -> Option<Seq<u8>> {
        match slot {
            Slot::VertexUniforms => Some(self.vertex_uniforms@),
            Slot::FrameData => None,
            Slot::Image => None,
            Slot::Camera => Some(self.camera@),
            Slot::Sampling => None,
            Slot::SkyState => Some(self.sky_state@),
            Slot::Spheres => Some(self.scene.spheres@),
            Slot::Materials => Some(self.scene.materials@),
            Slot::Textures => Some(self.scene.textures@),
            Slot::Lights => Some(self.scene.lights@),
        }
    }

    /// The size in bytes of the buffer of `slot`.
    pub open spec fn spec_size(&self, slot: Slot) -> int {
        match slot {
            Slot::FrameData => FRAME_DATA_BUFFER_BYTES as int,
            Slot::Image => self.image_bytes as int,
            Slot::Sampling => GPU_SAMPLING_PARAMS_BYTES as int,
            _ => self.spec_initial_contents(slot)->0.len() as int,
        }
    }

    /// What `slot` holds when it is created, if it does not start zeroed.
    pub fn initial_contents(&self, slot: Slot) -> (contents: Option<&Vec<u8>>)
        ensures
            contents is Some <==> self.spec_initial_contents(slot) is Some,
            contents matches Some(bytes) ==> self.spec_initial_contents(slot) == Some(bytes@),
    {
        match slot {
            Slot::VertexUniforms => Some(&self.vertex_uniforms),
            Slot::FrameData => None,
            Slot::Image => None,
            Slot::Camera => Some(&self.camera),
            Slot::Sampling => None,
            Slot::SkyState => Some(&self.sky_state),
            Slot::Spheres => Some(&self.scene.spheres),
            Slot::Materials => Some(&self.scene.materials),
            Slot::Textures => Some(&self.scene.textures),
            Slot::Lights => Some(&self.scene.lights),
        }
    }

    /// The size in bytes of the buffer of `slot`.
    pub fn size(&self, slot: Slot) -> (size: u64)
        ensures
            size == self.spec_size(slot),
    {
        match slot {
            Slot::VertexUniforms => self.vertex_uniforms.len() as u64,
            Slot::FrameData => FRAME_DATA_BUFFER_BYTES,
            Slot::Image => self.image_bytes,
            Slot::Camera => self.camera.len() as u64,
            Slot::Sampling => GPU_SAMPLING_PARAMS_BYTES,
            Slot::SkyState => self.sky_state.len() as u64,
            Slot::Spheres => self.scene.spheres.len() as u64,
            Slot::Materials => self.scene.materials.len() as u64,
            Slot::Textures => self.scene.textures.len() as u64,
            Slot::Lights => self.scene.lights.len() as u64,
        }
    }
}

/// What is written before the draw of one frame.
#[derive(Debug)]
pub struct FrameUploads {
    /// New contents of [`crate::bindings::Slot::Sampling`].
    pub sampling_params: Vec<u8>,
    /// New contents of the first 12 bytes of
    /// [`crate::bindings::Slot::FrameData`].
    pub frame_data: Vec<u8>,
}

/// What is written when new parameters come into force.
#[derive(Debug)]
pub struct ParamUploads {
    /// New contents of [`crate::bindings::Slot::SkyState`].
    pub sky_state: Vec<u8>,
    /// New contents of [`crate::bindings::Slot::Camera`].
    pub camera: Vec<u8>,
}

impl FrameUploads {
    /// The writes in the order in which they are made: the slot and the
    /// bytes that go to its start.
    pub fn writes(&self) -> (writes: [(Slot, &Vec<u8>); 2])
        ensures
            writes[0].0 == Slot::Sampling,
            writes[0].1@ == self.sampling_params@,
            writes[1].0 == Slot::FrameData,
            writes[1].1@ == self.frame_data@,
    {
        [(Slot::Sampling, &self.sampling_params), (Slot::FrameData, &self.frame_data)]
    }
}

impl ParamUploads {
    /// The writes in the order in which they are made: the slot and the
    /// bytes that go to its start.
    pub fn writes(&self) -> (writes: [(Slot, &Vec<u8>); 2])
        ensures
            writes[0].0 == Slot::SkyState,
            writes[0].1@ == self.sky_state@,
            writes[1].0 == Slot::Camera,
            writes[1].1@ == self.camera@,
    {
        [(Slot::SkyState, &self.sky_state), (Slot::Camera, &self.camera)]
    }
}

impl Raytracer {
    /// Sets up the renderer for `scene` under `render_params`.
    ///
    /// `sky_state` is what the sky model made of `render_params.sky`, and
    /// `camera` the camera record derived from `render_params.camera` and the
    /// camera's place in the world. The parameters are validated first; if
    /// they pass, the result holds the fresh state and the contents of every
    /// buffer. The image buffer has room for `max_viewport_resolution`
    /// pixels.
    pub fn new(
        scene: &Scene,
        render_params: &RenderParams,
        max_viewport_resolution: u32,
        vertex_uniforms: &VertexUniforms,
        camera: &GpuCamera,
        sky_state: Result<GpuSkyState, hw_skymodel::rgb::Error>,
    ) -> (result: Result<(Raytracer, RaytracerBuffers), RenderParamsValidationError>)
        requires
            scene.well_formed(),
            scene.encodable(),
            render_params.checkable(),
        ensures
            result is Ok <==> render_params.spec_validate(sky_outcome(sky_state)) is Ok,
            result matches Err(e) ==> render_params.spec_validate(sky_outcome(sky_state)) == Err::<
                (),
                RenderParamsValidationError,
            >(e),
            result matches Ok((raytracer, buffers)) ==> {
                &&& raytracer@ == (RaytracerState {
                    params: *render_params,
                    accumulated: 0,
                    frame_number: FIRST_FRAME_NUMBER as int,
                })
                &&& buffers.vertex_uniforms@ == le_bytes(vertex_uniforms.words())
                &&& buffers.image_bytes == IMAGE_PIXEL_BYTES * max_viewport_resolution
                &&& buffers.camera@ == le_bytes(camera.words())
                &&& buffers.sky_state@ == le_bytes(sky_state->Ok_0.words())
                &&& buffers.scene.spheres@ == le_bytes(sphere_words(scene.spheres@))
                &&& buffers.scene.materials@ == le_bytes(
                    material_words(gpu_materials(scene.materials@)),
                )
                &&& buffers.scene.textures@ == le_bytes(
                    pixel_words(global_texture_data(scene.materials@)),
                )
                &&& buffers.scene.lights@ == le_bytes(
                    light_indices(scene.spheres@, scene.materials@),
                )
            },
    {
        let sky_bytes = match validated_sky(render_params, sky_state) {
            Ok(state) => state.to_bytes(),
            Err(e) => {
                return Err(e);
            },
        };
        let buffers = RaytracerBuffers {
            vertex_uniforms: vertex_uniforms.to_bytes(),
            image_bytes: IMAGE_PIXEL_BYTES * (max_viewport_resolution as u64),
            camera: camera.to_bytes(),
            sky_state: sky_bytes,
            scene: scene.encode(),
        };
        let raytracer = Raytracer {
            latest_render_params: *render_params,
            render_progress: RenderProgress::new(),
            frame_number: FIRST_FRAME_NUMBER,
        };
        Ok((raytracer, buffers))
    }

    /// Accounts for one frame: advances the accumulation progress and the
    /// frame counter and returns what must be written before the draw.
    pub fn render_frame(&mut self) -> (uploads: FrameUploads)
        requires
            old(self).frame_number < u32::MAX,
        ensures
            final(self)@ == old(self)@.render_frame(),
            uploads.sampling_params@ == le_bytes(
                frame_params(old(self)@.accumulated, old(self)@.params.sampling).words(),
            ),
            uploads.frame_data@ == le_bytes(old(self)@.frame_data()),
    {
        let gpu_sampling_params = self.render_progress.next_frame(
            &self.latest_render_params.sampling,
        );
        let sampling_params = gpu_sampling_params.to_bytes();
        let mut frame_data: Vec<u32> = Vec::new();
        frame_data.push(self.latest_render_params.viewport_size.0);
        frame_data.push(self.latest_render_params.viewport_size.1);
        frame_data.push(self.frame_number);
        assert(frame_data@ =~= old(self)@.frame_data());
        let frame_data = words_to_bytes(&frame_data);
        self.frame_number += 1;
        FrameUploads { sampling_params, frame_data }
    }

    /// Whether `render_params` are the parameters in force, so that
    /// [`Raytracer::set_render_params`] would change nothing.
    pub fn is_current(&self, render_params: &RenderParams) -> (current: bool)
        ensures
            current == (*render_params == self@.params),
    {
        *render_params == self.latest_render_params
    }

    /// Puts `render_params` into force.
    ///
    /// Parameters equal to those in force change nothing and are not looked
    /// at again, whatever `sky_state` says. Other parameters are validated;
    /// if they pass, they come into force, the accumulation starts afresh and
    /// the result holds the sky and camera records to upload. If they fail,
    /// nothing changes.
    pub fn set_render_params(
        &mut self,
        render_params: &RenderParams,
        camera: &GpuCamera,
        sky_state: Result<GpuSkyState, hw_skymodel::rgb::Error>,
    ) -> (result: Result<Option<ParamUploads>, RenderParamsValidationError>)
        requires
            *render_params == old(self)@.params || render_params.checkable(),
        ensures
            final(self)@ == old(self)@.set_render_params(*render_params, sky_outcome(sky_state)),
            *render_params == old(self)@.params ==> result matches Ok(None),
            *render_params != old(self)@.params ==> {
                &&& result is Ok <==> render_params.spec_validate(sky_outcome(sky_state)) is Ok
                &&& result matches Err(e) ==> render_params.spec_validate(sky_outcome(sky_state))
                    == Err::<(), RenderParamsValidationError>(e)
                &&& result matches Ok(uploads) ==> {
                    &&& uploads matches Some(u)
                    &&& u.sky_state@ == le_bytes(sky_state->Ok_0.words())
                    &&& u.camera@ == le_bytes(camera.words())
                }
            },
    {
        if *render_params == self.latest_render_params {
            return Ok(None);
        }
        let sky_bytes = match validated_sky(render_params, sky_state) {
            Ok(state) => state.to_bytes(),
            Err(e) => {
                return Err(e);
            },
        };
        let uploads = ParamUploads { sky_state: sky_bytes, camera: camera.to_bytes() };
        self.latest_render_params = *render_params;
        self.render_progress.reset();
        Ok(Some(uploads))
    }

    /// The progress of the render as a fraction: samples per pixel
    /// accumulated, over the budget.
    pub fn progress(&self) -> (fraction: (u32, u32))
        ensures
            fraction.0 == self@.accumulated,
            fraction.1 == self@.params.sampling.max_samples_per_pixel,
    {
        (
            self.render_progress.accumulated_samples(),
            self.latest_render_params.sampling.max_samples_per_pixel,
        )
    }
}

/// Drawing frames changes neither the parameters in force nor anything but
/// the progress and the frame counter, which grows by one per frame.
pub proof fn lemma_frames_keep_params(state: RaytracerState, frames: nat)
    ensures
        state.after_frames(frames).params == state.params,
        state.after_frames(frames).frame_number == state.frame_number + frames,
    decreases frames,
{
    if frames > 0 {
        lemma_frames_keep_params(state, (frames - 1) as nat);
    }
}

/// Setting the parameters that are in force changes nothing, whatever the sky
/// model says of them: they are not validated again and the accumulation is
/// not reset.
pub proof fn lemma_same_params_change_nothing(
    state: RaytracerState,
    sky: Result<(), hw_skymodel::rgb::Error>,
)
    ensures
        state.set_render_params(state.params, sky) == state,
{
}

/// Setting the same parameters a second time changes nothing: once a call has
/// put parameters into force, or found them in force, a later call with them
/// leaves the state as it is, however many frames were drawn in between and
/// whatever the sky model says the second time.
pub proof fn lemma_set_render_params_twice(
    state: RaytracerState,
    params: RenderParams,
    first_sky: Result<(), hw_skymodel::rgb::Error>,
    second_sky: Result<(), hw_skymodel::rgb::Error>,
    frames: nat,
)
    requires
        params == state.params || params.spec_validate(first_sky) is Ok,
    ensures
        ({
            let later = state.set_render_params(params, first_sky).after_frames(frames);
            later.set_render_params(params, second_sky) == later
        }),
{
    lemma_frames_keep_params(state.set_render_params(params, first_sky), frames);
}

/// Parameters that fail validation change nothing.
pub proof fn lemma_rejected_params_change_nothing(
    state: RaytracerState,
    params: RenderParams,
    sky: Result<(), hw_skymodel::rgb::Error>,
)
    requires
        params.spec_validate(sky) is Err,
    ensures
        state.set_render_params(params, sky) == state,
{
}

/// New parameters that pass validation restart the render: nothing is
/// accumulated any more, the next frame clears the image, and the frame
/// counter goes on.
pub proof fn lemma_new_params_restart(
    state: RaytracerState,
    params: RenderParams,
    sky: Result<(), hw_skymodel::rgb::Error>,
)
    requires
        state.accepts(params, sky),
    ensures
        state.set_render_params(params, sky).params == params,
        state.set_render_params(params, sky).accumulated == 0,
        state.set_render_params(params, sky).frame_number == state.frame_number,
        frame_params(
            state.set_render_params(params, sky).accumulated,
            params.sampling,
        ).clear_accumulated_samples == 1,
{
}

/// From a fresh image the progress never exceeds the budget: after `frames`
/// frames it is `frames` shares, capped at the budget, so the fraction that
/// [`Raytracer::progress`] reports lies between 0 and 1 and is 1 from frame
/// `max_samples_per_pixel / num_samples_per_pixel` on.
pub proof fn lemma_progress_is_a_fraction(state: RaytracerState, frames: nat)
    requires
        state.params.sampling.well_formed(),
        state.accumulated == 0,
    ensures
        state.after_frames(frames).accumulated == accumulated_after(frames, state.params.sampling),
        0 <= state.after_frames(frames).accumulated <= state.params.sampling.max_samples_per_pixel,
        frames >= state.params.sampling.frames_to_complete() ==> state.after_frames(
            frames,
        ).accumulated == state.params.sampling.max_samples_per_pixel,
    decreases frames,
{
    lemma_accumulated_after(frames, state.params.sampling);
    if frames > 0 {
        lemma_progress_is_a_fraction(state, (frames - 1) as nat);
        lemma_frames_keep_params(state, (frames - 1) as nat);
    }
    let num = state.params.sampling.num_samples_per_pixel as int;
    assert(frames * num >= 0) by (nonlinear_arith)
        requires
            frames >= 0,
            num > 0,
    ;
    let total = state.params.sampling.frames_to_complete();
    let max = state.params.sampling.max_samples_per_pixel as int;
    if frames <= total {
        assert(frames * num <= max) by (nonlinear_arith)
            requires
                frames <= total,
                total == max / num,
                num > 0,
                max >= 0,
        ;
    }
}

} // verus!
