//! Core of a progressive, accumulation-based sphere raytracer that runs its
//! kernel on the GPU.
//!
//! The crate holds everything that can be decided on the CPU without touching
//! a device: parameter validation, the sample-accumulation state machine, the
//! packing of a scene into flat GPU buffers and the layout of the four binding
//! groups that the kernel expects.

pub mod bindings;
pub mod camera;
pub mod fps;
pub mod input;
pub mod material;
pub mod params;
pub mod raytracer;
pub mod res;
pub mod sampling;
pub mod scalar;
pub mod scene;
pub mod sky;
pub mod sphere;
pub mod texture;
pub mod wire;
