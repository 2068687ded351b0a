//! A verified model of a hardware-accelerated ray-tracing frame pipeline.
//!
//! The library covers the decision and layout logic of the pipeline: sizing
//! and packing the shader binding table, selecting memory types, packing and
//! serialising acceleration-structure instance records, planning one-shot
//! acceleration-structure builds (including the mandatory upload barrier),
//! driving the per-frame synchronisation protocol, and ordering swapchain
//! recreation.  The driver calls themselves are performed by an unverified
//! front end that executes the plans and action sequences this library emits.

pub mod accel;
pub mod frame;
pub mod instance;
pub mod memory;
pub mod pass;
pub mod sbt;
pub mod scene;
pub mod swapchain;
