//! A safety layer over a stateful graphics device: buffer objects, shader
//! programs, uniform values, and the orchestration of a single draw call.
//!
//! Device state is modelled explicitly by [`device::Device`]: every operation
//! that the real driver would perform is recorded there, so that the layout,
//! lifetime, and state-machine rules of the layer can be stated and proved.
//! An unverified front end performs the actual driver calls and mirrors them
//! against this model.

/// Device buffer utilities
pub mod buffer;

/// Explicit model of the graphics device state
pub mod device;

/// Graphical primitives
pub mod primitive;

/// The central draw orchestrator
pub mod renderer;

/// Shader and program utilities
pub mod shader;

/// Shader uniforms
pub mod uniforms;

/// Device type tags
pub mod types;

pub use renderer::{DrawMode, Renderer};
