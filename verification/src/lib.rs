//! A live GLSL-shader viewer's verified core: uniform reflection over the
//! driver-reported types, role resolution driven by an embedded configuration
//! block, and the failure-safe live-reload state machine.
//!
//! The host layer around this crate owns everything the GPU, the window and
//! the filesystem do: it reads shader files, compiles programs, polls input
//! and watch events, and binds uniforms.  Everything it decides with those
//! values — which uniforms exist, what they hold, when to reload, when to
//! exit, what survives a failed reload — is computed here, under contract.

pub mod config;
pub mod error;
pub mod load;
pub mod registry;
pub mod resolve;
pub mod session;
pub mod source;
pub mod store;
pub mod uniform;
