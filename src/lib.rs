//! Ownership-safe handling of OpenGL shader programs and vertex objects,
//! and validation of driver calls.
//!
//! The driver itself is called by the embedding program: the library decides
//! what to ask the driver next and what its answers mean, and keeps track of
//! every object it asks the driver to create, so that each is deleted once.

pub mod config;
pub mod version;
pub mod validation;
pub mod diagnostics;
pub mod shader;
pub mod buffers;
