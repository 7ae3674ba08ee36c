//! The load pipeline's error taxonomy.  Every variant is fatal at the
//! initial startup load; during a live reload the host layer logs the error
//! and keeps the previous program and uniform set (see `session::apply_reload`).

use vstd::prelude::*;

verus! {

/// Why a load or reload pass failed.
#[derive(Debug, PartialEq, Eq)]
pub enum LoadError {
    /// A shader source file could not be read (reported by the host layer).
    SourceRead(String),
    /// A configuration-block delimiter was found, but no GLSL body segment
    /// follows the second delimiter.
    MalformedBlock,
    /// The configuration block is not a well-formed document; carries the
    /// parser's diagnostic.
    ConfigParse(String),
    /// The GPU driver rejected the shader; carries the driver's diagnostic
    /// (reported by the host layer).
    Compile(String),
    /// The linked program declares a uniform whose type is outside the
    /// supported set (for example a sampler or a matrix); carries the
    /// uniform's name.
    UnsupportedUniformType(String),
}

} // verus!
