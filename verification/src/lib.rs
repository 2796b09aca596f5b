//! Core of a minimal real-time sprite renderer: frame lifecycle management,
//! GPU resource planning, shader selection and the growable instance buffer.
//!
//! The crate holds the decision logic of the renderer. The GPU itself, the
//! windowing layer and the entity world are collaborators driven by a thin
//! unverified shell that executes the plans this library produces.

pub mod camera;
pub mod frame;
pub mod shaders;
pub mod sprites;

use vstd::prelude::*;

verus! {

} // verus!
