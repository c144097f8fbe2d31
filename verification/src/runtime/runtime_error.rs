use vstd::prelude::*;
use crate::runtime::runtime_info::RuntimeInfo;

verus! {

/// Faults of the engine's runtime layer, each carrying where it was
/// noticed; the graphics-API variant also carries the reported error code.
#[derive(Debug)]
pub enum RuntimeError {
    ObjectCreationError(RuntimeInfo),
    InvalidBufferSize(RuntimeInfo),
    OpenGLError(RuntimeInfo, Option<u32>),
}

} // verus!
