use vstd::prelude::*;

pub mod diego_runtime;
pub mod runtime_error;
pub mod runtime_info;
pub mod string_utils;

verus! {

/// Error during a value conversion, carrying the offending value.
#[derive(Debug, Clone)]
pub enum ConversionError<T> {
    InvalidValue(T),
    UnsupportedType(T),
}

/// Size of an object in bytes.
pub trait SizeOf {
    /// The size in bytes, as a specification-level value.
    spec fn spec_size(&self) -> usize;

    /// Returns the size of the object in bytes.
    fn size(&self) -> (r: usize)
        ensures
            r == self.spec_size(),
    ;
}

} // verus!
