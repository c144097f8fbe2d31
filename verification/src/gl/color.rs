use vstd::prelude::*;

verus! {

/// Errors of parsing a color from a hexadecimal code.
#[derive(Debug)]
pub enum ColorError {
    InvalidHexLength,
    InvalidHexCharacter,
}

} // verus!
