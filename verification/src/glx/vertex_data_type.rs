use vstd::prelude::*;
use crate::runtime::SizeOf;

verus! {

/// The scalar types vertex components can be stored as.
#[derive(Debug, Clone, Copy, PartialEq, Eq, Hash, Structural)]
pub enum VertexDataType {
    Byte,
    UnsignedByte,
    Short,
    UnsignedShort,
    Int,
    UnsignedInt,
    HalfFloat,
    Float,
    Double,
    Fixed,
    #[allow(non_camel_case_types)]
    Int_2_10_10_10_Rev,
    #[allow(non_camel_case_types)]
    UnsignedInt_2_10_10_10_Rev,
    #[allow(non_camel_case_types)]
    UnsignedInt_10F_11F_11F_Rev,
}

impl SizeOf for VertexDataType {
    /// The storage size in bytes of one component of this type.
    open spec fn spec_size(&self) -> usize {
        match self {
            VertexDataType::Byte => 1,
            VertexDataType::UnsignedByte => 1,
            VertexDataType::Short => 2,
            VertexDataType::UnsignedShort => 2,
            VertexDataType::Int => 4,
            VertexDataType::UnsignedInt => 4,
            VertexDataType::HalfFloat => 2,
            VertexDataType::Float => 4,
            VertexDataType::Double => 8,
            VertexDataType::Fixed => 4,
            VertexDataType::Int_2_10_10_10_Rev => 4,
            VertexDataType::UnsignedInt_2_10_10_10_Rev => 4,
            VertexDataType::UnsignedInt_10F_11F_11F_Rev => 4,
        }
    }

    fn size(&self) -> (r: usize)
        ensures
            r == self.spec_size(),
    {
        match self {
            VertexDataType::Byte => 1,
            VertexDataType::UnsignedByte => 1,
            VertexDataType::Short => 2,
            VertexDataType::UnsignedShort => 2,
            VertexDataType::Int => 4,
            VertexDataType::UnsignedInt => 4,
            VertexDataType::HalfFloat => 2,
            VertexDataType::Float => 4,
            VertexDataType::Double => 8,
            VertexDataType::Fixed => 4,
            VertexDataType::Int_2_10_10_10_Rev => 4,
            VertexDataType::UnsignedInt_2_10_10_10_Rev => 4,
            VertexDataType::UnsignedInt_10F_11F_11F_Rev => 4,
        }
    }
}

} // verus!
