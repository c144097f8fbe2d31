use vstd::prelude::*;
use crate::glx::vertex_data_type::VertexDataType;
use crate::runtime::SizeOf;

verus! {

/// One vertex attribute of a layout: how many components it has, how they
/// are stored, and where it sits in the buffer. A `stride` of 0 and an
/// absent `offset` mean "derive from the layout" (see
/// `DynamicVertexLayout::finalize_attributes`).
#[derive(Clone, Debug)]
pub struct VertexAttribute {
    /// Optional name, useful when querying by name in shader programs.
    pub name: Option<String>,
    pub components: u8,
    pub data_type: VertexDataType,
    pub normalized: bool,
    pub stride: i32,
    pub offset: Option<u32>,
}

impl VertexAttribute {
    /// The byte size of the attribute: component size times component
    /// count.
    pub open spec fn spec_calculate_size(self) -> int {
        self.data_type.spec_size() * self.components
    }

    pub fn new(components: u8, data_type: VertexDataType) -> (r: Self)
        ensures
            r.name is None,
            r.components == components,
            r.data_type == data_type,
            !r.normalized,
            r.stride == 0,
            r.offset is None,
    {
        Self { name: None, components, data_type, normalized: false, stride: 0, offset: None }
    }

    pub fn with_name(self, name: Option<String>) -> (r: Self)
        ensures
            r == (Self { name, ..self }),
    {
        Self { name, ..self }
    }

    pub fn with_components(self, components: u8) -> (r: Self)
        ensures
            r == (Self { components, ..self }),
    {
        Self { components, ..self }
    }

    pub fn with_data_type(self, data_type: VertexDataType) -> (r: Self)
        ensures
            r == (Self { data_type, ..self }),
    {
        Self { data_type, ..self }
    }

    pub fn with_normalized(self, normalized: bool) -> (r: Self)
        ensures
            r == (Self { normalized, ..self }),
    {
        Self { normalized, ..self }
    }

    pub fn with_stride(self, stride: i32) -> (r: Self)
        ensures
            r == (Self { stride, ..self }),
    {
        Self { stride, ..self }
    }

    pub fn with_offset(self, offset: Option<u32>) -> (r: Self)
        ensures
            r == (Self { offset, ..self }),
    {
        Self { offset, ..self }
    }

    /// Calculates the byte size of the attribute from its component type
    /// and count.
    pub fn calculate_size(&self) -> (r: usize)
        ensures
            r == self.spec_calculate_size(),
    {
        self.data_type.size() * (self.components as usize)
    }
}

/// Attributes are compared by shape alone: component count, data type and
/// normalization; the name and the buffer placement do not matter.
impl PartialEq for VertexAttribute {
    fn eq(&self, other: &Self) -> (r: bool) {
        self.components == other.components && self.data_type == other.data_type
            && self.normalized == other.normalized
    }
}

impl vstd::std_specs::cmp::PartialEqSpecImpl for VertexAttribute {
    open spec fn obeys_eq_spec() -> bool {
        true
    }

    open spec fn eq_spec(&self, other: &Self) -> bool {
        self.components == other.components && self.data_type == other.data_type
            && self.normalized == other.normalized
    }
}

impl Eq for VertexAttribute {

}

} // verus!
