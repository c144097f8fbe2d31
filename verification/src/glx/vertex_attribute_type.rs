use vstd::prelude::*;
use vstd::string::StrSliceExecFns;
use crate::glx::vertex_attribute::VertexAttribute;
use crate::glx::vertex_data_type::VertexDataType;

verus! {

/// Common vertex attribute shapes: each stands for a float attribute with
/// a fixed component count and a conventional shader name.
#[derive(Debug, Clone, Copy)]
pub enum VertexAttributeType {
    /// 3 components per position, float, not normalized.
    Position,
    /// 2 components per position, float, not normalized.
    Position2D,
    /// 4 components per color, float, not normalized.
    Color,
    /// 2 components per texture coordinate, float, not normalized.
    TexCoords,
    /// 3 components per normal, float, not normalized.
    Normal,
}

impl VertexAttributeType {
    /// How many components an attribute of this type has.
    pub open spec fn spec_components(self) -> int {
        match self {
            VertexAttributeType::Position => 3,
            VertexAttributeType::Position2D => 2,
            VertexAttributeType::Color => 4,
            VertexAttributeType::TexCoords => 2,
            VertexAttributeType::Normal => 3,
        }
    }

    /// The conventional shader name of an attribute of this type.
    pub open spec fn spec_attribute_name(self) -> Seq<char> {
        match self {
            VertexAttributeType::Position => "position"@,
            VertexAttributeType::Position2D => "position"@,
            VertexAttributeType::Color => "color"@,
            VertexAttributeType::TexCoords => "tex_coord"@,
            VertexAttributeType::Normal => "normal"@,
        }
    }

    /// Whether `attribute` is the standard attribute this type stands
    /// for.
    pub open spec fn spec_matches_attribute(self, attribute: VertexAttribute) -> bool {
        &&& attribute.components == self.spec_components()
        &&& attribute.data_type == VertexDataType::Float
        &&& !attribute.normalized
        &&& attribute.stride == 0
        &&& attribute.offset is None
        &&& match attribute.name {
            Some(n) => n@ == self.spec_attribute_name(),
            None => false,
        }
    }

    pub fn components(&self) -> (r: i32)
        ensures
            r == self.spec_components(),
    {
        match self {
            VertexAttributeType::Position => 3,
            VertexAttributeType::Position2D => 2,
            VertexAttributeType::Color => 4,
            VertexAttributeType::TexCoords => 2,
            VertexAttributeType::Normal => 3,
        }
    }

    /// The standard named float attribute this type stands for.
    pub fn to_attribute(&self) -> (r: VertexAttribute)
        ensures
            self.spec_matches_attribute(r),
    {
        match self {
            VertexAttributeType::Position => VertexAttribute::new(
                3,
                VertexDataType::Float,
            ).with_name(Some("position".to_owned())),
            VertexAttributeType::Position2D => VertexAttribute::new(
                2,
                VertexDataType::Float,
            ).with_name(Some("position".to_owned())),
            VertexAttributeType::Color => VertexAttribute::new(
                4,
                VertexDataType::Float,
            ).with_name(Some("color".to_owned())),
            VertexAttributeType::TexCoords => VertexAttribute::new(
                2,
                VertexDataType::Float,
            ).with_name(Some("tex_coord".to_owned())),
            VertexAttributeType::Normal => VertexAttribute::new(
                3,
                VertexDataType::Float,
            ).with_name(Some("normal".to_owned())),
        }
    }

    /// Converts a list of attribute types into the standard attributes
    /// they stand for, in order.
    pub fn convert_attributes(input: &Vec<VertexAttributeType>) -> (r: Vec<VertexAttribute>)
        ensures
            r@.len() == input@.len(),
            forall|i: int|
                0 <= i < input@.len() ==> (#[trigger] input@[i]).spec_matches_attribute(r@[i]),
    {
        let mut r: Vec<VertexAttribute> = Vec::new();
        let mut i: usize = 0;
        while i < input.len()
            invariant
                i <= input@.len(),
                r@.len() == i,
                forall|k: int|
                    0 <= k < i ==> (#[trigger] input@[k]).spec_matches_attribute(r@[k]),
            decreases input@.len() - i,
        {
            r.push(input[i].to_attribute());
            i += 1;
        }
        r
    }
}

} // verus!
