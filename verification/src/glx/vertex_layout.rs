use vstd::prelude::*;
use vstd::string::StrSliceExecFns;
use crate::glx::vertex_attribute::VertexAttribute;
use crate::runtime::SizeOf;

verus! {

/// The total byte size of the attributes: the sum of their individual
/// sizes.
pub open spec fn spec_layout_size(attrs: Seq<VertexAttribute>) -> int
    decreases attrs.len(),
{
    if attrs.len() == 0 {
        0
    } else {
        spec_layout_size(attrs.drop_last()) + attrs.last().spec_calculate_size()
    }
}

/// Every prefix of a layout is at most as large as the next longer one,
/// and no larger than the whole: attribute sizes are never negative.
pub proof fn lemma_layout_prefix_le(attrs: Seq<VertexAttribute>, j: int)
    requires
        0 <= j <= attrs.len(),
    ensures
        spec_layout_size(attrs.take(j)) <= spec_layout_size(attrs),
        0 <= spec_layout_size(attrs.take(j)),
    decreases attrs.len() - j,
{
    lemma_layout_size_nonneg(attrs.take(j));
    if j == attrs.len() {
        assert(attrs.take(j) =~= attrs);
    } else {
        assert(attrs.take(j + 1).drop_last() =~= attrs.take(j));
        assert(attrs.take(j + 1).last() == attrs[j]);
        lemma_layout_prefix_le(attrs, j + 1);
    }
}

pub proof fn lemma_layout_size_nonneg(attrs: Seq<VertexAttribute>)
    ensures
        0 <= spec_layout_size(attrs),
    decreases attrs.len(),
{
    if attrs.len() > 0 {
        lemma_layout_size_nonneg(attrs.drop_last());
        lemma_attr_size_bounds(attrs.last());
    }
}

/// One attribute occupies between 0 and 2040 bytes: at most 8 bytes for
/// each of at most 255 components.
pub proof fn lemma_attr_size_bounds(a: VertexAttribute)
    ensures
        0 <= a.spec_calculate_size() <= 2040,
{
    let s = a.data_type.spec_size() as int;
    let c = a.components as int;
    assert(0 <= s <= 8);
    assert(0 <= c <= 255);
    assert(0 <= s * c <= 2040) by (nonlinear_arith)
        requires
            0 <= s <= 8,
            0 <= c <= 255,
    ;
}

/// A fixed vertex layout known at compile time.
pub trait VertexLayout {
    /// The attributes of the layout, in buffer order.
    fn attributes() -> Vec<VertexAttribute>;

    /// The total byte size of one vertex under the layout.
    fn layout_size() -> usize;
}

/// A vertex layout assembled at run time, attribute by attribute.
#[derive(Debug)]
pub struct DynamicVertexLayout {
    attributes: Vec<VertexAttribute>,
}

impl Default for DynamicVertexLayout {
    fn default() -> (r: Self)
        ensures
            r.attrs().len() == 0,
    {
        DynamicVertexLayout { attributes: Vec::new() }
    }
}

impl DynamicVertexLayout {
    /// The attributes of the layout, in buffer order.
    pub closed spec fn attrs(self) -> Seq<VertexAttribute> {
        self.attributes@
    }

    /// Appends `attr` at the end of the layout.
    pub fn add_attribute(&mut self, attr: VertexAttribute)
        ensures
            final(self).attrs() == old(self).attrs().push(attr),
    {
        self.attributes.push(attr);
    }

    /// The total size of the layout in bytes: the sum of each attribute's
    /// size.
    pub fn layout_size(&self) -> (r: usize)
        requires
            spec_layout_size(self.attrs()) <= usize::MAX,
        ensures
            r == spec_layout_size(self.attrs()),
    {
        let n = self.attributes.len();
        let mut total: usize = 0;
        let mut i: usize = 0;
        proof {
            assert(self.attrs().take(0) =~= Seq::<VertexAttribute>::empty());
        }
        while i < n
            invariant
                n == self.attrs().len(),
                i <= n,
                spec_layout_size(self.attrs()) <= usize::MAX,
                total == spec_layout_size(self.attrs().take(i as int)),
            decreases n - i,
        {
            proof {
                assert(self.attrs().take(i + 1).drop_last() =~= self.attrs().take(i as int));
                assert(self.attrs().take(i + 1).last() == self.attrs()[i as int]);
                lemma_layout_prefix_le(self.attrs(), i as int);
                lemma_layout_prefix_le(self.attrs(), i + 1);
                assert(spec_layout_size(self.attrs().take(i + 1)) == spec_layout_size(
                    self.attrs().take(i as int),
                ) + self.attrs()[i as int].spec_calculate_size());
            }
            total = total + self.attributes[i].calculate_size();
            i += 1;
        }
        proof {
            assert(self.attrs().take(n as int) =~= self.attrs());
        }
        total
    }

    /// A layout holding copies of the given attributes, in order.
    pub fn from_attributes(attributes: &Vec<VertexAttribute>) -> (r: Self)
        ensures
            r.attrs().len() == attributes@.len(),
            forall|i: int|
                0 <= i < attributes@.len() ==> spec_attr_copies(r.attrs()[i], attributes@[i]),
    {
        let mut copied: Vec<VertexAttribute> = Vec::new();
        let mut i: usize = 0;
        while i < attributes.len()
            invariant
                i <= attributes@.len(),
                copied@.len() == i,
                forall|k: int| 0 <= k < i ==> spec_attr_copies(copied@[k], attributes@[k]),
            decreases attributes@.len() - i,
        {
            copied.push(copy_attribute(&attributes[i]));
            i += 1;
        }
        DynamicVertexLayout { attributes: copied }
    }

    /// Completes the layout: every attribute whose stride is 0 receives
    /// the packed stride of the whole layout, and every attribute without
    /// an offset receives the packed offset of its position, the
    /// cumulative size of all attributes before it.
    pub fn finalize_attributes(&mut self)
        requires
            spec_layout_size(old(self).attrs()) <= i32::MAX,
        ensures
            final(self).attrs().len() == old(self).attrs().len(),
            forall|i: int|
                #![trigger final(self).attrs()[i]]
                0 <= i < old(self).attrs().len() ==> {
                    let before = old(self).attrs()[i];
                    let after = final(self).attrs()[i];
                    &&& after.name == before.name
                    &&& after.components == before.components
                    &&& after.data_type == before.data_type
                    &&& after.normalized == before.normalized
                    &&& after.stride == if before.stride == 0 {
                        spec_layout_size(old(self).attrs()) as i32
                    } else {
                        before.stride
                    }
                    &&& after.offset == if before.offset is None {
                        Some(spec_layout_size(old(self).attrs().take(i)) as u32)
                    } else {
                        before.offset
                    }
                },
    {
        let ghost orig = self.attributes@;
        let n = self.attributes.len();

        // The packed stride of the layout as a whole.
        let mut stride: i32 = 0;
        let mut i: usize = 0;
        proof {
            assert(orig.take(0) =~= Seq::<VertexAttribute>::empty());
        }
        while i < n
            invariant
                orig == self.attributes@,
                n == orig.len(),
                i <= n,
                spec_layout_size(orig) <= i32::MAX,
                stride == spec_layout_size(orig.take(i as int)),
            decreases n - i,
        {
            proof {
                assert(orig.take(i + 1).drop_last() =~= orig.take(i as int));
                assert(orig.take(i + 1).last() == orig[i as int]);
                lemma_layout_prefix_le(orig, i as int);
                lemma_layout_prefix_le(orig, i + 1);
                assert(spec_layout_size(orig.take(i + 1)) == spec_layout_size(orig.take(i as int))
                    + orig[i as int].spec_calculate_size());
            }
            let size = self.attributes[i].calculate_size();
            proof {
                assert(stride + size == spec_layout_size(orig.take(i + 1)));
            }
            stride = stride + (size as i32);
            i += 1;
        }
        proof {
            assert(orig.take(n as int) =~= orig);
        }

        // Fill in missing strides and offsets, front to back.
        let mut done: Vec<VertexAttribute> = Vec::new();
        let mut current_offset: u32 = 0;
        let mut j: usize = 0;
        while j < n
            invariant
                self.attributes@ == orig.skip(j as int),
                n == orig.len(),
                j <= n,
                done@.len() == j,
                stride == spec_layout_size(orig),
                spec_layout_size(orig) <= i32::MAX,
                current_offset == spec_layout_size(orig.take(j as int)),
                forall|k: int|
                    #![trigger done@[k]]
                    0 <= k < j ==> {
                        let before = orig[k];
                        let after = done@[k];
                        &&& after.name == before.name
                        &&& after.components == before.components
                        &&& after.data_type == before.data_type
                        &&& after.normalized == before.normalized
                        &&& after.stride == if before.stride == 0 {
                            spec_layout_size(orig) as i32
                        } else {
                            before.stride
                        }
                        &&& after.offset == if before.offset is None {
                            Some(spec_layout_size(orig.take(k)) as u32)
                        } else {
                            before.offset
                        }
                    },
            decreases n - j,
        {
            proof {
                assert(orig.take(j + 1).drop_last() =~= orig.take(j as int));
                assert(orig.take(j + 1).last() == orig[j as int]);
                lemma_layout_prefix_le(orig, j as int);
                lemma_layout_prefix_le(orig, j + 1);
                assert(spec_layout_size(orig.take(j + 1)) == spec_layout_size(orig.take(j as int))
                    + orig[j as int].spec_calculate_size());
                assert(self.attributes@[0] == orig[j as int]);
            }
            let size = self.attributes[0].calculate_size();
            proof {
                assert(current_offset + size == spec_layout_size(orig.take(j + 1)));
            }
            let attr = self.attributes.remove(0);
            proof {
                assert(self.attributes@ =~= orig.skip(j + 1));
            }
            let new_stride: i32 = if attr.stride == 0 {
                stride
            } else {
                attr.stride
            };
            let new_offset: Option<u32> = match attr.offset {
                None => Some(current_offset),
                Some(o) => Some(o),
            };
            done.push(
                VertexAttribute {
                    name: attr.name,
                    components: attr.components,
                    data_type: attr.data_type,
                    normalized: attr.normalized,
                    stride: new_stride,
                    offset: new_offset,
                },
            );
            current_offset = current_offset + (size as u32);
            j += 1;
        }
        self.attributes = done;
    }

    /// The attributes of the layout, for inspection.
    pub fn get_attributes(&self) -> (r: &Vec<VertexAttribute>)
        ensures
            r@ == self.attrs(),
    {
        &self.attributes
    }
}

/// Whether `a` restates `b` field by field; the name is compared by its
/// characters.
pub open spec fn spec_attr_copies(a: VertexAttribute, b: VertexAttribute) -> bool {
    &&& match (a.name, b.name) {
        (Some(x), Some(y)) => x@ == y@,
        (None, None) => true,
        _ => false,
    }
    &&& a.components == b.components
    &&& a.data_type == b.data_type
    &&& a.normalized == b.normalized
    &&& a.stride == b.stride
    &&& a.offset == b.offset
}

/// A fresh attribute with the same fields as `attr`.
fn copy_attribute(attr: &VertexAttribute) -> (r: VertexAttribute)
    ensures
        spec_attr_copies(r, *attr),
{
    let name: Option<String> = match &attr.name {
        Some(s) => Some(s.as_str().to_owned()),
        None => None,
    };
    VertexAttribute {
        name,
        components: attr.components,
        data_type: attr.data_type,
        normalized: attr.normalized,
        stride: attr.stride,
        offset: attr.offset,
    }
}

} // verus!
