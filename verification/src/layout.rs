//! Attribute layouts of interleaved vertex data: element types, strides and
//! byte offsets.
//!
//! A vertex is a run of attributes laid out one after another. Each attribute
//! is a number of elements of one scalar type. The stride of a layout is the
//! size in bytes of one whole vertex; the offset of an attribute is the size
//! in bytes of everything that precedes it inside the vertex.

use vstd::prelude::*;

verus! {

/// Size in bytes of one word of raw vertex data (one 32-bit float).
pub const WORD_BYTES: u32 = 4;

/// Scalar type of the elements of one vertex attribute.
#[derive(Clone, Copy, Debug, PartialEq, Eq, Structural)]
pub enum ElementType {
    Byte,
    UnsignedByte,
    Short,
    UnsignedShort,
    Int,
    UnsignedInt,
    Float,
    Double,
}

impl ElementType {
    /// Size in bytes of one element of this type.
    pub open spec fn size_spec(self) -> int {
        match self {
            ElementType::Byte => 1,
            ElementType::UnsignedByte => 1,
            ElementType::Short => 2,
            ElementType::UnsignedShort => 2,
            ElementType::Int => 4,
            ElementType::UnsignedInt => 4,
            ElementType::Float => 4,
            ElementType::Double => 8,
        }
    }

    /// Size in bytes of one element of this type.
    pub fn size_bytes(self) -> (size: u32)
        ensures
            size == self.size_spec(),
    {
        match self {
            ElementType::Byte => 1,
            ElementType::UnsignedByte => 1,
            ElementType::Short => 2,
            ElementType::UnsignedShort => 2,
            ElementType::Int => 4,
            ElementType::UnsignedInt => 4,
            ElementType::Float => 4,
            ElementType::Double => 8,
        }
    }
}

/// One vertex attribute: `element_count` elements of type `element_type`.
#[derive(Clone, Copy, Debug, PartialEq, Eq, Structural)]
pub struct Attribute {
    pub element_type: ElementType,
    pub element_count: u32,
}

impl Attribute {
    /// Bytes that this attribute takes inside one vertex.
    pub open spec fn byte_size(self) -> int {
        self.element_count * self.element_type.size_spec()
    }

    /// Bytes that this attribute takes inside one vertex.
    pub fn size_bytes(&self) -> (size: u64)
        ensures
            size == self.byte_size(),
    {
        let count: u64 = self.element_count as u64;
        let width: u64 = self.element_type.size_bytes() as u64;
        assert(count * width <= 0xffff_ffff * 8) by (nonlinear_arith)
            requires
                count <= 0xffff_ffff,
                width <= 8,
        ;
        count * width
    }
}

/// Stride of a layout: the sum over all attributes of element count times
/// element size.
pub open spec fn layout_stride(layout: Seq<Attribute>) -> int
    decreases layout.len(),
{
    if layout.len() == 0 {
        0
    } else {
        layout_stride(layout.drop_last()) + layout.last().byte_size()
    }
}

/// Byte offset of attribute `index` inside a vertex: the stride of the
/// attributes declared before it.
pub open spec fn attribute_offset(layout: Seq<Attribute>, index: int) -> int {
    layout_stride(layout.take(index))
}

/// Number of elements in a layout, all attributes together.
pub open spec fn element_total(layout: Seq<Attribute>) -> int
    decreases layout.len(),
{
    if layout.len() == 0 {
        0
    } else {
        element_total(layout.drop_last()) + layout.last().element_count
    }
}

/// A layout that the GPU interface can take: attribute indices fit in 32
/// unsigned bits and the stride in 32 signed bits.
pub open spec fn layout_representable(layout: Seq<Attribute>) -> bool {
    layout.len() <= u32::MAX && layout_stride(layout) <= i32::MAX
}

/// Raw data of `word_count` 32-bit words is exactly `vertex_count` vertices
/// of this layout.
pub open spec fn data_matches(layout: Seq<Attribute>, word_count: int, vertex_count: int) -> bool {
    WORD_BYTES * word_count == vertex_count * layout_stride(layout)
}

/// The offset of an attribute and its size add up to the offset of the next
/// attribute.
pub proof fn lemma_offset_step(layout: Seq<Attribute>, index: int)
    requires
        0 <= index < layout.len(),
    ensures
        attribute_offset(layout, index + 1) == attribute_offset(layout, index)
            + layout[index].byte_size(),
{
    let next = layout.take(index + 1);
    assert(next.drop_last() =~= layout.take(index));
    assert(next.last() == layout[index]);
}

/// Offsets start at zero, never decrease, and the offset past the last
/// attribute is the stride.
pub proof fn lemma_offset_bounds(layout: Seq<Attribute>, index: int)
    requires
        0 <= index <= layout.len(),
    ensures
        attribute_offset(layout, 0) == 0,
        attribute_offset(layout, layout.len() as int) == layout_stride(layout),
        0 <= attribute_offset(layout, index) <= layout_stride(layout),
    decreases layout.len() - index,
{
    assert(layout.take(0).len() == 0);
    assert(layout.take(layout.len() as int) =~= layout);
    if index == 0 {
        if layout.len() > 0 {
            lemma_offset_bounds(layout, 1);
            lemma_offset_step(layout, 0);
        }
    } else if index < layout.len() {
        lemma_offset_bounds(layout, index + 1);
        lemma_offset_step(layout, index);
        lemma_offset_nonnegative(layout, index);
    } else {
        lemma_offset_nonnegative(layout, index);
    }
}

proof fn lemma_offset_nonnegative(layout: Seq<Attribute>, index: int)
    requires
        0 <= index <= layout.len(),
    ensures
        0 <= attribute_offset(layout, index),
    decreases index,
{
    if index == 0 {
        assert(layout.take(0).len() == 0);
    } else {
        lemma_offset_nonnegative(layout, index - 1);
        lemma_offset_step(layout, index - 1);
    }
}

/// Where every attribute has elements of one size, the stride is that size
/// times the number of elements, and the offset of an attribute is that size
/// times the number of elements declared before it.
pub proof fn uniform_layout_counts_elements(layout: Seq<Attribute>, element_size: int, index: int)
    requires
        forall|j: int| 0 <= j < layout.len() ==> (#[trigger] layout[j]).element_type.size_spec() == element_size,
        0 <= index <= layout.len(),
    ensures
        layout_stride(layout) == element_total(layout) * element_size,
        attribute_offset(layout, index) == element_total(layout.take(index)) * element_size,
{
    lemma_uniform_stride(layout, element_size);
    lemma_uniform_stride(layout.take(index), element_size);
}

proof fn lemma_uniform_stride(layout: Seq<Attribute>, element_size: int)
    requires
        forall|j: int| 0 <= j < layout.len() ==> (#[trigger] layout[j]).element_type.size_spec() == element_size,
    ensures
        layout_stride(layout) == element_total(layout) * element_size,
    decreases layout.len(),
{
    if layout.len() > 0 {
        let front = layout.drop_last();
        let last = layout.last();
        lemma_uniform_stride(front, element_size);
        assert(last.element_type.size_spec() == element_size);
        assert((element_total(front) + last.element_count) * element_size == element_total(front)
            * element_size + last.element_count * element_size) by (nonlinear_arith);
    }
}

/// An attribute layout that the GPU interface can take, with its stride.
#[derive(Debug, PartialEq, Eq)]
pub struct AttributeLayout {
    attributes: Vec<Attribute>,
    stride: i32,
}

impl View for AttributeLayout {
    type V = Seq<Attribute>;

    closed spec fn view(&self) -> Seq<Attribute> {
        self.attributes@
    }
}

impl AttributeLayout {
    #[verifier::type_invariant]
    spec fn well_formed(&self) -> bool {
        &&& layout_representable(self.attributes@)
        &&& self.stride == layout_stride(self.attributes@)
    }

    /// Takes the attributes in declaration order. Returns the layout if it is
    /// representable, and nothing otherwise.
    pub fn new(attributes: Vec<Attribute>) -> (layout: Option<AttributeLayout>)
        ensures
            layout is Some <==> layout_representable(attributes@),
            layout matches Some(l) ==> l@ == attributes@,
    {
        let count: usize = attributes.len();
        if count > 0xffff_ffff {
            return None;
        }
        let mut total: u64 = 0;
        let mut index: usize = 0;
        while index < count
            invariant
                count == attributes.len(),
                index <= count,
                total == attribute_offset(attributes@, index as int),
                total <= i32::MAX,
            decreases count - index,
        {
            let size: u64 = attributes[index].size_bytes();
            proof {
                lemma_offset_step(attributes@, index as int);
                lemma_offset_bounds(attributes@, index as int + 1);
            }
            if size > 0x7fff_ffff - total {
                return None;
            }
            total = total + size;
            index = index + 1;
        }
        proof {
            lemma_offset_bounds(attributes@, count as int);
        }
        Some(AttributeLayout { attributes, stride: total as i32 })
    }

    /// Number of attributes.
    pub fn len(&self) -> (count: usize)
        ensures
            count == self@.len(),
            layout_representable(self@),
    {
        proof {
            use_type_invariant(self);
        }
        self.attributes.len()
    }

    /// The attribute declared at position `index`.
    pub fn attribute(&self, index: usize) -> (attribute: Attribute)
        requires
            index < self@.len(),
        ensures
            attribute == self@[index as int],
    {
        self.attributes[index]
    }

    /// Size in bytes of one vertex.
    pub fn stride(&self) -> (stride: i32)
        ensures
            stride == layout_stride(self@),
            0 <= stride,
            layout_representable(self@),
    {
        proof {
            use_type_invariant(self);
            lemma_offset_bounds(self@, 0);
        }
        self.stride
    }

    /// Byte offset inside a vertex of the attribute at position `index`; for
    /// `index` equal to the number of attributes, the stride.
    pub fn offset(&self, index: usize) -> (offset: usize)
        requires
            index <= self@.len(),
        ensures
            offset == attribute_offset(self@, index as int),
            offset <= layout_stride(self@),
    {
        proof {
            use_type_invariant(self);
        }
        let mut total: u64 = 0;
        let mut position: usize = 0;
        while position < index
            invariant
                position <= index <= self.attributes.len(),
                total == attribute_offset(self.attributes@, position as int),
                layout_stride(self.attributes@) <= i32::MAX,
            decreases index - position,
        {
            let size: u64 = self.attributes[position].size_bytes();
            proof {
                lemma_offset_step(self.attributes@, position as int);
                lemma_offset_bounds(self.attributes@, position as int + 1);
            }
            total = total + size;
            position = position + 1;
        }
        proof {
            lemma_offset_bounds(self.attributes@, index as int);
        }
        total as usize
    }

    /// Whether raw data of `word_count` 32-bit words is exactly
    /// `vertex_count` vertices of this layout.
    pub fn matches_data(&self, word_count: usize, vertex_count: i32) -> (matches: bool)
        ensures
            matches == data_matches(self@, word_count as int, vertex_count as int),
    {
        let stride: i128 = self.stride() as i128;
        let vertices: i128 = vertex_count as i128;
        let words: i128 = word_count as i128;
        assert(-0x4000_0000_0000_0000 <= vertices * stride <= 0x4000_0000_0000_0000)
            by (nonlinear_arith)
            requires
                -0x8000_0000 <= vertices <= 0x7fff_ffff,
                0 <= stride <= 0x7fff_ffff,
        ;
        4 * words == vertices * stride
    }
}

} // verus!
