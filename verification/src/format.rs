//! Vertex-format descriptors: the scalar/vector/matrix kind, name and byte
//! offset of each field of a vertex record, and the declarative binding
//! builder that computes a record type's format once, field by field.

use vstd::prelude::*;

verus! {

/// The kind of one vertex attribute: a scalar, a small vector of scalars, or
/// a square matrix of single-precision floats.
#[derive(Clone, Copy, PartialEq, Eq, Structural, Debug)]
pub enum AttributeType {
    I8,
    I8I8,
    I8I8I8I8,
    U8,
    U8U8,
    U8U8U8U8,
    I16,
    I16I16,
    I16I16I16I16,
    U16,
    U16U16,
    U16U16U16U16,
    I32,
    I32I32,
    I32I32I32,
    I32I32I32I32,
    U32,
    U32U32,
    U32U32U32,
    U32U32U32U32,
    F32,
    F32F32,
    F32F32F32,
    F32F32F32F32,
    F32x2x2,
    F32x3x3,
    F32x4x4,
}

impl AttributeType {
    /// The number of scalar components of this kind.
    pub open spec fn num_components_spec(self) -> usize {
        match self {
            AttributeType::I8 => 1,
            AttributeType::I8I8 => 2,
            AttributeType::I8I8I8I8 => 4,
            AttributeType::U8 => 1,
            AttributeType::U8U8 => 2,
            AttributeType::U8U8U8U8 => 4,
            AttributeType::I16 => 1,
            AttributeType::I16I16 => 2,
            AttributeType::I16I16I16I16 => 4,
            AttributeType::U16 => 1,
            AttributeType::U16U16 => 2,
            AttributeType::U16U16U16U16 => 4,
            AttributeType::I32 => 1,
            AttributeType::I32I32 => 2,
            AttributeType::I32I32I32 => 3,
            AttributeType::I32I32I32I32 => 4,
            AttributeType::U32 => 1,
            AttributeType::U32U32 => 2,
            AttributeType::U32U32U32 => 3,
            AttributeType::U32U32U32U32 => 4,
            AttributeType::F32 => 1,
            AttributeType::F32F32 => 2,
            AttributeType::F32F32F32 => 3,
            AttributeType::F32F32F32F32 => 4,
            AttributeType::F32x2x2 => 4,
            AttributeType::F32x3x3 => 9,
            AttributeType::F32x4x4 => 16,
        }
    }

    /// The byte size of one scalar component of this kind.
    pub open spec fn component_size_spec(self) -> usize {
        match self {
            AttributeType::I8 => 1,
            AttributeType::I8I8 => 1,
            AttributeType::I8I8I8I8 => 1,
            AttributeType::U8 => 1,
            AttributeType::U8U8 => 1,
            AttributeType::U8U8U8U8 => 1,
            AttributeType::I16 => 2,
            AttributeType::I16I16 => 2,
            AttributeType::I16I16I16I16 => 2,
            AttributeType::U16 => 2,
            AttributeType::U16U16 => 2,
            AttributeType::U16U16U16U16 => 2,
            _ => 4,
        }
    }

    /// The byte size of one attribute of this kind: component count times
    /// component size.
    pub open spec fn size_bytes_spec(self) -> usize {
        (self.num_components_spec() * self.component_size_spec()) as usize
    }

    /// The number of scalar components of this kind: the element count a
    /// shader sees for the attribute.
    pub fn num_components(self) -> (r: usize)
        ensures
            r == self.num_components_spec(),
    {
        match self {
            AttributeType::I8 => 1,
            AttributeType::I8I8 => 2,
            AttributeType::I8I8I8I8 => 4,
            AttributeType::U8 => 1,
            AttributeType::U8U8 => 2,
            AttributeType::U8U8U8U8 => 4,
            AttributeType::I16 => 1,
            AttributeType::I16I16 => 2,
            AttributeType::I16I16I16I16 => 4,
            AttributeType::U16 => 1,
            AttributeType::U16U16 => 2,
            AttributeType::U16U16U16U16 => 4,
            AttributeType::I32 => 1,
            AttributeType::I32I32 => 2,
            AttributeType::I32I32I32 => 3,
            AttributeType::I32I32I32I32 => 4,
            AttributeType::U32 => 1,
            AttributeType::U32U32 => 2,
            AttributeType::U32U32U32 => 3,
            AttributeType::U32U32U32U32 => 4,
            AttributeType::F32 => 1,
            AttributeType::F32F32 => 2,
            AttributeType::F32F32F32 => 3,
            AttributeType::F32F32F32F32 => 4,
            AttributeType::F32x2x2 => 4,
            AttributeType::F32x3x3 => 9,
            AttributeType::F32x4x4 => 16,
        }
    }

    /// The byte size of one attribute of this kind.
    pub fn size_bytes(self) -> (r: usize)
        ensures
            r == self.size_bytes_spec(),
            r <= 64,
    {
        let components = self.num_components();
        let size = match self {
            AttributeType::I8 => 1,
            AttributeType::I8I8 => 1,
            AttributeType::I8I8I8I8 => 1,
            AttributeType::U8 => 1,
            AttributeType::U8U8 => 1,
            AttributeType::U8U8U8U8 => 1,
            AttributeType::I16 => 2,
            AttributeType::I16I16 => 2,
            AttributeType::I16I16I16I16 => 2,
            AttributeType::U16 => 2,
            AttributeType::U16U16 => 2,
            AttributeType::U16U16U16U16 => 2,
            _ => 4,
        };
        components * size
    }
}

/// Describes one named field of a vertex record: its name, its byte offset
/// within the record, and its kind. Immutable once built.
#[derive(Clone, Debug)]
pub struct AttributeFormat {
    /// The attribute's name; shader inputs are matched against it.
    pub name: String,
    /// Byte offset of the field within the record.
    pub offset: usize,
    /// The field's scalar/vector/matrix kind.
    pub ty: AttributeType,
}

/// The mathematical value of an [`AttributeFormat`].
pub struct AttributeFormatModel {
    /// The attribute's name.
    pub name: Seq<char>,
    /// Byte offset of the field within the record.
    pub offset: usize,
    /// The field's kind.
    pub ty: AttributeType,
}

impl View for AttributeFormat {
    type V = AttributeFormatModel;

    open spec fn view(&self) -> AttributeFormatModel {
        AttributeFormatModel { name: self.name@, offset: self.offset, ty: self.ty }
    }
}

/// The ordered sequence of attribute descriptors of one record type. Order
/// is significant only for documentation; matching against shader inputs is
/// by name.
pub type VertexFormat = Vec<AttributeFormat>;

/// The mathematical value of a [`VertexFormat`]: its descriptors' values, in
/// order.
pub open spec fn format_model(f: Seq<AttributeFormat>) -> Seq<AttributeFormatModel> {
    f.map(|i: int, a: AttributeFormat| a@)
}

/// Builds a [`VertexFormat`] field by field, in declaration order, computing
/// each field's byte offset from the sizes of the fields already declared:
/// the layout of a packed record.
///
/// Building the same sequence of fields always produces the same format, so
/// one record type's format is stable across calls.
pub struct VertexFormatBuilder {
    /// The descriptors declared so far, in order.
    pub attrs: VertexFormat,
    /// Byte offset the next declared field will receive.
    pub next_offset: usize,
}

impl VertexFormatBuilder {
    /// The descriptors declared so far, as their mathematical values.
    pub open spec fn model(self) -> Seq<AttributeFormatModel> {
        format_model(self.attrs@)
    }

    /// The mathematical value the builder's state steps to when a field of
    /// kind `ty` named `name` is declared.
    pub open spec fn pushed_model(self, name: Seq<char>, ty: AttributeType) -> Seq<
        AttributeFormatModel,
    > {
        self.model().push(
            AttributeFormatModel { name, offset: self.next_offset, ty },
        )
    }

    /// Starts a format with no fields.
    pub fn new() -> (r: VertexFormatBuilder)
        ensures
            r.model() == Seq::<AttributeFormatModel>::empty(),
            r.next_offset == 0,
    {
        let r = VertexFormatBuilder { attrs: Vec::new(), next_offset: 0 };
        proof {
            assert(r.model() =~= Seq::<AttributeFormatModel>::empty());
        }
        r
    }

    /// Declares the next field: it is placed at the current offset, and the
    /// offset advances by the field's byte size.
    pub fn field(&mut self, name: String, ty: AttributeType)
        requires
            old(self).next_offset + ty.size_bytes_spec() <= usize::MAX,
        ensures
            final(self).model() == old(self).pushed_model(name@, ty),
            final(self).next_offset == old(self).next_offset + ty.size_bytes_spec(),
    {
        let ghost prior = *self;
        let size = ty.size_bytes();
        let attr = AttributeFormat { name, offset: self.next_offset, ty };
        self.attrs.push(attr);
        self.next_offset = self.next_offset + size;
        proof {
            assert(self.model() =~= prior.pushed_model(attr.name@, ty));
        }
    }

    /// Hands the finished format out.
    pub fn build(self) -> (r: VertexFormat)
        ensures
            format_model(r@) == self.model(),
    {
        self.attrs
    }
}

/// Trait for structures that represent a vertex record.
///
/// An implementation declares, through `bindings_model`, the one format its
/// `build_bindings` always returns: every call yields the same names, kinds
/// and offsets.
pub trait Vertex: Sized {
    /// The mathematical value of the format this record type binds to.
    spec fn bindings_model() -> Seq<AttributeFormatModel>;

    /// Builds the `VertexFormat` representing the layout of this record type.
    fn build_bindings() -> (r: VertexFormat)
        ensures
            format_model(r@) == Self::bindings_model(),
    ;
}

/// Two formats built for the same record type are field-for-field identical:
/// the same names, kinds and offsets, whatever else differs between the two
/// calls that produced them.
pub proof fn lemma_bindings_idempotent<V: Vertex>(
    f1: Seq<AttributeFormatModel>,
    f2: Seq<AttributeFormatModel>,
)
    requires
        f1 == V::bindings_model(),
        f2 == V::bindings_model(),
    ensures
        f1 == f2,
{
}

/// Trait for types that can be used as one vertex attribute.
pub trait Attribute: Sized {
    /// The kind of attribute this type carries.
    spec fn type_spec() -> AttributeType;

    /// Get the kind of data.
    fn get_type() -> (r: AttributeType)
        ensures
            r == Self::type_spec(),
    ;
}

impl Attribute for i8 {
    open spec fn type_spec() -> AttributeType {
        AttributeType::I8
    }

    fn get_type() -> (r: AttributeType) {
        AttributeType::I8
    }
}

impl Attribute for u8 {
    open spec fn type_spec() -> AttributeType {
        AttributeType::U8
    }

    fn get_type() -> (r: AttributeType) {
        AttributeType::U8
    }
}

impl Attribute for i16 {
    open spec fn type_spec() -> AttributeType {
        AttributeType::I16
    }

    fn get_type() -> (r: AttributeType) {
        AttributeType::I16
    }
}

impl Attribute for u16 {
    open spec fn type_spec() -> AttributeType {
        AttributeType::U16
    }

    fn get_type() -> (r: AttributeType) {
        AttributeType::U16
    }
}

impl Attribute for i32 {
    open spec fn type_spec() -> AttributeType {
        AttributeType::I32
    }

    fn get_type() -> (r: AttributeType) {
        AttributeType::I32
    }
}

impl Attribute for u32 {
    open spec fn type_spec() -> AttributeType {
        AttributeType::U32
    }

    fn get_type() -> (r: AttributeType) {
        AttributeType::U32
    }
}

} // verus!
