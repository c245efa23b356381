//! The data model: tagged-union values with resolved wire names.
//!
//! A value names its active variant and carries that variant's fields.  Wire
//! names — the literal tag and attribute names used on the wire — are
//! computed by an external label resolver before a value reaches the engine,
//! so every name stored here is already the resolved one.

use vstd::prelude::*;

verus! {

/// A scalar field payload.
///
/// The engine only ever renders a scalar to text, so the floating-point
/// kinds are carried as their already-rendered decimal text: which digits a
/// float formats to is the business of whoever built the value.
#[derive(Clone, PartialEq, Debug)]
pub enum Scalar {
    Str(String),
    Bool(bool),
    U8(u8),
    I8(i8),
    U16(u16),
    I16(i16),
    U32(u32),
    I32(i32),
    U64(u64),
    I64(i64),
    USize(usize),
    /// A 32-bit floating scalar, as its rendered text.
    F32Text(String),
    /// A 64-bit floating scalar, as its rendered text.
    F64Text(String),
}

/// A field's XML placement, resolved externally and mutually exclusive.
#[derive(Clone, Copy, PartialEq, Eq, Debug)]
pub enum Role {
    /// Written into the variant element's start event.
    Attribute,
    /// Written as a child element.
    Element,
    /// Written as the variant element's raw character payload; legal only
    /// for named-fields variants.
    TextContent,
}

/// One entry of a list field, or the payload of an optional field: either a
/// scalar or a nested structured value that serializes itself.
pub enum Item {
    Scalar(Scalar),
    Nested(Box<VariantValue>),
}

/// The payload of a named field, by content kind.
pub enum FieldContent {
    Scalar(Scalar),
    /// A nested structured value, serialized recursively against the same
    /// writer.
    Nested(Box<VariantValue>),
    /// A list: one wrapper element per item, all sharing the field's name.
    List(Vec<Item>),
    /// An optional value; optional fields of a named-fields variant are
    /// never serialized, present or absent.
    Optional(Option<Item>),
}

/// One field of a named-fields variant, under its resolved wire name.
pub struct NamedField {
    pub name: String,
    pub role: Role,
    pub content: FieldContent,
}

/// The payload of a positional (single-field) variant.
pub enum PositionalContent {
    Single(Item),
    /// An absent optional yields no events — no empty wrapper pair.
    Optional(Option<Item>),
    /// An empty list yields no events; each item gets its own wrapper pair.
    List(Vec<Item>),
}

/// The shape of the active variant, fixed when the type is defined.
pub enum Shape {
    /// No fields: an empty element.
    Unit,
    /// Fields keyed by name, in declaration order.
    NamedFields(Vec<NamedField>),
    /// Exactly one carried field; a field marked `Role::Attribute` is
    /// unsupported for this shape and dropped silently.
    PositionalField { role: Role, content: PositionalContent },
}

/// A tagged-union value: the active variant's resolved wire name and its
/// shape with the carried fields.
pub struct VariantValue {
    pub name: String,
    pub shape: Shape,
}

/// The handoff passed into a recursive serialization call: which name the
/// callee should open its wrapper element under, and whether it should skip
/// the wrapper because the caller already holds one open.
///
/// Each context is built immediately before one recursive call and consumed
/// by it alone, so there is no shared mutable slot to misuse.
#[derive(Clone, PartialEq, Debug)]
pub struct WriteContext {
    /// The wrapper name the caller prescribes; when absent, the callee's own
    /// variant name is used.
    pub override_name: Option<String>,
    /// When set, the callee writes no wrapper of its own and reuses the
    /// element the caller left open.
    pub suppress_wrapper: bool,
}

} // verus!
