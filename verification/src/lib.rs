//! An XML serialization engine for tagged-union (variant) values.
//!
//! Given a value that holds one of several named alternatives — a *variant* —
//! the engine produces the ordered sequence of XML write operations (element
//! open with its attributes, character data, element close) that represents
//! that value.  Variants come in three shapes: no fields, fields keyed by
//! name, or exactly one carried field; each field has a role (attribute,
//! element, or raw text content) and a content kind (scalar, nested value,
//! list, optional).  Nested values recursively drive the same event writer.
//!
//! Wire names are taken as given: resolving an identifier plus rename or
//! namespace directives into the literal tag or attribute name is the job of
//! an external label resolver, and the engine trusts the names it is handed.
//!
//! The event stream a value serializes to is pinned down exactly by the spec
//! function [`engine::value_events`]; the executable entry point is
//! [`engine::serialize`].

pub mod engine;
pub mod events;
pub mod laws;
pub mod text;
pub mod value;
