//! The serialization engine: the event stream of a value, stated as spec
//! functions, and the executable writer-driving code proved against them.

use vstd::prelude::*;
use crate::events::{Attr, EventWriter, PendingStart, SerError, SpecAttr, SpecEvent};
use crate::text::{scalar_text, scalar_to_string};
use crate::value::{
    FieldContent, Item, NamedField, PositionalContent, Role, Scalar, Shape, VariantValue,
    WriteContext,
};

verus! {

/// An element named `name` wrapped around `body`: start, body, end.
pub open spec fn wrap(name: Seq<char>, body: Seq<SpecEvent>) -> Seq<SpecEvent> {
    seq![SpecEvent::Start { name, attrs: Seq::empty() }] + body + seq![SpecEvent::End]
}

/// What one item contributes inside its wrapper element: character data for
/// a scalar, the nested value's own stream (its wrapper suppressed, since
/// the caller's wrapper already stands open) for a nested value.
pub open spec fn item_body_events(item: Item) -> Seq<SpecEvent>
    decreases item, 0int,
{
    match item {
        Item::Scalar(s) => seq![SpecEvent::Characters(scalar_text(s))],
        Item::Nested(v) => value_events(*v),
    }
}

/// The events of a sequence of items, in order, each inside its own wrapper
/// element, all wrappers sharing `name`.
pub open spec fn items_events(name: Seq<char>, items: Seq<Item>) -> Seq<SpecEvent>
    decreases items, 1int,
{
    if items.len() == 0 {
        Seq::empty()
    } else {
        items_events(name, items.drop_last()) + wrap(
            name,
            item_body_events(items[items.len() - 1]),
        )
    }
}

/// The attribute a named field contributes to the variant's start event.
/// Only a string-kind field in the attribute role is honored; a field marked
/// attribute with any other content kind is dropped silently.
pub open spec fn attr_contrib(f: NamedField) -> Seq<SpecAttr> {
    if f.role is Attribute {
        match f.content {
            FieldContent::Scalar(Scalar::Str(t)) => seq![
                SpecAttr { name: f.name@, value: t@ },
            ],
            _ => Seq::empty(),
        }
    } else {
        Seq::empty()
    }
}

/// The attributes of the variant's start event: the honored attribute
/// fields, in declaration order.
pub open spec fn named_attrs(fields: Seq<NamedField>) -> Seq<SpecAttr>
    decreases fields.len(),
{
    if fields.len() == 0 {
        Seq::empty()
    } else {
        named_attrs(fields.drop_last()) + attr_contrib(fields[fields.len() - 1])
    }
}

/// The events one content-group field (role element or text content)
/// contributes, by its content kind.
pub open spec fn field_content_events(f: NamedField) -> Seq<SpecEvent>
    decreases f, 0int,
{
    if f.role is TextContent {
        // Raw character payload, no enclosing element of its own; anything
        // but a scalar in this role is dropped silently.
        match f.content {
            FieldContent::Scalar(s) => seq![SpecEvent::Characters(scalar_text(s))],
            _ => Seq::empty(),
        }
    } else {
        match f.content {
            FieldContent::Scalar(s) => wrap(f.name@, seq![SpecEvent::Characters(scalar_text(s))]),
            FieldContent::Nested(v) => wrap(f.name@, value_events(*v)),
            FieldContent::List(items) => items_events(f.name@, items@),
            FieldContent::Optional(_) => Seq::empty(),
        }
    }
}

/// The events one named field contributes between start and end: nothing for
/// the attribute group, its content events otherwise.
pub open spec fn content_contrib(f: NamedField) -> Seq<SpecEvent>
    decreases f, 1int,
{
    if f.role is Attribute {
        Seq::empty()
    } else {
        field_content_events(f)
    }
}

/// The child content of a named-fields variant: every content-group field's
/// events, in declaration order.
pub open spec fn fields_content_events(fields: Seq<NamedField>) -> Seq<SpecEvent>
    decreases fields, 2int,
{
    if fields.len() == 0 {
        Seq::empty()
    } else {
        fields_content_events(fields.drop_last()) + content_contrib(fields[fields.len() - 1])
    }
}

/// Whether some field is in the text-content role.
pub open spec fn has_text_field(fields: Seq<NamedField>) -> bool {
    exists|i: int| 0 <= i < fields.len() && fields[i].role is TextContent
}

/// Whether the variant's own wrapper element is written.  With a
/// text-content field the variant is raw character data, and only an honored
/// attribute — one the start event actually carries — still warrants a
/// wrapper; a dropped attribute field carries nothing and warrants nothing.
/// Without text content any field at all warrants the wrapper, and a variant
/// with no fields gets no wrapper pair.
pub open spec fn named_wrapper_written(fields: Seq<NamedField>) -> bool {
    if has_text_field(fields) {
        named_attrs(fields).len() > 0
    } else {
        fields.len() > 0
    }
}

/// The event stream of a named-fields variant: its wrapper start event
/// carrying the honored attributes, the content-group fields' events in
/// order, and the wrapper end — or the bare content when no wrapper is
/// warranted.
pub open spec fn named_variant_events(name: Seq<char>, fields: Seq<NamedField>) -> Seq<SpecEvent>
    decreases fields, 3int,
{
    if named_wrapper_written(fields) {
        seq![SpecEvent::Start { name, attrs: named_attrs(fields) }] + fields_content_events(fields)
            + seq![SpecEvent::End]
    } else {
        fields_content_events(fields)
    }
}

/// The event stream of a positional variant: nothing for a field in the
/// attribute role (unsupported for this shape, dropped silently); otherwise
/// one wrapper element named after the variant per present item, so an
/// absent optional and an empty list both yield zero events.
pub open spec fn positional_events(
    name: Seq<char>,
    role: Role,
    content: PositionalContent,
) -> Seq<SpecEvent>
    decreases content, 1int,
{
    if role is Attribute {
        Seq::empty()
    } else {
        match content {
            PositionalContent::Single(item) => wrap(name, item_body_events(item)),
            PositionalContent::Optional(opt) => match opt {
                Option::None => Seq::empty(),
                Option::Some(item) => wrap(name, item_body_events(item)),
            },
            PositionalContent::List(items) => items_events(name, items@),
        }
    }
}

/// The full event stream of one tagged-union value: the dispatcher over the
/// active variant's shape.
pub open spec fn value_events(v: VariantValue) -> Seq<SpecEvent>
    decreases v, 4int,
{
    match v.shape {
        Shape::Unit => wrap(v.name@, Seq::empty()),
        Shape::NamedFields(fields) => named_variant_events(v.name@, fields@),
        Shape::PositionalField { role, content } => positional_events(v.name@, role, content),
    }
}

/// The events of a value serialized under a write context: its own stream
/// when the caller's wrapper is reused, otherwise wrapped in an element
/// named by the context's override, or by the value itself when the
/// override is absent.
pub open spec fn nested_value_events(v: VariantValue, ctx: WriteContext) -> Seq<SpecEvent> {
    if ctx.suppress_wrapper {
        value_events(v)
    } else {
        let n = match ctx.override_name {
            Option::Some(s) => s@,
            Option::None => v.name@,
        };
        wrap(n, value_events(v))
    }
}

/// Serialize a tagged-union value: dispatch on the active variant's shape
/// and let the matching case handler drive the writer.
///
/// The in-memory writer cannot fail, so the call always succeeds and appends
/// exactly `value_events(value)` to the stream; a write failure from a
/// fallible sink would abort the walk at the first failed operation.
pub fn serialize(value: &VariantValue, writer: &mut EventWriter) -> (r: Result<(), SerError>)
    ensures
        r is Ok,
        final(writer)@ == old(writer)@ + value_events(*value),
    decreases *value, 4int,
{
    match &value.shape {
        Shape::Unit => serialize_unit(&value.name, writer),
        Shape::NamedFields(fields) => serialize_named(&value.name, fields, writer),
        Shape::PositionalField { role, content } => serialize_positional(
            &value.name,
            *role,
            content,
            writer,
        ),
    }
}

/// Serialize a value under a write context, as a recursive call from a field
/// handler does: reuse the caller's open wrapper when the context says so,
/// otherwise open a wrapper under the context's name first.
fn serialize_in_context(value: &VariantValue, ctx: WriteContext, writer: &mut EventWriter) -> (r:
    Result<(), SerError>)
    ensures
        r is Ok,
        final(writer)@ == old(writer)@ + nested_value_events(*value, ctx),
    decreases *value, 5int,
{
    if ctx.suppress_wrapper {
        serialize(value, writer)
    } else {
        let name: String = match ctx.override_name {
            Option::Some(s) => s,
            Option::None => value.name.clone(),
        };
        let start = PendingStart::new(name);
        writer.write_start(start);
        let r = serialize(value, writer);
        writer.write_end();
        proof {
            assert(writer@ =~~= old(writer)@ + nested_value_events(*value, ctx));
        }
        r
    }
}

/// The unit case: an empty element named after the variant — start, end, no
/// attributes, no content.
fn serialize_unit(name: &String, writer: &mut EventWriter) -> (r: Result<(), SerError>)
    ensures
        r is Ok,
        final(writer)@ == old(writer)@ + wrap(name@, Seq::empty()),
{
    let start = PendingStart::new(name.clone());
    writer.write_start(start);
    writer.write_end();
    proof {
        assert(writer@ =~~= old(writer)@ + wrap(name@, Seq::empty()));
    }
    Ok(())
}

/// One wrapper element around one item: the scalar's character data, or the
/// nested value serialized with its own wrapper suppressed.
fn serialize_wrapped_item(name: &String, item: &Item, writer: &mut EventWriter) -> (r: Result<
    (),
    SerError,
>)
    ensures
        r is Ok,
        final(writer)@ == old(writer)@ + wrap(name@, item_body_events(*item)),
    decreases *item, 2int,
{
    let start = PendingStart::new(name.clone());
    writer.write_start(start);
    let r = match item {
        Item::Scalar(s) => {
            let text = scalar_to_string(s);
            writer.write_characters(text);
            Ok(())
        },
        Item::Nested(v) => serialize_in_context(
            v,
            WriteContext { override_name: None, suppress_wrapper: true },
            writer,
        ),
    };
    writer.write_end();
    proof {
        assert(writer@ =~~= old(writer)@ + wrap(name@, item_body_events(*item)));
    }
    r
}

/// The named-fields case: gather the honored attributes into the start
/// event, write the wrapper if one is warranted, then each content-group
/// field in declaration order, then the end.
fn serialize_named(name: &String, fields: &Vec<NamedField>, writer: &mut EventWriter) -> (r:
    Result<(), SerError>)
    ensures
        r is Ok,
        final(writer)@ == old(writer)@ + named_variant_events(name@, fields@),
    decreases *fields, 3int,
{
    // First pass: the attribute group, gathered before the start event is
    // flushed, and whether any field is text content.
    let mut start = PendingStart::new(name.clone());
    let mut has_text: bool = false;
    let mut i: usize = 0;
    proof {
        assert(start.attrs@.map_values(|a: Attr| a@) =~~= named_attrs(
            fields@.subrange(0, 0int),
        ));
        assert(!has_text_field(fields@.subrange(0, 0int)));
    }
    while i < fields.len()
        invariant
            0 <= i <= fields.len(),
            start.name@ == name@,
            start.attrs@.map_values(|a: Attr| a@) == named_attrs(
                fields@.subrange(0, i as int),
            ),
            has_text == has_text_field(fields@.subrange(0, i as int)),
        decreases fields.len() - i,
    {
        let f = &fields[i];
        match f.role {
            Role::Attribute => {
                match &f.content {
                    FieldContent::Scalar(Scalar::Str(t)) => {
                        start.attr(f.name.clone(), t.clone());
                    },
                    _ => {},
                }
            },
            Role::TextContent => {
                has_text = true;
            },
            Role::Element => {},
        }
        proof {
            assert(fields@.subrange(0, i + 1int).drop_last() =~= fields@.subrange(0, i as int));
            assert(fields@.subrange(0, i + 1int)[i as int] == fields@[i as int]);
            assert(start.attrs@.map_values(|a: Attr| a@) =~~= named_attrs(
                fields@.subrange(0, i + 1int),
            ));
            assert(has_text == has_text_field(fields@.subrange(0, i + 1int))) by {
                let sub = fields@.subrange(0, i + 1int);
                let prev = fields@.subrange(0, i as int);
                if has_text_field(prev) {
                    let j = choose|j: int|
                        0 <= j < prev.len() && prev[j].role is TextContent;
                    assert(sub[j].role is TextContent);
                }
                if fields@[i as int].role is TextContent {
                    assert(sub[i as int].role is TextContent);
                }
                if has_text_field(sub) && !has_text {
                    let j = choose|j: int|
                        0 <= j < sub.len() && sub[j].role is TextContent;
                    assert(j < i ==> prev[j].role is TextContent);
                }
            }
        }
        i = i + 1;
    }
    proof {
        assert(fields@.subrange(0, fields@.len() as int) =~= fields@);
    }
    // Whether the variant's wrapper element is written: see
    // `named_wrapper_written`.  The first pass gathered exactly the honored
    // attributes, so with text content the gathered list decides.
    let wrapper = if has_text {
        start.attrs.len() > 0
    } else {
        fields.len() > 0
    };
    proof {
        assert(start.attrs@.len() == named_attrs(fields@).len());
        assert(wrapper == named_wrapper_written(fields@));
    }
    if wrapper {
        writer.write_start(start);
    }
    // Second pass: the content group, in declaration order.
    let mut j: usize = 0;
    let ghost mid = writer@;
    proof {
        assert(writer@ =~~= mid + fields_content_events(fields@.subrange(0, 0int)));
    }
    while j < fields.len()
        invariant
            0 <= j <= fields.len(),
            writer@ == mid + fields_content_events(fields@.subrange(0, j as int)),
        decreases fields.len() - j,
    {
        let f = &fields[j];
        serialize_named_field(f, writer)?;
        proof {
            assert(fields@.subrange(0, j + 1int).drop_last() =~= fields@.subrange(0, j as int));
            assert(fields@.subrange(0, j + 1int)[j as int] == fields@[j as int]);
            assert(writer@ =~~= mid + fields_content_events(fields@.subrange(0, j + 1int)));
        }
        j = j + 1;
    }
    if wrapper {
        writer.write_end();
    }
    proof {
        assert(fields@.subrange(0, fields@.len() as int) =~= fields@);
        assert(writer@ =~~= old(writer)@ + named_variant_events(name@, fields@));
    }
    Ok(())
}

/// One content-group field, by its content kind; a field in the attribute
/// role contributes nothing here.
fn serialize_named_field(f: &NamedField, writer: &mut EventWriter) -> (r: Result<(), SerError>)
    ensures
        r is Ok,
        final(writer)@ == old(writer)@ + content_contrib(*f),
    decreases *f, 2int,
{
    match f.role {
        Role::Attribute => {
            proof {
                assert(writer@ =~~= old(writer)@ + content_contrib(*f));
            }
            Ok(())
        },
        Role::TextContent => {
            // Raw character payload, no enclosing element.
            match &f.content {
                FieldContent::Scalar(s) => {
                    let text = scalar_to_string(s);
                    writer.write_characters(text);
                },
                _ => {},
            }
            proof {
                assert(writer@ =~~= old(writer)@ + content_contrib(*f));
            }
            Ok(())
        },
        Role::Element => {
            match &f.content {
                FieldContent::Scalar(s) => {
                    let start = PendingStart::new(f.name.clone());
                    writer.write_start(start);
                    let text = scalar_to_string(s);
                    writer.write_characters(text);
                    writer.write_end();
                    proof {
                        assert(writer@ =~~= old(writer)@ + content_contrib(*f));
                    }
                    Ok(())
                },
                FieldContent::Nested(v) => {
                    // Prescribe the field's name for the nested value's
                    // wrapper and let the value serialize itself.
                    let r = serialize_in_context(
                        v,
                        WriteContext {
                            override_name: Some(f.name.clone()),
                            suppress_wrapper: false,
                        },
                        writer,
                    );
                    proof {
                        assert(writer@ =~~= old(writer)@ + content_contrib(*f));
                    }
                    r
                },
                FieldContent::List(items) => {
                    serialize_items(&f.name, items, writer)?;
                    proof {
                        assert(writer@ =~~= old(writer)@ + content_contrib(*f));
                    }
                    Ok(())
                },
                FieldContent::Optional(_) => {
                    // Optional fields of a named-fields variant are never
                    // serialized, present or absent.
                    proof {
                        assert(writer@ =~~= old(writer)@ + content_contrib(*f));
                    }
                    Ok(())
                },
            }
        },
    }
}

/// A run of items, each in its own wrapper element, all sharing `name`.
fn serialize_items(name: &String, items: &Vec<Item>, writer: &mut EventWriter) -> (r: Result<
    (),
    SerError,
>)
    ensures
        r is Ok,
        final(writer)@ == old(writer)@ + items_events(name@, items@),
    decreases *items, 3int,
{
    let ghost base = writer@;
    let mut i: usize = 0;
    proof {
        assert(writer@ =~~= base + items_events(name@, items@.subrange(0, 0int)));
    }
    while i < items.len()
        invariant
            0 <= i <= items.len(),
            writer@ == base + items_events(name@, items@.subrange(0, i as int)),
        decreases items.len() - i,
    {
        let item = &items[i];
        serialize_wrapped_item(name, item, writer)?;
        proof {
            assert(items@.subrange(0, i + 1int).drop_last() =~= items@.subrange(0, i as int));
            assert(items@.subrange(0, i + 1int)[i as int] == items@[i as int]);
            assert(writer@ =~~= base + items_events(
                name@,
                items@.subrange(0, i + 1int),
            ));
        }
        i = i + 1;
    }
    proof {
        assert(items@.subrange(0, items@.len() as int) =~= items@);
        assert(writer@ =~~= old(writer)@ + items_events(name@, items@));
    }
    Ok(())
}

/// The positional case: a field marked attribute is dropped silently;
/// otherwise every present item is written in its own wrapper element named
/// after the variant.
fn serialize_positional(
    name: &String,
    role: Role,
    content: &PositionalContent,
    writer: &mut EventWriter,
) -> (r: Result<(), SerError>)
    ensures
        r is Ok,
        final(writer)@ == old(writer)@ + positional_events(name@, role, *content),
    decreases *content, 3int,
{
    match role {
        Role::Attribute => {
            proof {
                assert(writer@ =~~= old(writer)@ + positional_events(name@, role, *content));
            }
            Ok(())
        },
        _ => {
            match content {
                PositionalContent::Single(item) => serialize_wrapped_item(name, item, writer),
                PositionalContent::Optional(opt) => match opt {
                    Some(item) => serialize_wrapped_item(name, item, writer),
                    None => {
                        proof {
                            assert(writer@ =~~= old(writer)@ + positional_events(
                                name@,
                                role,
                                *content,
                            ));
                        }
                        Ok(())
                    },
                },
                PositionalContent::List(items) => serialize_items(name, items, writer),
            }
        },
    }
}

} // verus!
