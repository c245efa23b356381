//! Laws of the engine, proved from the event-stream spec functions.

use vstd::prelude::*;
use crate::engine::{
    attr_contrib, content_contrib, fields_content_events, has_text_field, item_body_events,
    items_events, named_attrs, named_wrapper_written, value_events, wrap,
};
use crate::events::{SpecAttr, SpecEvent};
use crate::text::scalar_text;
use crate::value::{FieldContent, Item, NamedField, PositionalContent, Role, Scalar, Shape,
    VariantValue};

verus! {

/// The fields of a named-fields shape, and nothing for any other shape.
pub open spec fn named_fields_of(sh: Shape) -> Seq<NamedField> {
    match sh {
        Shape::NamedFields(fields) => fields@,
        _ => Seq::empty(),
    }
}

/// The scalar inside a scalar field content; meaningful only when the
/// content kind is scalar.
pub open spec fn content_scalar(c: FieldContent) -> Scalar {
    match c {
        FieldContent::Scalar(s) => s,
        _ => Scalar::Bool(false),
    }
}

/// The text a scalar item renders to; meaningful only for scalar items.
pub open spec fn item_text(item: Item) -> Seq<char> {
    match item {
        Item::Scalar(s) => scalar_text(s),
        _ => Seq::empty(),
    }
}

/// Law: a unit variant serializes to exactly its empty element — a start
/// event named after the variant carrying no attributes, then the end event
/// — with no character data anywhere.
pub proof fn lemma_unit_variant_events(v: VariantValue)
    requires
        v.shape is Unit,
    ensures
        value_events(v) == seq![
            SpecEvent::Start { name: v.name@, attrs: Seq::empty() },
            SpecEvent::End,
        ],
{
    assert(value_events(v) =~~= seq![
        SpecEvent::Start { name: v.name@, attrs: Seq::empty() },
        SpecEvent::End,
    ]);
}

/// Whether every field of the class the attribute-and-element law speaks of:
/// attribute-role fields of string kind, or element-role fields of scalar
/// kind.
pub open spec fn attr_or_scalar_element(f: NamedField) -> bool {
    ||| (f.role is Attribute && f.content matches FieldContent::Scalar(Scalar::Str(_)))
    ||| (f.role is Element && f.content is Scalar)
}

/// The attribute pairs of the attribute-role fields, in declaration order.
pub open spec fn attr_pairs(fields: Seq<NamedField>) -> Seq<SpecAttr>
    decreases fields.len(),
{
    if fields.len() == 0 {
        Seq::empty()
    } else {
        let f = fields[fields.len() - 1];
        attr_pairs(fields.drop_last()) + if f.role is Attribute {
            seq![SpecAttr { name: f.name@, value: scalar_text(content_scalar(f.content)) }]
        } else {
            Seq::empty()
        }
    }
}

/// One wrapped character-data triple per element-role field, in declaration
/// order.
pub open spec fn element_triples(fields: Seq<NamedField>) -> Seq<SpecEvent>
    decreases fields.len(),
{
    if fields.len() == 0 {
        Seq::empty()
    } else {
        let f = fields[fields.len() - 1];
        element_triples(fields.drop_last()) + if f.role is Element {
            wrap(f.name@, seq![SpecEvent::Characters(scalar_text(content_scalar(f.content)))])
        } else {
            Seq::empty()
        }
    }
}

proof fn lemma_attrs_are_attr_pairs(fields: Seq<NamedField>)
    requires
        forall|k: int| 0 <= k < fields.len() ==> attr_or_scalar_element(#[trigger] fields[k]),
    ensures
        named_attrs(fields) == attr_pairs(fields),
    decreases fields.len(),
{
    if fields.len() == 0 {
        assert(named_attrs(fields) =~~= attr_pairs(fields));
    } else {
        let prev = fields.drop_last();
        assert(forall|k: int| 0 <= k < prev.len() ==> prev[k] == fields[k]);
        lemma_attrs_are_attr_pairs(prev);
        let last = fields[fields.len() - 1];
        assert(attr_or_scalar_element(last));
        if last.role is Attribute {
            assert(attr_contrib(last) =~~= seq![
                SpecAttr { name: last.name@, value: scalar_text(content_scalar(last.content)) },
            ]);
        } else {
            assert(attr_contrib(last) =~~= Seq::<SpecAttr>::empty());
        }
        assert(named_attrs(fields) =~~= attr_pairs(fields));
    }
}

proof fn lemma_content_is_element_triples(fields: Seq<NamedField>)
    requires
        forall|k: int| 0 <= k < fields.len() ==> attr_or_scalar_element(#[trigger] fields[k]),
    ensures
        fields_content_events(fields) == element_triples(fields),
    decreases fields.len(),
{
    if fields.len() == 0 {
        assert(fields_content_events(fields) =~~= element_triples(fields));
    } else {
        let prev = fields.drop_last();
        assert(forall|k: int| 0 <= k < prev.len() ==> prev[k] == fields[k]);
        lemma_content_is_element_triples(prev);
        let last = fields[fields.len() - 1];
        assert(attr_or_scalar_element(last));
        if last.role is Element {
            assert(content_contrib(last) =~~= wrap(
                last.name@,
                seq![SpecEvent::Characters(scalar_text(content_scalar(last.content)))],
            ));
        } else {
            assert(content_contrib(last) =~~= Seq::<SpecEvent>::empty());
        }
        assert(fields_content_events(fields) =~~= element_triples(fields));
    }
}

/// Law: for a named-fields variant, with at least one field, whose fields
/// are only string-kind attribute fields and scalar element fields, the
/// stream is one start event whose attribute list holds exactly the
/// attribute-role fields' pairs, in declaration order; then one wrapped
/// character-data triple per element-role field, in declaration order; then
/// the end event.
pub proof fn lemma_named_attr_element_events(v: VariantValue)
    requires
        v.shape is NamedFields,
        named_fields_of(v.shape).len() > 0,
        forall|k: int|
            0 <= k < named_fields_of(v.shape).len() ==> attr_or_scalar_element(
                #[trigger] named_fields_of(v.shape)[k],
            ),
    ensures
        value_events(v) == seq![
            SpecEvent::Start { name: v.name@, attrs: attr_pairs(named_fields_of(v.shape)) },
        ] + element_triples(named_fields_of(v.shape)) + seq![SpecEvent::End],
{
    let fields = named_fields_of(v.shape);
    assert(!has_text_field(fields)) by {
        if has_text_field(fields) {
            let j = choose|j: int| 0 <= j < fields.len() && fields[j].role is TextContent;
            assert(attr_or_scalar_element(fields[j]));
        }
    }
    lemma_attrs_are_attr_pairs(fields);
    lemma_content_is_element_triples(fields);
    assert(value_events(v) =~~= seq![
        SpecEvent::Start { name: v.name@, attrs: attr_pairs(fields) },
    ] + element_triples(fields) + seq![SpecEvent::End]);
}

/// Law: a field of optional content kind in a named-fields variant
/// contributes no event and no attribute, present or absent, whatever its
/// role.
pub proof fn lemma_optional_named_field_silent(f: NamedField)
    requires
        f.content is Optional,
    ensures
        content_contrib(f) == Seq::<SpecEvent>::empty(),
        attr_contrib(f) == Seq::<SpecAttr>::empty(),
{
}

/// Law: two named-fields values that differ only in whether one optional
/// field's value is present serialize to the same stream.
pub proof fn lemma_optional_presence_irrelevant(v1: VariantValue, v2: VariantValue, i: int)
    requires
        v1.name == v2.name,
        v1.shape is NamedFields,
        v2.shape is NamedFields,
        named_fields_of(v1.shape).len() == named_fields_of(v2.shape).len(),
        0 <= i < named_fields_of(v1.shape).len(),
        named_fields_of(v1.shape)[i].content is Optional,
        named_fields_of(v2.shape)[i].content is Optional,
        named_fields_of(v1.shape)[i].role == named_fields_of(v2.shape)[i].role,
        forall|j: int|
            0 <= j < named_fields_of(v1.shape).len() && j != i ==> #[trigger] named_fields_of(
                v1.shape,
            )[j] == named_fields_of(v2.shape)[j],
    ensures
        value_events(v1) == value_events(v2),
{
    let f1 = named_fields_of(v1.shape);
    let f2 = named_fields_of(v2.shape);
    assert forall|j: int| 0 <= j < f1.len() implies (#[trigger] f1[j]).role == f2[j].role
        && attr_contrib(f1[j]) == attr_contrib(f2[j]) && content_contrib(f1[j]) == content_contrib(
        f2[j],
    ) by {
        if j == i {
            lemma_optional_named_field_silent(f1[j]);
            lemma_optional_named_field_silent(f2[j]);
            assert(attr_contrib(f1[j]) =~~= attr_contrib(f2[j]));
            assert(content_contrib(f1[j]) =~~= content_contrib(f2[j]));
        } else {
            assert(f1[j] == f2[j]);
        }
    }
    lemma_fieldwise_equal_streams(f1, f2);
    assert(value_events(v1) =~~= value_events(v2));
}

proof fn lemma_fieldwise_equal_streams(f1: Seq<NamedField>, f2: Seq<NamedField>)
    requires
        f1.len() == f2.len(),
        forall|j: int|
            0 <= j < f1.len() ==> (#[trigger] f1[j]).role == f2[j].role && attr_contrib(f1[j])
                == attr_contrib(f2[j]) && content_contrib(f1[j]) == content_contrib(f2[j]),
    ensures
        named_attrs(f1) == named_attrs(f2),
        fields_content_events(f1) == fields_content_events(f2),
        has_text_field(f1) == has_text_field(f2),
        named_wrapper_written(f1) == named_wrapper_written(f2),
    decreases f1.len(),
{
    assert(has_text_field(f1) == has_text_field(f2)) by {
        if has_text_field(f1) {
            let j = choose|j: int| 0 <= j < f1.len() && f1[j].role is TextContent;
            assert(f1[j].role == f2[j].role);
            assert(f2[j].role is TextContent);
        }
        if has_text_field(f2) {
            let j = choose|j: int| 0 <= j < f2.len() && f2[j].role is TextContent;
            assert(f1[j].role == f2[j].role);
            assert(f1[j].role is TextContent);
        }
    }
    if f1.len() == 0 {
        assert(named_attrs(f1) =~~= named_attrs(f2));
        assert(fields_content_events(f1) =~~= fields_content_events(f2));
    } else {
        let p1 = f1.drop_last();
        let p2 = f2.drop_last();
        assert(forall|j: int| 0 <= j < p1.len() ==> p1[j] == f1[j] && p2[j] == f2[j]);
        lemma_fieldwise_equal_streams(p1, p2);
        assert(attr_contrib(f1[f1.len() - 1]) == attr_contrib(f2[f2.len() - 1]));
        assert(content_contrib(f1[f1.len() - 1]) == content_contrib(f2[f2.len() - 1]));
        assert(named_attrs(f1) =~~= named_attrs(f2));
        assert(fields_content_events(f1) =~~= fields_content_events(f2));
    }
}

/// One start–characters–end triple per scalar item, in list order, every
/// wrapper sharing `name`.
pub open spec fn scalar_triples(name: Seq<char>, items: Seq<Item>) -> Seq<SpecEvent>
    decreases items.len(),
{
    if items.len() == 0 {
        Seq::empty()
    } else {
        scalar_triples(name, items.drop_last()) + seq![
            SpecEvent::Start { name, attrs: Seq::empty() },
            SpecEvent::Characters(item_text(items[items.len() - 1])),
            SpecEvent::End,
        ]
    }
}

/// Law: a positional variant holding a list of scalar items serializes to
/// exactly one start–characters–end triple per item, in list order, all
/// wrapper elements named after the variant and carrying no attributes; the
/// empty list yields zero events.
pub proof fn lemma_positional_scalar_list_events(
    v: VariantValue,
    role: Role,
    items: Vec<Item>,
)
    requires
        v.shape == (Shape::PositionalField { role, content: PositionalContent::List(items) }),
        !(role is Attribute),
        forall|k: int| 0 <= k < items@.len() ==> ((#[trigger] items@[k]) is Scalar),
    ensures
        value_events(v) == scalar_triples(v.name@, items@),
        value_events(v).len() == 3 * items@.len(),
{
    lemma_scalar_items_events_shape(v.name@, items@);
    assert(value_events(v) =~~= items_events(v.name@, items@));
}

proof fn lemma_scalar_items_events_shape(name: Seq<char>, items: Seq<Item>)
    requires
        forall|k: int| 0 <= k < items.len() ==> ((#[trigger] items[k]) is Scalar),
    ensures
        items_events(name, items) == scalar_triples(name, items),
        items_events(name, items).len() == 3 * items.len(),
    decreases items.len(),
{
    if items.len() == 0 {
        assert(items_events(name, items) =~~= scalar_triples(name, items));
    } else {
        let prev = items.drop_last();
        assert(forall|k: int| 0 <= k < prev.len() ==> prev[k] == items[k]);
        lemma_scalar_items_events_shape(name, prev);
        let last = items[items.len() - 1];
        assert(last is Scalar);
        assert(wrap(name, item_body_events(last)) =~~= seq![
            SpecEvent::Start { name, attrs: Seq::empty() },
            SpecEvent::Characters(item_text(last)),
            SpecEvent::End,
        ]);
        assert(items_events(name, items) =~~= scalar_triples(name, items));
    }
}

/// Law: a positional variant holding an optional scalar yields zero events
/// when the value is absent, and exactly one start–characters–end triple,
/// the wrapper named after the variant, when it is present.
pub proof fn lemma_positional_optional_scalar_events(
    v: VariantValue,
    role: Role,
    opt: Option<Item>,
)
    requires
        v.shape == (Shape::PositionalField { role, content: PositionalContent::Optional(opt) }),
        !(role is Attribute),
    ensures
        (opt is None) ==> value_events(v) == Seq::<SpecEvent>::empty(),
        forall|item: Item|
            opt == Some(item) && item is Scalar ==> value_events(v) == seq![
                SpecEvent::Start { name: v.name@, attrs: Seq::empty() },
                SpecEvent::Characters(item_text(item)),
                SpecEvent::End,
            ],
{
    match opt {
        Option::None => {
            assert(value_events(v) =~~= Seq::<SpecEvent>::empty());
        },
        Option::Some(item) => {
            if item is Scalar {
                assert(value_events(v) =~~= seq![
                    SpecEvent::Start { name: v.name@, attrs: Seq::empty() },
                    SpecEvent::Characters(item_text(item)),
                    SpecEvent::End,
                ]);
            }
        },
    }
}

/// Law: a named-fields variant whose single field is a scalar in the
/// text-content role serializes to a lone character-data event, with no
/// start or end pair around it.
pub proof fn lemma_text_content_raw_characters(v: VariantValue)
    requires
        v.shape is NamedFields,
        named_fields_of(v.shape).len() == 1,
        named_fields_of(v.shape)[0].role is TextContent,
        named_fields_of(v.shape)[0].content is Scalar,
    ensures
        value_events(v) == seq![
            SpecEvent::Characters(scalar_text(content_scalar(named_fields_of(v.shape)[0].content))),
        ],
{
    let fields = named_fields_of(v.shape);
    assert(has_text_field(fields)) by {
        assert(fields[0].role is TextContent);
    }
    assert(fields.drop_last() =~= Seq::<NamedField>::empty());
    assert(fields[fields.len() - 1] == fields[0]);
    assert(attr_contrib(fields[0]) =~~= Seq::<SpecAttr>::empty());
    assert(named_attrs(fields.drop_last()) =~~= Seq::<SpecAttr>::empty());
    assert(named_attrs(fields) =~~= Seq::<SpecAttr>::empty());
    assert(!named_wrapper_written(fields));
    assert(fields[fields.len() - 1] == fields[0]);
    assert(content_contrib(fields[0]) =~~= seq![
        SpecEvent::Characters(scalar_text(content_scalar(fields[0].content))),
    ]);
    assert(fields_content_events(fields.drop_last()) =~~= Seq::<SpecEvent>::empty());
    assert(fields_content_events(fields) =~~= seq![
        SpecEvent::Characters(scalar_text(content_scalar(fields[0].content))),
    ]);
    assert(value_events(v) =~~= seq![
        SpecEvent::Characters(scalar_text(content_scalar(fields[0].content))),
    ]);
}

/// Law: whenever a text-content field is present and no attribute field is
/// honored (none is of string kind), the variant gets no wrapper pair at
/// all: the stream is the content-group fields' events alone.
pub proof fn lemma_text_content_suppresses_wrapper(v: VariantValue)
    requires
        v.shape is NamedFields,
        has_text_field(named_fields_of(v.shape)),
        named_attrs(named_fields_of(v.shape)).len() == 0,
    ensures
        value_events(v) == fields_content_events(named_fields_of(v.shape)),
{
    let fields = named_fields_of(v.shape);
    assert(!named_wrapper_written(fields));
    assert(value_events(v) =~~= fields_content_events(fields));
}

} // verus!
