use variant_xml::engine::serialize;
use variant_xml::events::{Attr, Event, EventWriter};
use variant_xml::text::scalar_to_string;
use variant_xml::value::{
    FieldContent, Item, NamedField, PositionalContent, Role, Scalar, Shape, VariantValue,
};

fn s(text: &str) -> String {
    text.to_string()
}

fn events_of(v: &VariantValue) -> Vec<Event> {
    let mut writer = EventWriter::new();
    serialize(v, &mut writer).unwrap();
    writer.into_events()
}

fn start(name: &str, attrs: Vec<Attr>) -> Event {
    Event::Start { name: s(name), attrs }
}

fn chars(text: &str) -> Event {
    Event::Characters(s(text))
}

#[test]
fn unit_variant_is_empty_element() {
    let v = VariantValue { name: s("White"), shape: Shape::Unit };
    assert_eq!(events_of(&v), vec![start("White", vec![]), Event::End]);
}

#[test]
fn point_attribute_and_element_round_trip_stream() {
    let v = VariantValue {
        name: s("Point"),
        shape: Shape::NamedFields(vec![
            NamedField {
                name: s("x"),
                role: Role::Attribute,
                content: FieldContent::Scalar(Scalar::Str(s("A"))),
            },
            NamedField {
                name: s("y"),
                role: Role::Element,
                content: FieldContent::Scalar(Scalar::U32(7)),
            },
        ]),
    };
    assert_eq!(
        events_of(&v),
        vec![
            start("Point", vec![Attr { name: s("x"), value: s("A") }]),
            start("y", vec![]),
            chars("7"),
            Event::End,
            Event::End,
        ]
    );
}

#[test]
fn attribute_order_follows_declaration_order() {
    let v = VariantValue {
        name: s("Pair"),
        shape: Shape::NamedFields(vec![
            NamedField {
                name: s("first"),
                role: Role::Attribute,
                content: FieldContent::Scalar(Scalar::Str(s("1"))),
            },
            NamedField {
                name: s("second"),
                role: Role::Attribute,
                content: FieldContent::Scalar(Scalar::Str(s("2"))),
            },
        ]),
    };
    assert_eq!(
        events_of(&v),
        vec![
            start(
                "Pair",
                vec![
                    Attr { name: s("first"), value: s("1") },
                    Attr { name: s("second"), value: s("2") },
                ]
            ),
            Event::End,
        ]
    );
}

#[test]
fn non_string_attribute_is_dropped_silently() {
    let v = VariantValue {
        name: s("Flagged"),
        shape: Shape::NamedFields(vec![
            NamedField {
                name: s("on"),
                role: Role::Attribute,
                content: FieldContent::Scalar(Scalar::Bool(true)),
            },
            NamedField {
                name: s("label"),
                role: Role::Element,
                content: FieldContent::Scalar(Scalar::Str(s("lamp"))),
            },
        ]),
    };
    assert_eq!(
        events_of(&v),
        vec![
            start("Flagged", vec![]),
            start("label", vec![]),
            chars("lamp"),
            Event::End,
            Event::End,
        ]
    );
}

#[test]
fn optional_named_field_present_and_absent_yield_same_stream() {
    let with = |opt: Option<Item>| VariantValue {
        name: s("Node"),
        shape: Shape::NamedFields(vec![
            NamedField {
                name: s("id"),
                role: Role::Element,
                content: FieldContent::Scalar(Scalar::U8(3)),
            },
            NamedField {
                name: s("note"),
                role: Role::Element,
                content: FieldContent::Optional(opt),
            },
        ]),
    };
    let present = with(Some(Item::Scalar(Scalar::Str(s("hi")))));
    let absent = with(None);
    let expected = vec![
        start("Node", vec![]),
        start("id", vec![]),
        chars("3"),
        Event::End,
        Event::End,
    ];
    assert_eq!(events_of(&present), expected);
    assert_eq!(events_of(&absent), expected);
}

#[test]
fn named_fields_without_fields_yield_no_events() {
    let v = VariantValue { name: s("Hollow"), shape: Shape::NamedFields(vec![]) };
    assert_eq!(events_of(&v), vec![]);
}

#[test]
fn text_content_field_is_raw_characters_without_wrapper() {
    let v = VariantValue {
        name: s("Note"),
        shape: Shape::NamedFields(vec![NamedField {
            name: s("body"),
            role: Role::TextContent,
            content: FieldContent::Scalar(Scalar::Str(s("hello"))),
        }]),
    };
    assert_eq!(events_of(&v), vec![chars("hello")]);
}

#[test]
fn nested_named_field_wraps_under_field_name() {
    let v = VariantValue {
        name: s("Outer"),
        shape: Shape::NamedFields(vec![NamedField {
            name: s("inner"),
            role: Role::Element,
            content: FieldContent::Nested(Box::new(VariantValue {
                name: s("Leaf"),
                shape: Shape::Unit,
            })),
        }]),
    };
    assert_eq!(
        events_of(&v),
        vec![
            start("Outer", vec![]),
            start("inner", vec![]),
            start("Leaf", vec![]),
            Event::End,
            Event::End,
            Event::End,
        ]
    );
}

#[test]
fn named_list_field_wraps_each_item_under_field_name() {
    let v = VariantValue {
        name: s("Bag"),
        shape: Shape::NamedFields(vec![NamedField {
            name: s("item"),
            role: Role::Element,
            content: FieldContent::List(vec![
                Item::Scalar(Scalar::U16(1)),
                Item::Scalar(Scalar::U16(2)),
            ]),
        }]),
    };
    assert_eq!(
        events_of(&v),
        vec![
            start("Bag", vec![]),
            start("item", vec![]),
            chars("1"),
            Event::End,
            start("item", vec![]),
            chars("2"),
            Event::End,
            Event::End,
        ]
    );
}

#[test]
fn named_list_of_nested_values_wraps_each_under_field_name() {
    let leaf = |n: &str| {
        Item::Nested(Box::new(VariantValue { name: s(n), shape: Shape::Unit }))
    };
    let v = VariantValue {
        name: s("Grove"),
        shape: Shape::NamedFields(vec![NamedField {
            name: s("tree"),
            role: Role::Element,
            content: FieldContent::List(vec![leaf("Oak"), leaf("Elm")]),
        }]),
    };
    assert_eq!(
        events_of(&v),
        vec![
            start("Grove", vec![]),
            start("tree", vec![]),
            start("Oak", vec![]),
            Event::End,
            Event::End,
            start("tree", vec![]),
            start("Elm", vec![]),
            Event::End,
            Event::End,
            Event::End,
        ]
    );
}

#[test]
fn positional_string_list_repeats_wrapper_per_item() {
    let v = VariantValue {
        name: s("Tag"),
        shape: Shape::PositionalField {
            role: Role::Element,
            content: PositionalContent::List(vec![
                Item::Scalar(Scalar::Str(s("a"))),
                Item::Scalar(Scalar::Str(s("b"))),
                Item::Scalar(Scalar::Str(s("c"))),
            ]),
        },
    };
    assert_eq!(
        events_of(&v),
        vec![
            start("Tag", vec![]),
            chars("a"),
            Event::End,
            start("Tag", vec![]),
            chars("b"),
            Event::End,
            start("Tag", vec![]),
            chars("c"),
            Event::End,
        ]
    );
}

#[test]
fn positional_empty_list_yields_no_events() {
    let v = VariantValue {
        name: s("Tag"),
        shape: Shape::PositionalField {
            role: Role::Element,
            content: PositionalContent::List(vec![]),
        },
    };
    assert_eq!(events_of(&v), vec![]);
}

#[test]
fn positional_optional_scalar_absent_and_present() {
    let absent = VariantValue {
        name: s("Count"),
        shape: Shape::PositionalField {
            role: Role::Element,
            content: PositionalContent::Optional(None),
        },
    };
    assert_eq!(events_of(&absent), vec![]);
    let present = VariantValue {
        name: s("Count"),
        shape: Shape::PositionalField {
            role: Role::Element,
            content: PositionalContent::Optional(Some(Item::Scalar(Scalar::I32(-4)))),
        },
    };
    assert_eq!(
        events_of(&present),
        vec![start("Count", vec![]), chars("-4"), Event::End]
    );
}

#[test]
fn positional_nested_value_reuses_open_wrapper() {
    let v = VariantValue {
        name: s("Holder"),
        shape: Shape::PositionalField {
            role: Role::Element,
            content: PositionalContent::Single(Item::Nested(Box::new(VariantValue {
                name: s("Inner"),
                shape: Shape::PositionalField {
                    role: Role::Element,
                    content: PositionalContent::Single(Item::Scalar(Scalar::U8(9))),
                },
            }))),
        },
    };
    assert_eq!(
        events_of(&v),
        vec![
            start("Holder", vec![]),
            start("Inner", vec![]),
            chars("9"),
            Event::End,
            Event::End,
        ]
    );
}

#[test]
fn positional_attribute_role_field_is_dropped() {
    let v = VariantValue {
        name: s("Ghostly"),
        shape: Shape::PositionalField {
            role: Role::Attribute,
            content: PositionalContent::Single(Item::Scalar(Scalar::Str(s("x")))),
        },
    };
    assert_eq!(events_of(&v), vec![]);
}

#[test]
fn scalar_rendering_matches_decimal_text() {
    assert_eq!(scalar_to_string(&Scalar::U64(0)), s("0"));
    assert_eq!(scalar_to_string(&Scalar::U64(u64::MAX)), s("18446744073709551615"));
    assert_eq!(scalar_to_string(&Scalar::I64(i64::MIN)), s("-9223372036854775808"));
    assert_eq!(scalar_to_string(&Scalar::I64(-1)), s("-1"));
    assert_eq!(scalar_to_string(&Scalar::I8(-128)), s("-128"));
    assert_eq!(scalar_to_string(&Scalar::Bool(true)), s("true"));
    assert_eq!(scalar_to_string(&Scalar::Bool(false)), s("false"));
    assert_eq!(scalar_to_string(&Scalar::USize(31)), s("31"));
    assert_eq!(scalar_to_string(&Scalar::F64Text(s("2.5"))), s("2.5"));
}

#[test]
fn text_content_beside_dropped_attribute_stays_bare() {
    let v = VariantValue {
        name: s("Marked"),
        shape: Shape::NamedFields(vec![
            NamedField {
                name: s("seen"),
                role: Role::Attribute,
                content: FieldContent::Scalar(Scalar::Bool(true)),
            },
            NamedField {
                name: s("body"),
                role: Role::TextContent,
                content: FieldContent::Scalar(Scalar::Str(s("plain"))),
            },
        ]),
    };
    assert_eq!(events_of(&v), vec![chars("plain")]);
}

#[test]
fn text_content_beside_attribute_keeps_wrapper() {
    let v = VariantValue {
        name: s("Titled"),
        shape: Shape::NamedFields(vec![
            NamedField {
                name: s("title"),
                role: Role::Attribute,
                content: FieldContent::Scalar(Scalar::Str(s("T"))),
            },
            NamedField {
                name: s("body"),
                role: Role::TextContent,
                content: FieldContent::Scalar(Scalar::Str(s("words"))),
            },
        ]),
    };
    assert_eq!(
        events_of(&v),
        vec![
            start("Titled", vec![Attr { name: s("title"), value: s("T") }]),
            chars("words"),
            Event::End,
        ]
    );
}
