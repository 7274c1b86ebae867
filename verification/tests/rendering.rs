use shape::render;
use shape::Literal;
use shape::Object;
use shape::Property;
use shape::Record;
use shape::RenderOptions;
use shape::Tuple;
use shape::Type;

fn opts() -> RenderOptions {
    RenderOptions::default()
}

fn prop(name: &str, ty: Type, optional: bool, readonly: bool) -> (String, Property) {
    (
        name.to_string(),
        Property {
            ty,
            optional,
            readonly,
        },
    )
}

#[test]
fn primitives_render_to_keywords() {
    assert_eq!(render(&Type::String, opts()), "string");
    assert_eq!(render(&Type::Number, opts()), "number");
    assert_eq!(render(&Type::Boolean, opts()), "boolean");
    assert_eq!(render(&Type::Null, opts()), "null");
    assert_eq!(render(&Type::Undefined, opts()), "undefined");
    assert_eq!(render(&Type::Never, opts()), "never");
}

#[test]
fn string_literals_are_quoted_and_escaped() {
    let lit = |s: &str| Type::Literal(Literal::String(s.to_string()));
    assert_eq!(render(&lit("x"), opts()), "\"x\"");
    assert_eq!(render(&lit("a\"b"), opts()), "\"a\\\"b\"");
    assert_eq!(render(&lit("a\\b"), opts()), "\"a\\\\b\"");
    assert_eq!(render(&lit("a\nb\r\t"), opts()), "\"a\\nb\\r\\t\"");
    assert_eq!(render(&lit("\u{1}\u{1f}"), opts()), "\"\\u0001\\u001f\"");
}

#[test]
fn number_and_boolean_literals() {
    let num = |s: &str| Type::Literal(Literal::Number(s.to_string()));
    assert_eq!(render(&num("1"), opts()), "1");
    assert_eq!(render(&num("3.14"), opts()), "3.14");
    assert_eq!(render(&num("-0.5"), opts()), "-0.5");
    assert_eq!(
        render(&Type::Literal(Literal::Boolean(true)), opts()),
        "true"
    );
    assert_eq!(
        render(&Type::Literal(Literal::Boolean(false)), opts()),
        "false"
    );
}

#[test]
fn tuples_render_bracketed() {
    let empty = Type::Tuple(Tuple {
        items: vec![],
        rest: None,
    });
    assert_eq!(render(&empty, opts()), "[]");
    let pair = Type::Tuple(Tuple {
        items: vec![Type::String, Type::Number],
        rest: None,
    });
    assert_eq!(render(&pair, opts()), "[string, number]");
    let with_rest = Type::Tuple(Tuple {
        items: vec![Type::String],
        rest: Some(Box::new(Type::Number)),
    });
    assert_eq!(render(&with_rest, opts()), "[string, ...number[]]");
    let rest_only = Type::Tuple(Tuple {
        items: vec![],
        rest: Some(Box::new(Type::Number)),
    });
    assert_eq!(render(&rest_only, opts()), "[...number[]]");
}

#[test]
fn arrays_parenthesize_combinator_items() {
    let arr = |t: Type| Type::Array(shape::Array { item: Box::new(t) });
    assert_eq!(render(&arr(Type::String), opts()), "string[]");
    assert_eq!(
        render(&arr(Type::Or(vec![Type::String, Type::Null])), opts()),
        "(string | null)[]"
    );
    assert_eq!(
        render(&arr(arr(Type::Number)), opts()),
        "number[][]"
    );
}

#[test]
fn objects_render_properties_in_order() {
    let empty = Type::Object(Object { properties: vec![] });
    assert_eq!(render(&empty, opts()), "{}");
    let o = Type::Object(Object {
        properties: vec![
            prop("id", Type::Number, false, false),
            prop("name", Type::String, true, false),
            prop("tag", Type::String, false, true),
        ],
    });
    assert_eq!(
        render(&o, opts()),
        "{ id: number; name?: string; readonly tag: string }"
    );
    let quoted = Type::Object(Object {
        properties: vec![prop("not-an-id", Type::String, false, false)],
    });
    assert_eq!(render(&quoted, opts()), "{ \"not-an-id\": string }");
}

#[test]
fn readonly_markers_follow_the_options() {
    let o = || Type::Object(Object {
        properties: vec![prop("tag", Type::String, false, true)],
    });
    assert_eq!(render(&o(), opts()), "{ readonly tag: string }");
    assert_eq!(
        render(
            &o(),
            RenderOptions {
                readonly_annotations: false
            }
        ),
        "{ tag: string }"
    );
}

#[test]
fn records_render_as_index_signatures() {
    let rec = |optional: bool, readonly: bool| {
        Type::Record(Record {
            optional,
            readonly,
            key: Box::new(Type::String),
            value: Box::new(Type::Number),
        })
    };
    assert_eq!(render(&rec(false, false), opts()), "{ [key: string]: number }");
    assert_eq!(
        render(&rec(false, true), opts()),
        "{ readonly [key: string]: number }"
    );
    assert_eq!(
        render(&rec(true, false), opts()),
        "{ [key: string]?: number }"
    );
    assert_eq!(
        render(
            &rec(false, true),
            RenderOptions {
                readonly_annotations: false
            }
        ),
        "{ [key: string]: number }"
    );
}

#[test]
fn combinators_render_with_precedence() {
    let custom = |s: &str| Type::Custom(s.to_string());
    let or = Type::Or(vec![Type::String, Type::Null, Type::Undefined]);
    assert_eq!(render(&or, opts()), "string | null | undefined");
    let and = Type::And(vec![custom("A"), custom("B")]);
    assert_eq!(render(&and, opts()), "A & B");
    let mixed = Type::Or(vec![
        Type::And(vec![custom("A"), custom("B")]),
        custom("C"),
    ]);
    assert_eq!(render(&mixed, opts()), "(A & B) | C");
    let mixed2 = Type::And(vec![
        Type::Or(vec![custom("A"), custom("B")]),
        custom("C"),
    ]);
    assert_eq!(render(&mixed2, opts()), "(A | B) & C");
    assert_eq!(render(&Type::Or(vec![]), opts()), "never");
    assert_eq!(render(&Type::And(vec![]), opts()), "unknown");
    assert_eq!(render(&Type::Or(vec![Type::String]), opts()), "string");
}

#[test]
fn custom_renders_verbatim() {
    let c = Type::Custom("Map<string, Date>".to_string());
    assert_eq!(render(&c, opts()), "Map<string, Date>");
}

#[test]
fn rendering_is_idempotent() {
    let build = || {
        Type::Object(Object {
            properties: vec![
                prop("id", Type::Number, false, false),
                prop(
                    "name",
                    Type::Or(vec![Type::String, Type::Null, Type::Undefined]),
                    true,
                    false,
                ),
            ],
        })
    };
    let first = render(&build(), opts());
    let second = render(&build(), opts());
    assert_eq!(first, second);
}

#[test]
fn cloning_preserves_structure_and_rendering() {
    let original = Type::Object(Object {
        properties: vec![
            prop("id", Type::Number, false, false),
            prop(
                "items",
                Type::Array(shape::Array {
                    item: Box::new(Type::Or(vec![Type::String, Type::Null])),
                }),
                true,
                false,
            ),
        ],
    });
    let copy = original.clone();
    assert_eq!(copy, original);
    assert_eq!(render(&copy, opts()), render(&original, opts()));
}
