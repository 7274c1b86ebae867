use shape::is_assignable;
use shape::Literal;
use shape::Object;
use shape::Property;
use shape::Record;
use shape::Tuple;
use shape::Type;

fn prop(name: &str, ty: Type, optional: bool) -> (String, Property) {
    (
        name.to_string(),
        Property {
            ty,
            optional,
            readonly: false,
        },
    )
}

fn obj(props: Vec<(String, Property)>) -> Type {
    Type::Object(Object { properties: props })
}

#[test]
fn reflexivity_on_concrete_types() {
    let build = || {
        obj(vec![
            prop("id", Type::Number, false),
            prop(
                "name",
                Type::Or(vec![Type::String, Type::Null, Type::Undefined]),
                true,
            ),
            prop(
                "tags",
                Type::Array(shape::Array {
                    item: Box::new(Type::String),
                }),
                false,
            ),
        ])
    };
    assert!(is_assignable(&build(), &build()));
    let tup = || {
        Type::Tuple(Tuple {
            items: vec![Type::String, Type::Number],
            rest: Some(Box::new(Type::Boolean)),
        })
    };
    assert!(is_assignable(&tup(), &tup()));
    let and = || Type::And(vec![Type::String, Type::Number]);
    assert!(is_assignable(&and(), &and()));
}

#[test]
fn never_is_bottom() {
    assert!(is_assignable(&Type::Never, &Type::String));
    assert!(is_assignable(&Type::Never, &Type::Never));
    assert!(is_assignable(
        &Type::Never,
        &Type::Or(vec![Type::String, Type::Number])
    ));
    assert!(!is_assignable(&Type::String, &Type::Never));
    assert!(!is_assignable(&Type::Null, &Type::Never));
}

#[test]
fn union_elimination() {
    let lit_x = Type::Literal(Literal::String("x".to_string()));
    assert!(is_assignable(
        &Type::Or(vec![lit_x, Type::String]),
        &Type::String
    ));
    assert!(!is_assignable(
        &Type::Or(vec![Type::String, Type::Number]),
        &Type::String
    ));
    // An empty union behaves as Never.
    assert!(is_assignable(&Type::Or(vec![]), &Type::Number));
    assert!(!is_assignable(&Type::Number, &Type::Or(vec![])));
}

#[test]
fn union_introduction() {
    assert!(is_assignable(
        &Type::String,
        &Type::Or(vec![Type::String, Type::Number])
    ));
    assert!(is_assignable(
        &Type::String,
        &Type::Or(vec![Type::Number, Type::String])
    ));
    assert!(!is_assignable(
        &Type::String,
        &Type::Or(vec![Type::Number, Type::Boolean])
    ));
}

#[test]
fn intersection_rules() {
    // Target intersection: every member must accept the source.
    assert!(is_assignable(
        &Type::Literal(Literal::String("x".to_string())),
        &Type::And(vec![
            Type::String,
            Type::Literal(Literal::String("x".to_string()))
        ])
    ));
    assert!(!is_assignable(
        &Type::String,
        &Type::And(vec![Type::String, Type::Number])
    ));
    // Source intersection: one member assignable to the target suffices.
    assert!(is_assignable(
        &Type::And(vec![Type::String, Type::Number]),
        &Type::String
    ));
    assert!(!is_assignable(
        &Type::And(vec![Type::Boolean, Type::Number]),
        &Type::String
    ));
    // An empty intersection behaves as a top type.
    assert!(is_assignable(&Type::String, &Type::And(vec![])));
    assert!(!is_assignable(&Type::And(vec![]), &Type::String));
}

#[test]
fn width_subtyping_allows_extra_properties() {
    let source = obj(vec![
        prop("a", Type::String, false),
        prop("b", Type::Number, false),
    ]);
    let target = obj(vec![prop("a", Type::String, false)]);
    assert!(is_assignable(&source, &target));
    let source_missing = obj(vec![prop("b", Type::Number, false)]);
    let target2 = obj(vec![prop("a", Type::String, false)]);
    assert!(!is_assignable(&source_missing, &target2));
}

#[test]
fn optional_property_slack() {
    let empty = obj(vec![]);
    let optional_a = obj(vec![prop("a", Type::String, true)]);
    let required_a = obj(vec![prop("a", Type::String, false)]);
    assert!(is_assignable(&empty, &optional_a));
    let empty2 = obj(vec![]);
    assert!(!is_assignable(&empty2, &required_a));
    // A present property must still match an optional target property.
    let a_number = obj(vec![prop("a", Type::Number, false)]);
    let optional_a2 = obj(vec![prop("a", Type::String, true)]);
    assert!(!is_assignable(&a_number, &optional_a2));
}

#[test]
fn literal_to_primitive() {
    let lit = |s: &str| Type::Literal(Literal::String(s.to_string()));
    assert!(is_assignable(&lit("x"), &Type::String));
    assert!(!is_assignable(&Type::String, &lit("x")));
    assert!(is_assignable(&lit("x"), &lit("x")));
    assert!(!is_assignable(&lit("x"), &lit("y")));
    assert!(!is_assignable(&lit("x"), &Type::Number));
    let one = Type::Literal(Literal::Number("1".to_string()));
    assert!(is_assignable(&one, &Type::Number));
    let yes = Type::Literal(Literal::Boolean(true));
    assert!(is_assignable(&yes, &Type::Boolean));
    assert!(!is_assignable(&yes, &Type::Literal(Literal::Boolean(false))));
}

#[test]
fn tuple_rest_both_directions() {
    let source = || Type::Tuple(Tuple {
        items: vec![Type::String, Type::Number],
        rest: None,
    });
    let target = || Type::Tuple(Tuple {
        items: vec![Type::String],
        rest: Some(Box::new(Type::Number)),
    });
    assert!(is_assignable(&source(), &target()));
    assert!(!is_assignable(&target(), &source()));
}

#[test]
fn tuple_lengths_and_items() {
    let pair = || Type::Tuple(Tuple {
        items: vec![Type::String, Type::Number],
        rest: None,
    });
    let single = || Type::Tuple(Tuple {
        items: vec![Type::String],
        rest: None,
    });
    assert!(!is_assignable(&pair(), &single()));
    assert!(!is_assignable(&single(), &pair()));
    let lit_pair = Type::Tuple(Tuple {
        items: vec![
            Type::Literal(Literal::String("x".to_string())),
            Type::Number,
        ],
        rest: None,
    });
    assert!(is_assignable(&lit_pair, &pair()));
}

#[test]
fn tuple_and_array() {
    let array_of = |t: Type| Type::Array(shape::Array { item: Box::new(t) });
    let tup = Type::Tuple(Tuple {
        items: vec![
            Type::String,
            Type::Literal(Literal::String("x".to_string())),
        ],
        rest: Some(Box::new(Type::String)),
    });
    assert!(is_assignable(&tup, &array_of(Type::String)));
    let tup2 = Type::Tuple(Tuple {
        items: vec![Type::String, Type::Number],
        rest: None,
    });
    assert!(!is_assignable(&tup2, &array_of(Type::String)));
    // An array never fits a fixed-length tuple, only a pure rest form.
    let fixed = Type::Tuple(Tuple {
        items: vec![Type::String],
        rest: None,
    });
    assert!(!is_assignable(&array_of(Type::String), &fixed));
    let rest_only = Type::Tuple(Tuple {
        items: vec![],
        rest: Some(Box::new(Type::String)),
    });
    assert!(is_assignable(&array_of(Type::String), &rest_only));
    assert!(is_assignable(
        &array_of(Type::String),
        &array_of(Type::String)
    ));
    assert!(!is_assignable(
        &array_of(Type::String),
        &array_of(Type::Number)
    ));
}

#[test]
fn object_and_record() {
    let rec = |key: Type, value: Type| {
        Type::Record(Record {
            optional: false,
            readonly: false,
            key: Box::new(key),
            value: Box::new(value),
        })
    };
    let source = obj(vec![
        prop("a", Type::Number, false),
        prop("b", Type::Number, false),
    ]);
    assert!(is_assignable(&source, &rec(Type::String, Type::Number)));
    let source2 = obj(vec![
        prop("a", Type::Number, false),
        prop("b", Type::String, false),
    ]);
    assert!(!is_assignable(&source2, &rec(Type::String, Type::Number)));
    // The record key must accept string keys.
    let source3 = obj(vec![prop("a", Type::Number, false)]);
    assert!(!is_assignable(&source3, &rec(Type::Number, Type::Number)));
    // A record fits an object only when nothing is required of it.
    let all_optional = obj(vec![prop("a", Type::String, true)]);
    assert!(is_assignable(&rec(Type::String, Type::String), &all_optional));
    let one_required = obj(vec![prop("a", Type::String, false)]);
    assert!(!is_assignable(
        &rec(Type::String, Type::String),
        &one_required
    ));
    // Record-to-record is covariant in key and value.
    assert!(is_assignable(
        &rec(Type::String, Type::Never),
        &rec(Type::String, Type::Number)
    ));
    assert!(!is_assignable(
        &rec(Type::String, Type::Number),
        &rec(Type::String, Type::Boolean)
    ));
}

#[test]
fn custom_is_opaque() {
    let date = || Type::Custom("Date".to_string());
    assert!(is_assignable(&date(), &date()));
    assert!(!is_assignable(&date(), &Type::Custom("Time".to_string())));
    assert!(!is_assignable(&date(), &Type::String));
    assert!(!is_assignable(&Type::String, &date()));
    assert!(is_assignable(&Type::Never, &date()));
}

#[test]
fn null_and_undefined_are_distinct() {
    assert!(is_assignable(&Type::Null, &Type::Null));
    assert!(is_assignable(&Type::Undefined, &Type::Undefined));
    assert!(!is_assignable(&Type::Null, &Type::Undefined));
    assert!(!is_assignable(&Type::Undefined, &Type::Null));
    assert!(is_assignable(
        &Type::Null,
        &Type::Or(vec![Type::String, Type::Null])
    ));
}

#[test]
fn tuple_source_rest_against_fixed_target() {
    // A source rest is ignored when the target's fixed length is already
    // satisfied by the source's fixed items alone.
    let source = Type::Tuple(Tuple {
        items: vec![Type::String],
        rest: Some(Box::new(Type::Number)),
    });
    let target = Type::Tuple(Tuple {
        items: vec![Type::String],
        rest: None,
    });
    assert!(is_assignable(&source, &target));
    let short_source = Type::Tuple(Tuple {
        items: vec![],
        rest: Some(Box::new(Type::String)),
    });
    let target2 = Type::Tuple(Tuple {
        items: vec![Type::String],
        rest: None,
    });
    assert!(!is_assignable(&short_source, &target2));
}

#[test]
fn well_formedness_check() {
    let ok = obj(vec![
        prop("a", Type::String, false),
        prop(
            "b",
            obj(vec![prop("inner", Type::Number, false)]),
            false,
        ),
    ]);
    assert!(shape::is_wf(&ok));
    let duplicate = obj(vec![
        prop("a", Type::String, false),
        prop("a", Type::Number, false),
    ]);
    assert!(!shape::is_wf(&duplicate));
    let nested_duplicate = Type::Or(vec![obj(vec![
        prop("x", Type::String, false),
        prop("x", Type::String, false),
    ])]);
    assert!(!shape::is_wf(&nested_duplicate));
}
