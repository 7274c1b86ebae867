use std::collections::BTreeMap;
use std::collections::HashMap;
use std::collections::HashSet;

use shape::is_assignable;
use shape::render;
use shape::Object;
use shape::Property;
use shape::RenderOptions;
use shape::Shape;
use shape::ShapeOptions;
use shape::Type;

#[test]
fn serialize_options_flags() {
    let o = ShapeOptions::for_serialize();
    assert!(o.is_serialize());
    assert!(!o.is_deserialize());
    assert!(!o.option_is_optional);
    assert!(!o.option_add_undefined);
    assert!(o.option_add_null);
}

#[test]
fn deserialize_options_flags() {
    let o = ShapeOptions::for_deserialize();
    assert!(o.is_deserialize());
    assert!(!o.is_serialize());
    assert!(o.option_is_optional);
    assert!(o.option_add_undefined);
    assert!(o.option_add_null);
}

#[test]
fn primitive_shapes() {
    let o = ShapeOptions::for_serialize();
    assert_eq!(String::shape(&o), Type::String);
    assert_eq!(bool::shape(&o), Type::Boolean);
    assert_eq!(u32::shape(&o), Type::Number);
    assert_eq!(i64::shape(&o), Type::Number);
    assert_eq!(<()>::shape(&o), Type::Null);
}

#[test]
fn option_shape_follows_the_flags() {
    let ser = ShapeOptions::for_serialize();
    assert_eq!(
        Option::<String>::shape(&ser),
        Type::Or(vec![Type::String, Type::Null])
    );
    let de = ShapeOptions::for_deserialize();
    assert_eq!(
        Option::<String>::shape(&de),
        Type::Or(vec![Type::String, Type::Null, Type::Undefined])
    );
}

#[test]
fn container_shapes() {
    let o = ShapeOptions::for_serialize();
    assert_eq!(
        Vec::<bool>::shape(&o),
        Type::Array(shape::Array {
            item: Box::new(Type::Boolean)
        })
    );
    assert_eq!(Box::<u8>::shape(&o), Type::Number);
    let map = BTreeMap::<String, u64>::shape(&o);
    assert_eq!(
        map,
        Type::Record(shape::Record {
            optional: false,
            readonly: false,
            key: Box::new(Type::String),
            value: Box::new(Type::Number),
        })
    );
    assert_eq!(
        <(String, u8)>::shape(&o),
        Type::Tuple(shape::Tuple {
            items: vec![Type::String, Type::Number],
            rest: None,
        })
    );
}

fn record_shape(options: &ShapeOptions, name_optional: bool) -> Type {
    Type::Object(Object {
        properties: vec![
            (
                "id".to_string(),
                Property {
                    ty: u64::shape(options),
                    optional: false,
                    readonly: false,
                },
            ),
            (
                "name".to_string(),
                Property {
                    ty: Option::<String>::shape(options),
                    optional: name_optional,
                    readonly: false,
                },
            ),
        ],
    })
}

#[test]
fn end_to_end_record_scenario() {
    // A producer emits the shape of `{ id: u64, name: Option<String> }`.
    let de = ShapeOptions::for_deserialize();
    let deserialize_shape = record_shape(&de, de.option_is_optional);
    assert_eq!(
        render(&deserialize_shape, RenderOptions::default()),
        "{ id: number; name?: string | null | undefined }"
    );

    let ser = ShapeOptions::for_serialize();
    let serialize_shape = record_shape(&ser, ser.option_is_optional);
    assert_eq!(
        render(&serialize_shape, RenderOptions::default()),
        "{ id: number; name: string | null }"
    );

    // Round-trip safety: what serialization emits is acceptable wherever the
    // deserialize shape is expected.
    assert!(is_assignable(&serialize_shape, &deserialize_shape));
    assert!(!is_assignable(&deserialize_shape, &serialize_shape));
}

#[test]
fn hash_collections_and_arrays() {
    let o = ShapeOptions::for_serialize();
    assert_eq!(
        HashSet::<u8>::shape(&o),
        Type::Array(shape::Array {
            item: Box::new(Type::Number)
        })
    );
    assert_eq!(
        HashMap::<String, bool>::shape(&o),
        Type::Record(shape::Record {
            optional: false,
            readonly: false,
            key: Box::new(Type::String),
            value: Box::new(Type::Boolean),
        })
    );
    assert_eq!(
        <[u8; 3]>::shape(&o),
        Type::Tuple(shape::Tuple {
            items: vec![Type::Number, Type::Number, Type::Number],
            rest: None,
        })
    );
    assert_eq!(<&str>::shape(&o), Type::String);
}
