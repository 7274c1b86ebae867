//! The [`Shape`] trait: how a host data type describes the shape of its
//! serialized form.
//!
//! Each implementation states in `shape_of` exactly which value of the type
//! algebra it produces for given options, and `shape` returns it. The
//! mechanism that derives implementations for whole data definitions is a
//! separate producer; the implementations here cover the plain building
//! blocks (primitives, strings, options, sequences, maps, boxes, small
//! tuples).

use vstd::prelude::*;

use crate::options::ShapeOptions;
use crate::ty::Type;
use crate::ty::TypeV;
use crate::ty::Array;
use crate::ty::Record;
use crate::ty::Tuple;
use crate::ty::tys_view;
use crate::ty::lemma_tys_view;

use std::collections::BTreeMap;
use std::collections::BTreeSet;
use std::collections::HashMap;
use std::collections::HashSet;
use std::rc::Rc;
use std::sync::Arc;

verus! {

/// A type whose serialized form has a known shape in the type algebra.
///
/// `shape_of` is the specification: the model of the shape value produced
/// for the given options. `shape` produces that value.
pub trait Shape {
    /// The model of the shape this type produces under `options`.
    spec fn shape_of(options: ShapeOptions) -> TypeV;

    /// Produces the shape of this type's serialized form.
    fn shape(options: &ShapeOptions) -> (r: Type)
        ensures
            r@ == Self::shape_of(*options),
    ;
}

impl Shape for String {
    open spec fn shape_of(options: ShapeOptions) -> TypeV {
        TypeV::String
    }

    fn shape(options: &ShapeOptions) -> (r: Type) {
        Type::String
    }
}

impl Shape for bool {
    open spec fn shape_of(options: ShapeOptions) -> TypeV {
        TypeV::Boolean
    }

    fn shape(options: &ShapeOptions) -> (r: Type) {
        Type::Boolean
    }
}

impl Shape for u8 {
    open spec fn shape_of(options: ShapeOptions) -> TypeV {
        TypeV::Number
    }

    fn shape(options: &ShapeOptions) -> (r: Type) {
        Type::Number
    }
}

impl Shape for u16 {
    open spec fn shape_of(options: ShapeOptions) -> TypeV {
        TypeV::Number
    }

    fn shape(options: &ShapeOptions) -> (r: Type) {
        Type::Number
    }
}

impl Shape for u32 {
    open spec fn shape_of(options: ShapeOptions) -> TypeV {
        TypeV::Number
    }

    fn shape(options: &ShapeOptions) -> (r: Type) {
        Type::Number
    }
}

impl Shape for u64 {
    open spec fn shape_of(options: ShapeOptions) -> TypeV {
        TypeV::Number
    }

    fn shape(options: &ShapeOptions) -> (r: Type) {
        Type::Number
    }
}

impl Shape for u128 {
    open spec fn shape_of(options: ShapeOptions) -> TypeV {
        TypeV::Number
    }

    fn shape(options: &ShapeOptions) -> (r: Type) {
        Type::Number
    }
}

impl Shape for usize {
    open spec fn shape_of(options: ShapeOptions) -> TypeV {
        TypeV::Number
    }

    fn shape(options: &ShapeOptions) -> (r: Type) {
        Type::Number
    }
}

impl Shape for i8 {
    open spec fn shape_of(options: ShapeOptions) -> TypeV {
        TypeV::Number
    }

    fn shape(options: &ShapeOptions) -> (r: Type) {
        Type::Number
    }
}

impl Shape for i16 {
    open spec fn shape_of(options: ShapeOptions) -> TypeV {
        TypeV::Number
    }

    fn shape(options: &ShapeOptions) -> (r: Type) {
        Type::Number
    }
}

impl Shape for i32 {
    open spec fn shape_of(options: ShapeOptions) -> TypeV {
        TypeV::Number
    }

    fn shape(options: &ShapeOptions) -> (r: Type) {
        Type::Number
    }
}

impl Shape for i64 {
    open spec fn shape_of(options: ShapeOptions) -> TypeV {
        TypeV::Number
    }

    fn shape(options: &ShapeOptions) -> (r: Type) {
        Type::Number
    }
}

impl Shape for i128 {
    open spec fn shape_of(options: ShapeOptions) -> TypeV {
        TypeV::Number
    }

    fn shape(options: &ShapeOptions) -> (r: Type) {
        Type::Number
    }
}

impl Shape for isize {
    open spec fn shape_of(options: ShapeOptions) -> TypeV {
        TypeV::Number
    }

    fn shape(options: &ShapeOptions) -> (r: Type) {
        Type::Number
    }
}

impl Shape for () {
    open spec fn shape_of(options: ShapeOptions) -> TypeV {
        TypeV::Null
    }

    fn shape(options: &ShapeOptions) -> (r: Type) {
        Type::Null
    }
}

/// An optional value widens its inner shape: `null` joins the union when the
/// options say absence serializes as null, `undefined` when the property may
/// be left out entirely.
impl<T: Shape> Shape for Option<T> {
    open spec fn shape_of(options: ShapeOptions) -> TypeV {
        let inner = T::shape_of(options);
        if options.option_add_null && options.option_add_undefined {
            TypeV::Or(seq![inner, TypeV::Null, TypeV::Undefined])
        } else if options.option_add_null {
            TypeV::Or(seq![inner, TypeV::Null])
        } else if options.option_add_undefined {
            TypeV::Or(seq![inner, TypeV::Undefined])
        } else {
            inner
        }
    }

    fn shape(options: &ShapeOptions) -> (r: Type) {
        let inner = T::shape(options);
        if options.option_add_null && options.option_add_undefined {
            let r = Type::Or(vec![inner, Type::Null, Type::Undefined]);
            proof {
                lemma_tys_view(r->Or_0@);
                assert(r@->Or_0 =~= Self::shape_of(*options)->Or_0);
            }
            r
        } else if options.option_add_null {
            let r = Type::Or(vec![inner, Type::Null]);
            proof {
                lemma_tys_view(r->Or_0@);
                assert(r@->Or_0 =~= Self::shape_of(*options)->Or_0);
            }
            r
        } else if options.option_add_undefined {
            let r = Type::Or(vec![inner, Type::Undefined]);
            proof {
                lemma_tys_view(r->Or_0@);
                assert(r@->Or_0 =~= Self::shape_of(*options)->Or_0);
            }
            r
        } else {
            inner
        }
    }
}

impl<T: Shape> Shape for Box<T> {
    open spec fn shape_of(options: ShapeOptions) -> TypeV {
        T::shape_of(options)
    }

    fn shape(options: &ShapeOptions) -> (r: Type) {
        T::shape(options)
    }
}

impl<T: Shape> Shape for Vec<T> {
    open spec fn shape_of(options: ShapeOptions) -> TypeV {
        TypeV::Array(crate::ty::ArrayV { item: Box::new(T::shape_of(options)) })
    }

    fn shape(options: &ShapeOptions) -> (r: Type) {
        Type::Array(Array { item: Box::new(T::shape(options)) })
    }
}

impl<T: Shape> Shape for BTreeSet<T> {
    open spec fn shape_of(options: ShapeOptions) -> TypeV {
        TypeV::Array(crate::ty::ArrayV { item: Box::new(T::shape_of(options)) })
    }

    fn shape(options: &ShapeOptions) -> (r: Type) {
        Type::Array(Array { item: Box::new(T::shape(options)) })
    }
}

/// A map serializes as an open record from its key rendering to its value
/// shape.
impl<K: Shape, V: Shape> Shape for BTreeMap<K, V> {
    open spec fn shape_of(options: ShapeOptions) -> TypeV {
        TypeV::Record(
            crate::ty::RecordV {
                optional: false,
                readonly: false,
                key: Box::new(K::shape_of(options)),
                value: Box::new(V::shape_of(options)),
            },
        )
    }

    fn shape(options: &ShapeOptions) -> (r: Type) {
        Type::Record(
            Record {
                optional: false,
                readonly: false,
                key: Box::new(K::shape(options)),
                value: Box::new(V::shape(options)),
            },
        )
    }
}

impl<A: Shape> Shape for (A,) {
    open spec fn shape_of(options: ShapeOptions) -> TypeV {
        TypeV::Tuple(
            crate::ty::TupleV { items: seq![A::shape_of(options)], rest: Option::None },
        )
    }

    fn shape(options: &ShapeOptions) -> (r: Type) {
        let r = Type::Tuple(Tuple { items: vec![A::shape(options)], rest: Option::None });
        proof {
            lemma_tys_view(r->Tuple_0.items@);
            assert(r@->Tuple_0.items =~= Self::shape_of(*options)->Tuple_0.items);
        }
        r
    }
}

impl<A: Shape, B: Shape> Shape for (A, B) {
    open spec fn shape_of(options: ShapeOptions) -> TypeV {
        TypeV::Tuple(
            crate::ty::TupleV {
                items: seq![A::shape_of(options), B::shape_of(options)],
                rest: Option::None,
            },
        )
    }

    fn shape(options: &ShapeOptions) -> (r: Type) {
        let r = Type::Tuple(
            Tuple { items: vec![A::shape(options), B::shape(options)], rest: Option::None },
        );
        proof {
            lemma_tys_view(r->Tuple_0.items@);
            assert(r@->Tuple_0.items =~= Self::shape_of(*options)->Tuple_0.items);
        }
        r
    }
}

impl<A: Shape, B: Shape, C: Shape> Shape for (A, B, C) {
    open spec fn shape_of(options: ShapeOptions) -> TypeV {
        TypeV::Tuple(
            crate::ty::TupleV {
                items: seq![
                    A::shape_of(options),
                    B::shape_of(options),
                    C::shape_of(options),
                ],
                rest: Option::None,
            },
        )
    }

    fn shape(options: &ShapeOptions) -> (r: Type) {
        let r = Type::Tuple(
            Tuple {
                items: vec![A::shape(options), B::shape(options), C::shape(options)],
                rest: Option::None,
            },
        );
        proof {
            lemma_tys_view(r->Tuple_0.items@);
            assert(r@->Tuple_0.items =~= Self::shape_of(*options)->Tuple_0.items);
        }
        r
    }
}

impl Shape for str {
    open spec fn shape_of(options: ShapeOptions) -> TypeV {
        TypeV::String
    }

    fn shape(options: &ShapeOptions) -> (r: Type) {
        Type::String
    }
}

/// A reference serializes as what it points to.
impl<T: Shape + ?Sized> Shape for &T {
    open spec fn shape_of(options: ShapeOptions) -> TypeV {
        T::shape_of(options)
    }

    fn shape(options: &ShapeOptions) -> (r: Type) {
        T::shape(options)
    }
}

impl<T: Shape> Shape for Rc<T> {
    open spec fn shape_of(options: ShapeOptions) -> TypeV {
        T::shape_of(options)
    }

    fn shape(options: &ShapeOptions) -> (r: Type) {
        T::shape(options)
    }
}

impl<T: Shape> Shape for Arc<T> {
    open spec fn shape_of(options: ShapeOptions) -> TypeV {
        T::shape_of(options)
    }

    fn shape(options: &ShapeOptions) -> (r: Type) {
        T::shape(options)
    }
}

impl<T: Shape, H> Shape for HashSet<T, H> {
    open spec fn shape_of(options: ShapeOptions) -> TypeV {
        TypeV::Array(crate::ty::ArrayV { item: Box::new(T::shape_of(options)) })
    }

    fn shape(options: &ShapeOptions) -> (r: Type) {
        Type::Array(Array { item: Box::new(T::shape(options)) })
    }
}

impl<K: Shape, V: Shape, H> Shape for HashMap<K, V, H> {
    open spec fn shape_of(options: ShapeOptions) -> TypeV {
        TypeV::Record(
            crate::ty::RecordV {
                optional: false,
                readonly: false,
                key: Box::new(K::shape_of(options)),
                value: Box::new(V::shape_of(options)),
            },
        )
    }

    fn shape(options: &ShapeOptions) -> (r: Type) {
        Type::Record(
            Record {
                optional: false,
                readonly: false,
                key: Box::new(K::shape(options)),
                value: Box::new(V::shape(options)),
            },
        )
    }
}

/// A fixed-size array serializes as a tuple of its length, every item of the
/// element shape.
impl<T: Shape, const N: usize> Shape for [T; N] {
    open spec fn shape_of(options: ShapeOptions) -> TypeV {
        TypeV::Tuple(
            crate::ty::TupleV {
                items: Seq::new(N as nat, |i: int| T::shape_of(options)),
                rest: Option::None,
            },
        )
    }

    fn shape(options: &ShapeOptions) -> (r: Type) {
        let mut items: Vec<Type> = Vec::new();
        let mut i: usize = 0;
        while i < N
            invariant
                i <= N,
                items@.len() == i,
                forall|k: int| 0 <= k < i ==> (#[trigger] items@[k])@ == T::shape_of(*options),
            decreases N - i,
        {
            items.push(T::shape(options));
            i += 1;
        }
        let r = Type::Tuple(Tuple { items, rest: Option::None });
        proof {
            lemma_tys_view(r->Tuple_0.items@);
            assert(r@->Tuple_0.items =~= Self::shape_of(*options)->Tuple_0.items);
            assert(r@ =~~= Self::shape_of(*options));
        }
        r
    }
}


} // verus!
