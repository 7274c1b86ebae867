//! The assignability engine: decides structural assignability `A <: B`
//! between two values of the type algebra.
//!
//! `assignable` is the mathematical definition, a total function over the
//! spec mirrors; [`is_assignable`] is the executable decision procedure,
//! proved to return exactly what `assignable` says.
//!
//! The rules, in the order they apply:
//! - `Never` (the bottom type) is assignable to anything, and an empty union
//!   behaves as `Never`.
//! - A union source is assignable iff every member is (union elimination).
//! - When an intersection meets a union target, either picking a member of
//!   the source or picking a member of the target may justify assignability.
//! - A union target accepts a source iff some member accepts it (union
//!   introduction).
//! - An intersection target accepts a source iff every member accepts it; an
//!   empty intersection behaves as a top type.
//! - An intersection source is assignable iff some member is. This is a
//!   deliberate approximation of intersection semantics: a single facet of
//!   the intersection must satisfy the goal, the members are not combined.
//! - Otherwise the two shapes are compared structurally; whatever is not
//!   explicitly allowed is denied.

use vstd::prelude::*;

use crate::ty::Type;
use crate::ty::Literal;
use crate::ty::Tuple;
use crate::ty::Array;
use crate::ty::Object;
use crate::ty::Record;
use crate::ty::Property;
use crate::ty::TypeV;
use crate::ty::LiteralV;
use crate::ty::TupleV;
use crate::ty::ArrayV;
use crate::ty::ObjectV;
use crate::ty::RecordV;
use crate::ty::PropertyV;
use crate::ty::tys_view;
use crate::ty::props_view;
use crate::ty::prop_view;
use crate::ty::lemma_tys_view;
use crate::ty::lemma_props_view;

verus! {

/// Structural assignability: every value conforming to `s` also conforms to
/// `t`, under covariant structural subtyping with the approximations
/// documented in this module.
pub open spec fn assignable(s: TypeV, t: TypeV) -> bool
    decreases s, t, 2int,
{
    match s {
        TypeV::Never => true,
        TypeV::Or(ms) => all_members_assignable(ms, t),
        _ => match t {
            TypeV::Or(os) => match s {
                TypeV::And(ms) => some_member_assignable(ms, t) || assignable_to_some(s, os),
                _ => assignable_to_some(s, os),
            },
            TypeV::And(os) => assignable_to_every(s, os),
            _ => match s {
                TypeV::And(ms) => some_member_assignable(ms, t),
                _ => base_assignable(s, t),
            },
        },
    }
}

/// Every member of `ms` is assignable to `t` (union elimination).
pub open spec fn all_members_assignable(ms: Seq<TypeV>, t: TypeV) -> bool
    decreases ms, t, 1int,
{
    forall|i: int| 0 <= i < ms.len() ==> assignable(#[trigger] ms[i], t)
}

/// Some member of `ms` is assignable to `t` (intersection elimination).
pub open spec fn some_member_assignable(ms: Seq<TypeV>, t: TypeV) -> bool
    decreases ms, t, 1int,
{
    exists|i: int| 0 <= i < ms.len() && assignable(#[trigger] ms[i], t)
}

/// `s` is assignable to every member of `os` (intersection introduction).
pub open spec fn assignable_to_every(s: TypeV, os: Seq<TypeV>) -> bool
    decreases s, os, 1int,
{
    forall|j: int| 0 <= j < os.len() ==> assignable(s, #[trigger] os[j])
}

/// `s` is assignable to some member of `os` (union introduction).
pub open spec fn assignable_to_some(s: TypeV, os: Seq<TypeV>) -> bool
    decreases s, os, 1int,
{
    exists|j: int| 0 <= j < os.len() && assignable(s, #[trigger] os[j])
}

/// Assignability between two non-combinator shapes (neither side is `Never`
/// as a source, `Or`, or `And`).
pub open spec fn base_assignable(s: TypeV, t: TypeV) -> bool
    decreases s, t, 1int,
{
    match (s, t) {
        (TypeV::String, TypeV::String) => true,
        (TypeV::Number, TypeV::Number) => true,
        (TypeV::Boolean, TypeV::Boolean) => true,
        (TypeV::Null, TypeV::Null) => true,
        (TypeV::Undefined, TypeV::Undefined) => true,
        (TypeV::Literal(a), TypeV::Literal(b)) => a == b,
        (TypeV::Literal(LiteralV::String(_)), TypeV::String) => true,
        (TypeV::Literal(LiteralV::Number(_)), TypeV::Number) => true,
        (TypeV::Literal(LiteralV::Boolean(_)), TypeV::Boolean) => true,
        (TypeV::Tuple(a), TypeV::Tuple(b)) => tuple_assignable(a, b),
        (TypeV::Tuple(a), TypeV::Array(b)) => tuple_to_array(a, b),
        (TypeV::Array(a), TypeV::Array(b)) => assignable(*a.item, *b.item),
        (TypeV::Array(a), TypeV::Tuple(b)) => b.items.len() == 0 && match b.rest {
            Option::Some(r) => assignable(*a.item, *r),
            Option::None => false,
        },
        (TypeV::Object(a), TypeV::Object(b)) => object_assignable(a, b),
        (TypeV::Object(a), TypeV::Record(b)) => object_to_record(a, b),
        (TypeV::Record(a), TypeV::Object(b)) => record_to_object(b),
        (TypeV::Record(a), TypeV::Record(b)) => assignable(*a.key, *b.key) && assignable(
            *a.value,
            *b.value,
        ),
        (TypeV::Custom(a), TypeV::Custom(b)) => a == b,
        _ => false,
    }
}

/// Tuple-to-tuple assignability.
///
/// Positional items are compared pairwise, so the target may not fix more
/// items than the source provides. A target without a rest demands the
/// source's fixed length exactly; a target with a rest accepts the source's
/// surplus fixed items and its rest type through the rest.
pub open spec fn tuple_assignable(a: TupleV, b: TupleV) -> bool
    decreases a, b, 0int,
{
    &&& a.items.len() >= b.items.len()
    &&& (forall|k: int|
        0 <= k < b.items.len() ==> assignable(#[trigger] a.items[k], b.items[k]))
    &&& match b.rest {
        Option::Some(r) => {
            &&& (forall|k: int|
                b.items.len() <= k < a.items.len() ==> assignable(#[trigger] a.items[k], *r))
            &&& match a.rest {
                Option::Some(rs) => assignable(*rs, *r),
                Option::None => true,
            }
        },
        Option::None => a.items.len() == b.items.len(),
    }
}

/// Tuple-to-array assignability: every item, and the rest type if present,
/// must be assignable to the array's item type.
pub open spec fn tuple_to_array(a: TupleV, b: ArrayV) -> bool
    decreases a, b, 0int,
{
    &&& (forall|k: int|
        0 <= k < a.items.len() ==> assignable(#[trigger] a.items[k], *b.item))
    &&& match a.rest {
        Option::Some(rs) => assignable(*rs, *b.item),
        Option::None => true,
    }
}

/// Object-to-object width subtyping: every property the target mentions is
/// satisfied by the source; extra source properties are ignored.
pub open spec fn object_assignable(a: ObjectV, b: ObjectV) -> bool
    decreases a, b, 1int,
{
    forall|j: int|
        0 <= j < b.properties.len() ==> prop_satisfied(
            a.properties,
            #[trigger] b.properties[j],
        )
}

/// How a source property list satisfies one target property `q`: a required
/// `q` needs an entry of the same name with an assignable type; an optional
/// `q` allows the name to be absent, but every entry carrying it must have an
/// assignable type.
pub open spec fn prop_satisfied(ps: Seq<PropertyV>, q: PropertyV) -> bool
    decreases ps, q, 0int,
{
    if q.optional {
        forall|i: int|
            0 <= i < ps.len() && (#[trigger] ps[i]).name == q.name ==> assignable(ps[i].ty, q.ty)
    } else {
        exists|i: int|
            0 <= i < ps.len() && (#[trigger] ps[i]).name == q.name && assignable(ps[i].ty, q.ty)
    }
}

/// Object-to-record assignability: the record's key must accept strings, and
/// every property value type must be assignable to the record's value type.
pub open spec fn object_to_record(a: ObjectV, b: RecordV) -> bool
    decreases a, b, 0int,
{
    &&& key_accepts_string(*b.key)
    &&& (forall|i: int|
        0 <= i < a.properties.len() ==> assignable(
            (#[trigger] a.properties[i]).ty,
            *b.value,
        ))
}

/// Record-to-object assignability: a record guarantees no fixed keys, so the
/// object may not require any property.
pub open spec fn record_to_object(b: ObjectV) -> bool {
    forall|j: int| 0 <= j < b.properties.len() ==> (#[trigger] b.properties[j]).optional
}

/// Whether a record key type accepts the string keys an object provides:
/// exactly when `String` is assignable to it.
pub open spec fn key_accepts_string(k: TypeV) -> bool
    decreases k, 1int,
{
    match k {
        TypeV::String => true,
        TypeV::Or(ms) => some_key_accepts(ms),
        TypeV::And(ms) => all_keys_accept_string(ms),
        _ => false,
    }
}

/// Some member of `ms` accepts string keys.
pub open spec fn some_key_accepts(ms: Seq<TypeV>) -> bool
    decreases ms, 0int,
{
    exists|i: int| 0 <= i < ms.len() && key_accepts_string(#[trigger] ms[i])
}

/// Every member of `ms` accepts string keys.
pub open spec fn all_keys_accept_string(ms: Seq<TypeV>) -> bool
    decreases ms, 0int,
{
    forall|i: int| 0 <= i < ms.len() ==> key_accepts_string(#[trigger] ms[i])
}

/// String equality, stated over the views.
fn str_eq(a: &String, b: &String) -> (r: bool)
    ensures
        r == (a@ == b@),
{
    a.eq(b)
}

/// Literal equality, stated over the views.
fn lit_eq(a: &Literal, b: &Literal) -> (r: bool)
    ensures
        r == (a@ == b@),
{
    match (a, b) {
        (Literal::String(x), Literal::String(y)) => str_eq(x, y),
        (Literal::Number(x), Literal::Number(y)) => str_eq(x, y),
        (Literal::Boolean(x), Literal::Boolean(y)) => *x == *y,
        _ => false,
    }
}

/// Decides structural assignability: whether every value conforming to
/// `source` also conforms to `target`. Returns exactly what [`assignable`]
/// says of the two models; total, with no side effects.
pub fn is_assignable(source: &Type, target: &Type) -> (r: bool)
    ensures
        r == assignable(source@, target@),
    decreases *source, *target, 4int,
{
    match source {
        Type::Never => true,
        Type::Or(ms) => {
            let r = all_assignable(ms, target);
            proof {
                assert(source@ == TypeV::Or(tys_view(ms@)));
            }
            r
        },
        _ => match target {
            Type::Or(os) => {
                proof {
                    assert(target@ == TypeV::Or(tys_view(os@)));
                }
                let by_source = match source {
                    Type::And(ms) => {
                        let r = any_assignable(ms, target);
                        proof {
                            assert(source@ == TypeV::And(tys_view(ms@)));
                        }
                        r
                    },
                    _ => false,
                };
                by_source || assignable_to_any(source, os)
            },
            Type::And(os) => {
                let r = assignable_to_all(source, os);
                proof {
                    assert(target@ == TypeV::And(tys_view(os@)));
                }
                r
            },
            _ => match source {
                Type::And(ms) => {
                    let r = any_assignable(ms, target);
                    proof {
                        assert(source@ == TypeV::And(tys_view(ms@)));
                    }
                    r
                },
                _ => is_base_assignable(source, target),
            },
        },
    }
}

/// Whether every member of `ms` is assignable to `t`.
fn all_assignable(ms: &Vec<Type>, t: &Type) -> (r: bool)
    ensures
        r == all_members_assignable(tys_view(ms@), t@),
    decreases *ms, *t, 3int,
{
    let mut i: usize = 0;
    while i < ms.len()
        invariant
            i <= ms@.len(),
            forall|k: int| 0 <= k < i ==> assignable(#[trigger] tys_view(ms@)[k], t@),
        decreases ms@.len() - i,
    {
        proof {
            lemma_tys_view(ms@);
            assert(tys_view(ms@)[i as int] == ms@[i as int]@);
        }
        if !is_assignable(&ms[i], t) {
            return false;
        }
        i += 1;
    }
    proof {
        lemma_tys_view(ms@);
    }
    true
}

/// Whether some member of `ms` is assignable to `t`.
fn any_assignable(ms: &Vec<Type>, t: &Type) -> (r: bool)
    ensures
        r == some_member_assignable(tys_view(ms@), t@),
    decreases *ms, *t, 3int,
{
    let mut i: usize = 0;
    while i < ms.len()
        invariant
            i <= ms@.len(),
            forall|k: int| 0 <= k < i ==> !assignable(#[trigger] tys_view(ms@)[k], t@),
        decreases ms@.len() - i,
    {
        proof {
            lemma_tys_view(ms@);
            assert(tys_view(ms@)[i as int] == ms@[i as int]@);
        }
        if is_assignable(&ms[i], t) {
            return true;
        }
        i += 1;
    }
    proof {
        lemma_tys_view(ms@);
    }
    false
}

/// Whether `s` is assignable to every member of `os`.
fn assignable_to_all(s: &Type, os: &Vec<Type>) -> (r: bool)
    ensures
        r == assignable_to_every(s@, tys_view(os@)),
    decreases *s, *os, 3int,
{
    let mut j: usize = 0;
    while j < os.len()
        invariant
            j <= os@.len(),
            forall|k: int| 0 <= k < j ==> assignable(s@, #[trigger] tys_view(os@)[k]),
        decreases os@.len() - j,
    {
        proof {
            lemma_tys_view(os@);
            assert(tys_view(os@)[j as int] == os@[j as int]@);
        }
        if !is_assignable(s, &os[j]) {
            return false;
        }
        j += 1;
    }
    proof {
        lemma_tys_view(os@);
    }
    true
}

/// Whether `s` is assignable to some member of `os`.
fn assignable_to_any(s: &Type, os: &Vec<Type>) -> (r: bool)
    ensures
        r == assignable_to_some(s@, tys_view(os@)),
    decreases *s, *os, 3int,
{
    let mut j: usize = 0;
    while j < os.len()
        invariant
            j <= os@.len(),
            forall|k: int| 0 <= k < j ==> !assignable(s@, #[trigger] tys_view(os@)[k]),
        decreases os@.len() - j,
    {
        proof {
            lemma_tys_view(os@);
            assert(tys_view(os@)[j as int] == os@[j as int]@);
        }
        if is_assignable(s, &os[j]) {
            return true;
        }
        j += 1;
    }
    proof {
        lemma_tys_view(os@);
    }
    false
}

/// The structural comparison of two non-combinator shapes.
fn is_base_assignable(source: &Type, target: &Type) -> (r: bool)
    ensures
        r == base_assignable(source@, target@),
    decreases *source, *target, 3int,
{
    match (source, target) {
        (Type::String, Type::String) => true,
        (Type::Number, Type::Number) => true,
        (Type::Boolean, Type::Boolean) => true,
        (Type::Null, Type::Null) => true,
        (Type::Undefined, Type::Undefined) => true,
        (Type::Literal(a), Type::Literal(b)) => lit_eq(a, b),
        (Type::Literal(Literal::String(_)), Type::String) => true,
        (Type::Literal(Literal::Number(_)), Type::Number) => true,
        (Type::Literal(Literal::Boolean(_)), Type::Boolean) => true,
        (Type::Tuple(a), Type::Tuple(b)) => is_tuple_assignable(a, b),
        (Type::Tuple(a), Type::Array(b)) => is_tuple_to_array(a, b),
        (Type::Array(a), Type::Array(b)) => is_assignable(&a.item, &b.item),
        (Type::Array(a), Type::Tuple(b)) => b.items.len() == 0 && match &b.rest {
            Option::Some(r) => is_assignable(&a.item, r),
            Option::None => false,
        },
        (Type::Object(a), Type::Object(b)) => is_object_assignable(a, b),
        (Type::Object(a), Type::Record(b)) => is_object_to_record(a, b),
        (Type::Record(_), Type::Object(b)) => is_record_to_object(b),
        (Type::Record(a), Type::Record(b)) => is_assignable(&a.key, &b.key) && is_assignable(
            &a.value,
            &b.value,
        ),
        (Type::Custom(a), Type::Custom(b)) => str_eq(a, b),
        _ => false,
    }
}

/// Tuple-to-tuple comparison; see [`tuple_assignable`].
fn is_tuple_assignable(a: &Tuple, b: &Tuple) -> (r: bool)
    ensures
        r == tuple_assignable(a@, b@),
    decreases *a, *b, 2int,
{
    proof {
        lemma_tys_view(a.items@);
        lemma_tys_view(b.items@);
    }
    if a.items.len() < b.items.len() {
        proof {
            assert(a@.items.len() < b@.items.len());
            assert(!tuple_assignable(a@, b@));
        }
        return false;
    }
    let mut k: usize = 0;
    while k < b.items.len()
        invariant
            k <= b.items@.len(),
            b.items@.len() <= a.items@.len(),
            forall|m: int|
                0 <= m < k ==> assignable(
                    #[trigger] tys_view(a.items@)[m],
                    tys_view(b.items@)[m],
                ),
        decreases b.items@.len() - k,
    {
        proof {
            lemma_tys_view(a.items@);
            lemma_tys_view(b.items@);
            assert(tys_view(a.items@)[k as int] == a.items@[k as int]@);
            assert(tys_view(b.items@)[k as int] == b.items@[k as int]@);
        }
        if !is_assignable(&a.items[k], &b.items[k]) {
            proof {
                assert(a@.items == tys_view(a.items@));
                assert(b@.items == tys_view(b.items@));
                assert(!assignable(a@.items[k as int], b@.items[k as int]));
                assert(!tuple_assignable(a@, b@));
            }
            return false;
        }
        k += 1;
    }
    match &b.rest {
        Option::Some(r) => {
            let mut m: usize = b.items.len();
            while m < a.items.len()
                invariant
                    b.items@.len() <= m <= a.items@.len(),
                    b@.rest matches Option::Some(br) && *br == r@,
                    forall|n: int|
                        b.items@.len() <= n < m ==> assignable(
                            #[trigger] tys_view(a.items@)[n],
                            r@,
                        ),
                decreases a.items@.len() - m,
            {
                proof {
                    lemma_tys_view(a.items@);
                    assert(tys_view(a.items@)[m as int] == a.items@[m as int]@);
                }
                if !is_assignable(&a.items[m], r) {
                    proof {
                        lemma_tys_view(b.items@);
                        assert(a@.items == tys_view(a.items@));
                        assert(b@.items.len() == b.items@.len());
                        assert(!assignable(a@.items[m as int], r@));
                        assert(!tuple_assignable(a@, b@));
                    }
                    return false;
                }
                m += 1;
            }
            match &a.rest {
                Option::Some(rs) => is_assignable(rs, r),
                Option::None => true,
            }
        },
        Option::None => a.items.len() == b.items.len(),
    }
}

/// Tuple-to-array comparison; see [`tuple_to_array`].
fn is_tuple_to_array(a: &Tuple, b: &Array) -> (r: bool)
    ensures
        r == tuple_to_array(a@, b@),
    decreases *a, *b, 2int,
{
    let mut k: usize = 0;
    while k < a.items.len()
        invariant
            k <= a.items@.len(),
            forall|m: int|
                0 <= m < k ==> assignable(#[trigger] tys_view(a.items@)[m], b.item@),
        decreases a.items@.len() - k,
    {
        proof {
            lemma_tys_view(a.items@);
            assert(tys_view(a.items@)[k as int] == a.items@[k as int]@);
        }
        if !is_assignable(&a.items[k], &b.item) {
            proof {
                assert(a@.items == tys_view(a.items@));
                assert(*b@.item == b.item@);
                assert(a@.items.len() == a.items@.len());
                assert(!assignable(a@.items[k as int], *b@.item));
                assert(!tuple_to_array(a@, b@));
            }
            return false;
        }
        k += 1;
    }
    proof {
        lemma_tys_view(a.items@);
    }
    match &a.rest {
        Option::Some(rs) => is_assignable(rs, &b.item),
        Option::None => true,
    }
}

/// Object-to-object comparison; see [`object_assignable`].
fn is_object_assignable(a: &Object, b: &Object) -> (r: bool)
    ensures
        r == object_assignable(a@, b@),
    decreases *a, *b, 3int,
{
    let mut j: usize = 0;
    while j < b.properties.len()
        invariant
            j <= b.properties@.len(),
            forall|k: int|
                0 <= k < j ==> prop_satisfied(
                    props_view(a.properties@),
                    #[trigger] props_view(b.properties@)[k],
                ),
        decreases b.properties@.len() - j,
    {
        proof {
            lemma_props_view(b.properties@);
            assert(props_view(b.properties@)[j as int] == prop_view(b.properties@[j as int]));
        }
        if !is_prop_satisfied(&a.properties, &b.properties[j]) {
            proof {
                assert(a@.properties == props_view(a.properties@));
                assert(b@.properties == props_view(b.properties@));
                assert(!prop_satisfied(a@.properties, b@.properties[j as int]));
                assert(!object_assignable(a@, b@));
            }
            return false;
        }
        j += 1;
    }
    proof {
        lemma_props_view(b.properties@);
    }
    true
}

/// One target property against the source property list; see
/// [`prop_satisfied`].
fn is_prop_satisfied(ps: &Vec<(String, Property)>, q: &(String, Property)) -> (r: bool)
    ensures
        r == prop_satisfied(props_view(ps@), prop_view(*q)),
    decreases *ps, *q, 2int,
{
    if q.1.optional {
        let mut i: usize = 0;
        while i < ps.len()
            invariant
                i <= ps@.len(),
                q.1.optional,
                forall|k: int|
                    0 <= k < i && (#[trigger] props_view(ps@)[k]).name == q.0@ ==> assignable(
                        props_view(ps@)[k].ty,
                        q.1.ty@,
                    ),
            decreases ps@.len() - i,
        {
            proof {
                lemma_props_view(ps@);
                assert(props_view(ps@)[i as int] == prop_view(ps@[i as int]));
            }
            if str_eq(&ps[i].0, &q.0) {
                if !is_assignable(&ps[i].1.ty, &q.1.ty) {
                    return false;
                }
            }
            i += 1;
        }
        proof {
            lemma_props_view(ps@);
        }
        true
    } else {
        let mut i: usize = 0;
        while i < ps.len()
            invariant
                i <= ps@.len(),
                !q.1.optional,
                forall|k: int|
                    0 <= k < i ==> !((#[trigger] props_view(ps@)[k]).name == q.0@ && assignable(
                        props_view(ps@)[k].ty,
                        q.1.ty@,
                    )),
            decreases ps@.len() - i,
        {
            proof {
                lemma_props_view(ps@);
                assert(props_view(ps@)[i as int] == prop_view(ps@[i as int]));
            }
            if str_eq(&ps[i].0, &q.0) {
                if is_assignable(&ps[i].1.ty, &q.1.ty) {
                    return true;
                }
            }
            i += 1;
        }
        proof {
            lemma_props_view(ps@);
        }
        false
    }
}

/// Object-to-record comparison; see [`object_to_record`].
fn is_object_to_record(a: &Object, b: &Record) -> (r: bool)
    ensures
        r == object_to_record(a@, b@),
    decreases *a, *b, 2int,
{
    if !is_key_accepting_string(&b.key) {
        return false;
    }
    let mut i: usize = 0;
    while i < a.properties.len()
        invariant
            i <= a.properties@.len(),
            forall|k: int|
                0 <= k < i ==> assignable(
                    (#[trigger] props_view(a.properties@)[k]).ty,
                    b.value@,
                ),
        decreases a.properties@.len() - i,
    {
        proof {
            lemma_props_view(a.properties@);
            assert(props_view(a.properties@)[i as int] == prop_view(a.properties@[i as int]));
        }
        if !is_assignable(&a.properties[i].1.ty, &b.value) {
            return false;
        }
        i += 1;
    }
    proof {
        lemma_props_view(a.properties@);
    }
    true
}

/// Record-to-object comparison; see [`record_to_object`].
fn is_record_to_object(b: &Object) -> (r: bool)
    ensures
        r == record_to_object(b@),
{
    let mut j: usize = 0;
    while j < b.properties.len()
        invariant
            j <= b.properties@.len(),
            forall|k: int| 0 <= k < j ==> (#[trigger] props_view(b.properties@)[k]).optional,
        decreases b.properties@.len() - j,
    {
        proof {
            lemma_props_view(b.properties@);
            assert(props_view(b.properties@)[j as int] == prop_view(b.properties@[j as int]));
        }
        if !b.properties[j].1.optional {
            return false;
        }
        j += 1;
    }
    proof {
        lemma_props_view(b.properties@);
    }
    true
}

/// Whether a record key type accepts string keys; see
/// [`key_accepts_string`].
fn is_key_accepting_string(k: &Type) -> (r: bool)
    ensures
        r == key_accepts_string(k@),
    decreases *k, 1int,
{
    match k {
        Type::String => true,
        Type::Or(ms) => {
            let r = any_key_accepts(ms);
            proof {
                assert(k@ == TypeV::Or(tys_view(ms@)));
                assert(r == key_accepts_string(k@));
            }
            r
        },
        Type::And(ms) => {
            let r = all_keys_accept(ms);
            proof {
                assert(k@ == TypeV::And(tys_view(ms@)));
                assert(r == key_accepts_string(k@));
            }
            r
        },
        _ => {
            proof {
                assert(!key_accepts_string(k@));
            }
            false
        },
    }
}

/// Whether some member of `ms` accepts string keys.
fn any_key_accepts(ms: &Vec<Type>) -> (r: bool)
    ensures
        r == some_key_accepts(tys_view(ms@)),
    decreases *ms, 0int,
{
    let mut i: usize = 0;
    while i < ms.len()
        invariant
            i <= ms@.len(),
            forall|j: int| 0 <= j < i ==> !key_accepts_string(#[trigger] tys_view(ms@)[j]),
        decreases ms@.len() - i,
    {
        proof {
            lemma_tys_view(ms@);
            assert(tys_view(ms@)[i as int] == ms@[i as int]@);
        }
        if is_key_accepting_string(&ms[i]) {
            return true;
        }
        i += 1;
    }
    proof {
        lemma_tys_view(ms@);
    }
    false
}

/// Whether every member of `ms` accepts string keys.
fn all_keys_accept(ms: &Vec<Type>) -> (r: bool)
    ensures
        r == all_keys_accept_string(tys_view(ms@)),
    decreases *ms, 0int,
{
    let mut i: usize = 0;
    while i < ms.len()
        invariant
            i <= ms@.len(),
            forall|j: int| 0 <= j < i ==> key_accepts_string(#[trigger] tys_view(ms@)[j]),
        decreases ms@.len() - i,
    {
        proof {
            lemma_tys_view(ms@);
            assert(tys_view(ms@)[i as int] == ms@[i as int]@);
        }
        if !is_key_accepting_string(&ms[i]) {
            return false;
        }
        i += 1;
    }
    proof {
        lemma_tys_view(ms@);
    }
    true
}

} // verus!
