//! The type algebra: a closed, recursive variant set describing the shapes
//! that serialized values can take, together with its mathematical model.
//!
//! Each executable type has a spec-level mirror (`TypeV`, `LiteralV`, ...)
//! built from `Seq` and `Seq<char>`; the `View` impls connect the two. All
//! contracts of the assignability engine and the renderer are stated over the
//! mirrors.

use vstd::prelude::*;

verus! {

/// A structural type: the closed variant set of the algebra.
///
/// Values are immutable and acyclic; the algebra cannot express
/// self-referential types, so every value is finite and recursion over it
/// terminates structurally.
#[derive(Debug, PartialEq)]
pub enum Type {
    /// The primitive string type.
    String,
    /// The primitive number type.
    Number,
    /// The primitive boolean type.
    Boolean,
    /// The null sentinel.
    Null,
    /// The undefined sentinel.
    Undefined,
    /// The bottom type: no value conforms to it.
    Never,
    /// A singleton type inhabited by one concrete value.
    Literal(Literal),
    /// A fixed-arity positional type with an optional variadic tail.
    Tuple(Tuple),
    /// A homogeneous ordered collection.
    Array(Array),
    /// A structural record with named properties.
    Object(Object),
    /// An open-ended index-signature mapping.
    Record(Record),
    /// An intersection: a value conforms if it conforms to every member.
    And(Vec<Type>),
    /// A union: a value conforms if it conforms to at least one member.
    Or(Vec<Type>),
    /// An opaque, unverified type expression, rendered verbatim and
    /// assignable only to an identical `Custom`.
    Custom(String),
}

/// A concrete literal value.
///
/// A numeric literal carries its canonical decimal rendering as text (no
/// trailing zeros, integral values without a decimal point); callers that
/// start from machine floating-point values produce that text before
/// entering the algebra. Literal equality is equality of that text.
#[derive(Debug, PartialEq)]
pub enum Literal {
    /// A string literal.
    String(String),
    /// A numeric literal, as its canonical decimal text.
    Number(String),
    /// A boolean literal.
    Boolean(bool),
}

/// A fixed-arity positional type; `rest`, when present, types every element
/// past the fixed items.
#[derive(Debug, PartialEq)]
pub struct Tuple {
    pub items: Vec<Type>,
    pub rest: Option<Box<Type>>,
}

/// A homogeneous ordered collection of `item` elements.
#[derive(Debug, PartialEq)]
pub struct Array {
    pub item: Box<Type>,
}

/// A structural record: named properties in insertion order.
///
/// Property names are unique in a well-formed object (see [`wf`]); the order
/// only affects rendering, never assignability.
#[derive(Debug, PartialEq)]
pub struct Object {
    pub properties: Vec<(String, Property)>,
}

/// An index-signature mapping from `key` to `value`.
#[derive(Debug, PartialEq)]
pub struct Record {
    pub optional: bool,
    pub readonly: bool,
    pub key: Box<Type>,
    pub value: Box<Type>,
}

/// One named property of an [`Object`]: `optional` means the key may be
/// absent; `readonly` is informational for rendering only.
#[derive(Debug, PartialEq)]
pub struct Property {
    pub ty: Type,
    pub optional: bool,
    pub readonly: bool,
}

/// Spec-level mirror of [`Type`].
#[verifier::ext_equal]
pub enum TypeV {
    String,
    Number,
    Boolean,
    Null,
    Undefined,
    Never,
    Literal(LiteralV),
    Tuple(TupleV),
    Array(ArrayV),
    Object(ObjectV),
    Record(RecordV),
    And(Seq<TypeV>),
    Or(Seq<TypeV>),
    Custom(Seq<char>),
}

/// Spec-level mirror of [`Literal`].
#[verifier::ext_equal]
pub enum LiteralV {
    String(Seq<char>),
    Number(Seq<char>),
    Boolean(bool),
}

/// Spec-level mirror of [`Tuple`].
#[verifier::ext_equal]
pub struct TupleV {
    pub items: Seq<TypeV>,
    pub rest: Option<Box<TypeV>>,
}

/// Spec-level mirror of [`Array`].
#[verifier::ext_equal]
pub struct ArrayV {
    pub item: Box<TypeV>,
}

/// Spec-level mirror of [`Object`].
#[verifier::ext_equal]
pub struct ObjectV {
    pub properties: Seq<PropertyV>,
}

/// Spec-level mirror of one named property: the entry name together with the
/// mirror of [`Property`].
#[verifier::ext_equal]
pub struct PropertyV {
    pub name: Seq<char>,
    pub ty: TypeV,
    pub optional: bool,
    pub readonly: bool,
}

/// Spec-level mirror of [`Record`].
#[verifier::ext_equal]
pub struct RecordV {
    pub optional: bool,
    pub readonly: bool,
    pub key: Box<TypeV>,
    pub value: Box<TypeV>,
}

/// The model of a [`Type`] value.
pub open spec fn ty_view(t: Type) -> TypeV
    decreases t,
{
    match t {
        Type::String => TypeV::String,
        Type::Number => TypeV::Number,
        Type::Boolean => TypeV::Boolean,
        Type::Null => TypeV::Null,
        Type::Undefined => TypeV::Undefined,
        Type::Never => TypeV::Never,
        Type::Literal(l) => TypeV::Literal(lit_view(l)),
        Type::Tuple(tp) => TypeV::Tuple(tuple_view(tp)),
        Type::Array(a) => TypeV::Array(array_view(a)),
        Type::Object(o) => TypeV::Object(object_view(o)),
        Type::Record(r) => TypeV::Record(record_view(r)),
        Type::And(ms) => TypeV::And(tys_view(ms@)),
        Type::Or(ms) => TypeV::Or(tys_view(ms@)),
        Type::Custom(s) => TypeV::Custom(s@),
    }
}

/// The model of a [`Tuple`] value.
pub open spec fn tuple_view(tp: Tuple) -> TupleV
    decreases tp,
{
    TupleV {
        items: tys_view(tp.items@),
        rest: match tp.rest {
            Option::Some(b) => Option::Some(Box::new(ty_view(*b))),
            Option::None => Option::None,
        },
    }
}

/// The model of an [`Array`] value.
pub open spec fn array_view(a: Array) -> ArrayV
    decreases a,
{
    ArrayV { item: Box::new(ty_view(*a.item)) }
}

/// The model of an [`Object`] value.
pub open spec fn object_view(o: Object) -> ObjectV
    decreases o,
{
    ObjectV { properties: props_view(o.properties@) }
}

/// The model of a [`Record`] value.
pub open spec fn record_view(r: Record) -> RecordV
    decreases r,
{
    RecordV {
        optional: r.optional,
        readonly: r.readonly,
        key: Box::new(ty_view(*r.key)),
        value: Box::new(ty_view(*r.value)),
    }
}

/// Pointwise model of a sequence of types.
pub open spec fn tys_view(ts: Seq<Type>) -> Seq<TypeV>
    decreases ts,
{
    if ts.len() == 0 {
        Seq::empty()
    } else {
        tys_view(ts.drop_last()).push(ty_view(ts.last()))
    }
}

/// `tys_view` is the pointwise image of `ty_view`.
pub broadcast proof fn lemma_tys_view(ts: Seq<Type>)
    ensures
        (#[trigger] tys_view(ts)).len() == ts.len(),
        forall|i: int| 0 <= i < ts.len() ==> tys_view(ts)[i] == ty_view(ts[i]),
    decreases ts.len(),
{
    if ts.len() > 0 {
        lemma_tys_view(ts.drop_last());
    }
}

/// The model of one named property: the entry name together with the mirror
/// of its [`Property`].
pub open spec fn prop_view(p: (String, Property)) -> PropertyV
    decreases p,
{
    PropertyV {
        name: p.0@,
        ty: ty_view(p.1.ty),
        optional: p.1.optional,
        readonly: p.1.readonly,
    }
}

/// Pointwise model of a property list.
pub open spec fn props_view(ps: Seq<(String, Property)>) -> Seq<PropertyV>
    decreases ps,
{
    if ps.len() == 0 {
        Seq::empty()
    } else {
        props_view(ps.drop_last()).push(prop_view(ps.last()))
    }
}

/// `props_view` is the pointwise image of `prop_view`.
pub broadcast proof fn lemma_props_view(ps: Seq<(String, Property)>)
    ensures
        (#[trigger] props_view(ps)).len() == ps.len(),
        forall|i: int| 0 <= i < ps.len() ==> props_view(ps)[i] == prop_view(ps[i]),
    decreases ps.len(),
{
    if ps.len() > 0 {
        lemma_props_view(ps.drop_last());
    }
}

/// The model of a [`Literal`] value.
pub open spec fn lit_view(l: Literal) -> LiteralV {
    match l {
        Literal::String(s) => LiteralV::String(s@),
        Literal::Number(s) => LiteralV::Number(s@),
        Literal::Boolean(b) => LiteralV::Boolean(b),
    }
}

impl View for Type {
    type V = TypeV;

    open spec fn view(&self) -> TypeV {
        ty_view(*self)
    }
}

impl View for Literal {
    type V = LiteralV;

    open spec fn view(&self) -> LiteralV {
        lit_view(*self)
    }
}

impl View for Tuple {
    type V = TupleV;

    open spec fn view(&self) -> TupleV {
        tuple_view(*self)
    }
}

impl View for Array {
    type V = ArrayV;

    open spec fn view(&self) -> ArrayV {
        array_view(*self)
    }
}

impl View for Object {
    type V = ObjectV;

    open spec fn view(&self) -> ObjectV {
        object_view(*self)
    }
}

impl View for Record {
    type V = RecordV;

    open spec fn view(&self) -> RecordV {
        record_view(*self)
    }
}

/// Well-formedness: in every `Object` of the type, property names are
/// pairwise distinct. Construction cannot enforce this (the algebra is plain
/// data), so it is stated as the validity hypothesis of the laws that need
/// it.
pub open spec fn wf(t: TypeV) -> bool
    decreases t,
{
    match t {
        TypeV::Literal(_) => true,
        TypeV::Tuple(tp) => wf_all(tp.items) && match tp.rest {
            Option::Some(b) => wf(*b),
            Option::None => true,
        },
        TypeV::Array(a) => wf(*a.item),
        TypeV::Object(o) => distinct_names(o.properties) && wf_props(o.properties),
        TypeV::Record(r) => wf(*r.key) && wf(*r.value),
        TypeV::And(ms) => wf_all(ms),
        TypeV::Or(ms) => wf_all(ms),
        _ => true,
    }
}

/// Every member of the sequence is well-formed.
pub open spec fn wf_all(ts: Seq<TypeV>) -> bool
    decreases ts,
{
    forall|i: int| 0 <= i < ts.len() ==> wf(#[trigger] ts[i])
}

/// Every property type of the list is well-formed.
pub open spec fn wf_props(ps: Seq<PropertyV>) -> bool
    decreases ps,
{
    forall|i: int| 0 <= i < ps.len() ==> wf(#[trigger] ps[i].ty)
}

/// Property names are pairwise distinct.
pub open spec fn distinct_names(ps: Seq<PropertyV>) -> bool {
    forall|i: int, j: int| 0 <= i < j < ps.len() ==> ps[i].name != ps[j].name
}

/// Decides well-formedness: returns exactly what [`wf`] says of the model.
/// Useful as a construction-time check, since the algebra itself cannot
/// enforce unique property names.
pub fn is_wf(t: &Type) -> (r: bool)
    ensures
        r == wf(t@),
    decreases *t, 1int,
{
    match t {
        Type::Tuple(tp) => {
            let items_ok = all_wf(&tp.items);
            let rest_ok = match &tp.rest {
                Option::Some(b) => is_wf(b),
                Option::None => true,
            };
            proof {
                assert(t@ == TypeV::Tuple(tuple_view(*tp)));
            }
            items_ok && rest_ok
        },
        Type::Array(a) => is_wf(&a.item),
        Type::Object(o) => {
            let r = names_distinct(&o.properties) && props_wf(&o.properties);
            proof {
                assert(t@ == TypeV::Object(object_view(*o)));
            }
            r
        },
        Type::Record(rec) => is_wf(&rec.key) && is_wf(&rec.value),
        Type::And(ms) => {
            let r = all_wf(ms);
            proof {
                assert(t@ == TypeV::And(tys_view(ms@)));
            }
            r
        },
        Type::Or(ms) => {
            let r = all_wf(ms);
            proof {
                assert(t@ == TypeV::Or(tys_view(ms@)));
            }
            r
        },
        _ => true,
    }
}

/// Whether every member of `ms` is well-formed.
fn all_wf(ms: &Vec<Type>) -> (r: bool)
    ensures
        r == wf_all(tys_view(ms@)),
    decreases *ms, 0int,
{
    let mut i: usize = 0;
    while i < ms.len()
        invariant
            i <= ms@.len(),
            forall|k: int| 0 <= k < i ==> wf(#[trigger] tys_view(ms@)[k]),
        decreases ms@.len() - i,
    {
        proof {
            lemma_tys_view(ms@);
            assert(tys_view(ms@)[i as int] == ms@[i as int]@);
        }
        if !is_wf(&ms[i]) {
            return false;
        }
        i += 1;
    }
    proof {
        lemma_tys_view(ms@);
    }
    true
}

/// Whether every property type of `ps` is well-formed.
fn props_wf(ps: &Vec<(String, Property)>) -> (r: bool)
    ensures
        r == wf_props(props_view(ps@)),
    decreases *ps, 0int,
{
    let mut i: usize = 0;
    while i < ps.len()
        invariant
            i <= ps@.len(),
            forall|k: int| 0 <= k < i ==> wf((#[trigger] props_view(ps@)[k]).ty),
        decreases ps@.len() - i,
    {
        proof {
            lemma_props_view(ps@);
            assert(props_view(ps@)[i as int] == prop_view(ps@[i as int]));
        }
        if !is_wf(&ps[i].1.ty) {
            return false;
        }
        i += 1;
    }
    proof {
        lemma_props_view(ps@);
    }
    true
}

/// Whether the property names of `ps` are pairwise distinct.
fn names_distinct(ps: &Vec<(String, Property)>) -> (r: bool)
    ensures
        r == distinct_names(props_view(ps@)),
{
    let n = ps.len();
    let mut i: usize = 0;
    while i < n
        invariant
            i <= n,
            n == ps@.len(),
            forall|a: int, b: int|
                0 <= a < b < ps@.len() && a < i ==> (#[trigger] props_view(ps@)[a]).name != (
                #[trigger] props_view(ps@)[b]).name,
        decreases n - i,
    {
        let mut j: usize = i + 1;
        while j < n
            invariant
                i < j <= n,
                i < n,
                n == ps@.len(),
                forall|b: int|
                    i < b < j ==> (#[trigger] props_view(ps@)[b]).name != props_view(
                        ps@,
                    )[i as int].name,
            decreases n - j,
        {
            proof {
                lemma_props_view(ps@);
                assert(props_view(ps@)[i as int] == prop_view(ps@[i as int]));
                assert(props_view(ps@)[j as int] == prop_view(ps@[j as int]));
            }
            if ps[i].0.eq(&ps[j].0) {
                proof {
                    assert(!distinct_names(props_view(ps@)));
                }
                return false;
            }
            j += 1;
        }
        i += 1;
    }
    proof {
        lemma_props_view(ps@);
    }
    true
}


} // verus!
