//! Deep copies of type-algebra values, each proved to have the same model
//! as its original.

use vstd::prelude::*;

use crate::ty::Type;
use crate::ty::Literal;
use crate::ty::Tuple;
use crate::ty::Array;
use crate::ty::Object;
use crate::ty::Record;
use crate::ty::Property;
use crate::ty::tys_view;
use crate::ty::props_view;
use crate::ty::prop_view;
use crate::ty::lemma_tys_view;
use crate::ty::lemma_props_view;

verus! {

impl Clone for Type {
    /// A deep copy with the same model.
    fn clone(&self) -> (r: Self)
        ensures
            r@ == self@,
    {
        clone_type(self)
    }
}

impl Clone for Literal {
    /// A copy with the same model.
    fn clone(&self) -> (r: Self)
        ensures
            r@ == self@,
    {
        match self {
            Literal::String(s) => Literal::String(s.clone()),
            Literal::Number(s) => Literal::Number(s.clone()),
            Literal::Boolean(b) => Literal::Boolean(*b),
        }
    }
}

impl Clone for Tuple {
    /// A deep copy with the same model.
    fn clone(&self) -> (r: Self)
        ensures
            r@ == self@,
    {
        clone_tuple(self)
    }
}

impl Clone for Array {
    /// A deep copy with the same model.
    fn clone(&self) -> (r: Self)
        ensures
            r@ == self@,
    {
        let r = Array { item: Box::new(clone_type(&self.item)) };
        proof {
            assert(r@ =~~= self@);
        }
        r
    }
}

impl Clone for Object {
    /// A deep copy with the same model.
    fn clone(&self) -> (r: Self)
        ensures
            r@ == self@,
    {
        let r = Object { properties: clone_props(&self.properties) };
        proof {
            assert(r@ =~~= self@);
        }
        r
    }
}

impl Clone for Record {
    /// A deep copy with the same model.
    fn clone(&self) -> (r: Self)
        ensures
            r@ == self@,
    {
        let r = Record {
            optional: self.optional,
            readonly: self.readonly,
            key: Box::new(clone_type(&self.key)),
            value: Box::new(clone_type(&self.value)),
        };
        proof {
            assert(r@ =~~= self@);
        }
        r
    }
}

impl Clone for Property {
    /// A deep copy whose type has the same model and whose flags are equal.
    fn clone(&self) -> (r: Self)
        ensures
            r.ty@ == self.ty@,
            r.optional == self.optional,
            r.readonly == self.readonly,
    {
        Property {
            ty: clone_type(&self.ty),
            optional: self.optional,
            readonly: self.readonly,
        }
    }
}

/// A deep copy of a type value, with the same model.
fn clone_type(t: &Type) -> (r: Type)
    ensures
        r@ == t@,
    decreases *t, 1int,
{
    match t {
        Type::String => Type::String,
        Type::Number => Type::Number,
        Type::Boolean => Type::Boolean,
        Type::Null => Type::Null,
        Type::Undefined => Type::Undefined,
        Type::Never => Type::Never,
        Type::Literal(l) => Type::Literal(
            match l {
                Literal::String(s) => Literal::String(s.clone()),
                Literal::Number(s) => Literal::Number(s.clone()),
                Literal::Boolean(b) => Literal::Boolean(*b),
            },
        ),
        Type::Tuple(tp) => {
            let r = Type::Tuple(clone_tuple(tp));
            proof {
                assert(r@ =~~= t@);
            }
            r
        },
        Type::Array(a) => {
            let r = Type::Array(Array { item: Box::new(clone_type(&a.item)) });
            proof {
                assert(r@ =~~= t@);
            }
            r
        },
        Type::Object(ob) => {
            let r = Type::Object(Object { properties: clone_props(&ob.properties) });
            proof {
                assert(r@ =~~= t@);
            }
            r
        },
        Type::Record(rec) => {
            let r = Type::Record(
                Record {
                    optional: rec.optional,
                    readonly: rec.readonly,
                    key: Box::new(clone_type(&rec.key)),
                    value: Box::new(clone_type(&rec.value)),
                },
            );
            proof {
                assert(r@ =~~= t@);
            }
            r
        },
        Type::And(ms) => {
            let r = Type::And(clone_members(ms));
            proof {
                assert(r@ =~~= t@);
            }
            r
        },
        Type::Or(ms) => {
            let r = Type::Or(clone_members(ms));
            proof {
                assert(r@ =~~= t@);
            }
            r
        },
        Type::Custom(s) => Type::Custom(s.clone()),
    }
}

/// A deep copy of a tuple shape, with the same model.
fn clone_tuple(tp: &Tuple) -> (r: Tuple)
    ensures
        r@ == tp@,
    decreases *tp, 0int,
{
    let r = Tuple {
        items: clone_members(&tp.items),
        rest: match &tp.rest {
            Option::Some(b) => Option::Some(Box::new(clone_type(b))),
            Option::None => Option::None,
        },
    };
    proof {
        assert(r@ =~~= tp@);
    }
    r
}

/// A deep copy of a member list, with the same models pointwise.
fn clone_members(ms: &Vec<Type>) -> (r: Vec<Type>)
    ensures
        tys_view(r@) == tys_view(ms@),
    decreases *ms, 0int,
{
    let mut out: Vec<Type> = Vec::new();
    let n = ms.len();
    let mut i: usize = 0;
    while i < n
        invariant
            i <= n,
            n == ms@.len(),
            out@.len() == i,
            forall|k: int| 0 <= k < i ==> (#[trigger] out@[k])@ == ms@[k]@,
        decreases n - i,
    {
        out.push(clone_type(&ms[i]));
        i += 1;
    }
    proof {
        lemma_tys_view(out@);
        lemma_tys_view(ms@);
        assert(tys_view(out@) =~= tys_view(ms@));
    }
    out
}

/// A deep copy of a property list, with the same models pointwise.
fn clone_props(ps: &Vec<(String, Property)>) -> (r: Vec<(String, Property)>)
    ensures
        props_view(r@) == props_view(ps@),
    decreases *ps, 0int,
{
    let mut out: Vec<(String, Property)> = Vec::new();
    let n = ps.len();
    let mut i: usize = 0;
    while i < n
        invariant
            i <= n,
            n == ps@.len(),
            out@.len() == i,
            forall|k: int| 0 <= k < i ==> prop_view(#[trigger] out@[k]) == prop_view(ps@[k]),
        decreases n - i,
    {
        let entry = &ps[i];
        out.push(
            (
                entry.0.clone(),
                Property {
                    ty: clone_type(&entry.1.ty),
                    optional: entry.1.optional,
                    readonly: entry.1.readonly,
                },
            ),
        );
        proof {
            assert(prop_view(out@[i as int]) =~~= prop_view(ps@[i as int]));
        }
        i += 1;
    }
    proof {
        lemma_props_view(out@);
        lemma_props_view(ps@);
        assert(props_view(out@) =~= props_view(ps@));
    }
    out
}

} // verus!
