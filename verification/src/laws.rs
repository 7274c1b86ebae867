//! Laws of the assignability relation.
//!
//! Each public proof function states one property of [`assignable`] that
//! holds of the whole algebra, and proves it by structural induction.

use vstd::prelude::*;

use crate::ty::TypeV;
use crate::ty::wf;
use crate::ty::wf_all;
use crate::ty::wf_props;
use crate::ty::distinct_names;
use crate::ty::ObjectV;
use crate::ty::PropertyV;
use crate::assignable::assignable;
use crate::assignable::all_members_assignable;
use crate::assignable::some_member_assignable;
use crate::assignable::assignable_to_every;
use crate::assignable::assignable_to_some;
use crate::assignable::object_assignable;
use crate::assignable::base_assignable;
use crate::assignable::tuple_assignable;
use crate::assignable::prop_satisfied;
use crate::assignable::key_accepts_string;
use crate::assignable::some_key_accepts;
use crate::assignable::all_keys_accept_string;

verus! {

/// Union introduction: a type assignable to one member of a union is
/// assignable to the union.
pub proof fn lemma_union_intro(s: TypeV, os: Seq<TypeV>, j: int)
    requires
        0 <= j < os.len(),
        assignable(s, os[j]),
    ensures
        assignable(s, TypeV::Or(os)),
    decreases s,
{
    match s {
        TypeV::Never => {
        },
        TypeV::Or(ms) => {
            assert forall|i: int| 0 <= i < ms.len() implies assignable(
                #[trigger] ms[i],
                TypeV::Or(os),
            ) by {
                assert(assignable(ms[i], os[j]));
                lemma_union_intro(ms[i], os, j);
            }
            assert(all_members_assignable(ms, TypeV::Or(os)));
        },
        _ => {
            assert(assignable_to_some(s, os));
        },
    }
}

/// Intersection elimination on the target: a type assignable to an
/// intersection is assignable to each of its members.
pub proof fn lemma_target_and_elim(s: TypeV, os: Seq<TypeV>, j: int)
    requires
        0 <= j < os.len(),
        assignable(s, TypeV::And(os)),
    ensures
        assignable(s, os[j]),
    decreases s,
{
    match s {
        TypeV::Never => {
        },
        TypeV::Or(ms) => {
            assert(all_members_assignable(ms, TypeV::And(os)));
            assert forall|i: int| 0 <= i < ms.len() implies assignable(
                #[trigger] ms[i],
                os[j],
            ) by {
                lemma_target_and_elim(ms[i], os, j);
            }
            assert(all_members_assignable(ms, os[j]));
        },
        _ => {
            assert(assignable_to_every(s, os));
        },
    }
}

/// Intersection elimination on the source: an intersection with one member
/// assignable to the target is itself assignable to the target.
pub proof fn lemma_and_elim(ms: Seq<TypeV>, i: int, t: TypeV)
    requires
        0 <= i < ms.len(),
        assignable(ms[i], t),
    ensures
        assignable(TypeV::And(ms), t),
    decreases t,
{
    match t {
        TypeV::Or(os) => {
            assert(some_member_assignable(ms, t));
        },
        TypeV::And(os) => {
            assert forall|j: int| 0 <= j < os.len() implies assignable(
                TypeV::And(ms),
                #[trigger] os[j],
            ) by {
                lemma_target_and_elim(ms[i], os, j);
                lemma_and_elim(ms, i, os[j]);
            }
            assert(assignable_to_every(TypeV::And(ms), os));
        },
        _ => {
            assert(some_member_assignable(ms, t));
        },
    }
}

/// Reflexivity: every well-formed type is assignable to itself.
///
/// Well-formedness (unique property names in every object) is needed: an
/// object carrying two properties of one name but incompatible types fails
/// the optional-property check against itself.
pub proof fn lemma_reflexive(t: TypeV)
    requires
        wf(t),
    ensures
        assignable(t, t),
    decreases t,
{
    match t {
        TypeV::Literal(_) => {
        },
        TypeV::Tuple(tp) => {
            assert(wf_all(tp.items));
            assert forall|k: int| 0 <= k < tp.items.len() implies assignable(
                #[trigger] tp.items[k],
                tp.items[k],
            ) by {
                assert(wf(tp.items[k]));
                lemma_reflexive(tp.items[k]);
            }
            match tp.rest {
                Option::Some(b) => {
                    lemma_reflexive(*b);
                },
                Option::None => {
                },
            }
            assert(tuple_assignable(tp, tp));
        },
        TypeV::Array(a) => {
            lemma_reflexive(*a.item);
            assert(base_assignable(t, t));
        },
        TypeV::Object(o) => {
            let ps = o.properties;
            assert(distinct_names(ps));
            assert(wf_props(ps));
            assert forall|j: int| 0 <= j < ps.len() implies prop_satisfied(
                ps,
                #[trigger] ps[j],
            ) by {
                assert(wf(ps[j].ty));
                lemma_reflexive(ps[j].ty);
                if ps[j].optional {
                    assert forall|i: int|
                        0 <= i < ps.len() && (#[trigger] ps[i]).name == ps[j].name implies assignable(
                        ps[i].ty,
                        ps[j].ty,
                    ) by {
                        if i < j {
                            assert(ps[i].name != ps[j].name);
                        } else if j < i {
                            assert(ps[j].name != ps[i].name);
                        }
                    }
                } else {
                    assert(0 <= j < ps.len() && ps[j].name == ps[j].name && assignable(
                        ps[j].ty,
                        ps[j].ty,
                    ));
                }
            }
            assert(object_assignable(o, o));
        },
        TypeV::Record(r) => {
            lemma_reflexive(*r.key);
            lemma_reflexive(*r.value);
            assert(base_assignable(t, t));
        },
        TypeV::And(ms) => {
            assert(wf_all(ms));
            assert forall|j: int| 0 <= j < ms.len() implies assignable(
                TypeV::And(ms),
                #[trigger] ms[j],
            ) by {
                assert(wf(ms[j]));
                lemma_reflexive(ms[j]);
                lemma_and_elim(ms, j, ms[j]);
            }
            assert(assignable_to_every(TypeV::And(ms), ms));
        },
        TypeV::Or(ms) => {
            assert(wf_all(ms));
            assert forall|i: int| 0 <= i < ms.len() implies assignable(
                #[trigger] ms[i],
                TypeV::Or(ms),
            ) by {
                assert(wf(ms[i]));
                lemma_reflexive(ms[i]);
                lemma_union_intro(ms[i], ms, i);
            }
            assert(all_members_assignable(ms, TypeV::Or(ms)));
        },
        _ => {
        },
    }
}

/// The bottom type: `Never` is assignable to every type.
pub proof fn lemma_never_bottom(t: TypeV)
    ensures
        assignable(TypeV::Never, t),
{
}

/// Nothing but `Never` is assignable to `Never`, among non-combinator
/// sources. (A degenerate combinator that behaves as `Never`, such as an
/// empty union, is also assignable to `Never`.)
pub proof fn lemma_only_never_to_never(t: TypeV)
    requires
        !(t is Or),
        !(t is And),
    ensures
        assignable(t, TypeV::Never) == (t is Never),
{
}

/// Union elimination: a two-member union is assignable to a target exactly
/// when both members are.
pub proof fn lemma_union_elimination(a: TypeV, b: TypeV, t: TypeV)
    ensures
        assignable(TypeV::Or(seq![a, b]), t) == (assignable(a, t) && assignable(b, t)),
{
    let ms = seq![a, b];
    assert(ms[0] == a);
    assert(ms[1] == b);
    if assignable(a, t) && assignable(b, t) {
        assert forall|i: int| 0 <= i < ms.len() implies assignable(#[trigger] ms[i], t) by {
            if i == 0 {
            } else {
                assert(ms[i] == b);
            }
        }
        assert(all_members_assignable(ms, t));
    }
    if all_members_assignable(ms, t) {
        assert(assignable(ms[0], t));
        assert(assignable(ms[1], t));
    }
}

/// Union introduction: a non-combinator source is assignable to a two-member
/// union exactly when it is assignable to one of the members.
///
/// The statement excludes union and intersection sources: a union source is
/// decided member by member against the whole target, and an intersection
/// source may reach a union target through one of its own members, so for
/// either the equivalence does not hold.
pub proof fn lemma_union_introduction(t: TypeV, a: TypeV, b: TypeV)
    requires
        !(t is Or),
        !(t is And),
    ensures
        assignable(t, TypeV::Or(seq![a, b])) == (assignable(t, a) || assignable(t, b)),
{
    let os = seq![a, b];
    assert(os[0] == a);
    assert(os[1] == b);
    if t is Never {
    } else {
        if assignable(t, a) {
            assert(assignable_to_some(t, os));
        }
        if assignable(t, b) {
            assert(assignable_to_some(t, os));
        }
        if assignable_to_some(t, os) {
            let j = choose|j: int| 0 <= j < os.len() && assignable(t, #[trigger] os[j]);
            assert(j == 0 || j == 1);
        }
    }
}

/// Width subtyping: adding to the source object a property whose name the
/// target does not mention never breaks assignability.
pub proof fn lemma_width_subtyping(ps: Seq<PropertyV>, tgt: ObjectV, extra: PropertyV)
    requires
        assignable(TypeV::Object(ObjectV { properties: ps }), TypeV::Object(tgt)),
        forall|j: int| 0 <= j < tgt.properties.len() ==> (#[trigger] tgt.properties[j]).name
            != extra.name,
    ensures
        assignable(
            TypeV::Object(ObjectV { properties: ps.push(extra) }),
            TypeV::Object(tgt),
        ),
{
    let src = ObjectV { properties: ps };
    let wide = ObjectV { properties: ps.push(extra) };
    assert(object_assignable(src, tgt));
    assert forall|j: int| 0 <= j < tgt.properties.len() implies prop_satisfied(
        wide.properties,
        #[trigger] tgt.properties[j],
    ) by {
        let q = tgt.properties[j];
        assert(prop_satisfied(ps, q));
        if q.optional {
            assert forall|i: int|
                0 <= i < wide.properties.len() && (#[trigger] wide.properties[i]).name
                    == q.name implies assignable(wide.properties[i].ty, q.ty) by {
                if i < ps.len() {
                    assert(wide.properties[i] == ps[i]);
                } else {
                    assert(wide.properties[i] == extra);
                    assert(q.name != extra.name);
                }
            }
        } else {
            let w = choose|i: int|
                0 <= i < ps.len() && (#[trigger] ps[i]).name == q.name && assignable(
                    ps[i].ty,
                    q.ty,
                );
            assert(wide.properties[w] == ps[w]);
        }
    }
    assert(object_assignable(wide, tgt));
}

/// A record key type accepts the string keys an object provides exactly
/// when `String` is assignable to it.
pub proof fn lemma_key_accepts_string_iff(k: TypeV)
    ensures
        key_accepts_string(k) == assignable(TypeV::String, k),
    decreases k,
{
    match k {
        TypeV::Or(ms) => {
            assert forall|i: int| 0 <= i < ms.len() implies key_accepts_string(#[trigger] ms[i])
                == assignable(TypeV::String, ms[i]) by {
                lemma_key_accepts_string_iff(ms[i]);
            }
            if some_key_accepts(ms) {
                let i = choose|i: int| 0 <= i < ms.len() && key_accepts_string(#[trigger] ms[i]);
                assert(assignable(TypeV::String, ms[i]));
                assert(assignable_to_some(TypeV::String, ms));
            }
            if assignable_to_some(TypeV::String, ms) {
                let i = choose|i: int|
                    0 <= i < ms.len() && assignable(TypeV::String, #[trigger] ms[i]);
                assert(key_accepts_string(ms[i]));
                assert(some_key_accepts(ms));
            }
        },
        TypeV::And(ms) => {
            assert forall|i: int| 0 <= i < ms.len() implies key_accepts_string(#[trigger] ms[i])
                == assignable(TypeV::String, ms[i]) by {
                lemma_key_accepts_string_iff(ms[i]);
            }
            if all_keys_accept_string(ms) {
                assert forall|i: int| 0 <= i < ms.len() implies assignable(
                    TypeV::String,
                    #[trigger] ms[i],
                ) by {}
                assert(assignable_to_every(TypeV::String, ms));
            }
            if assignable_to_every(TypeV::String, ms) {
                assert forall|i: int| 0 <= i < ms.len() implies key_accepts_string(
                    #[trigger] ms[i],
                ) by {}
                assert(all_keys_accept_string(ms));
            }
        },
        _ => {
        },
    }
}

} // verus!
