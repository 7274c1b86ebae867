//! The structural renderer: prints a type as a canonical textual
//! structural-type expression.
//!
//! `render_v` is the mathematical definition of the output, character by
//! character; [`render`] is the executable renderer, proved to produce
//! exactly that text. The grammar is the familiar structural-type syntax:
//! primitive keywords, quoted string literals, `[a, b, ...r[]]` tuples,
//! `t[]` arrays, `{ a: t; b?: u }` objects, `{ [key: k]: v }` index
//! signatures, and `|` / `&` combinators with precedence-correct
//! parenthesization.

use vstd::prelude::*;
use vstd::string::StringExecFns;
use vstd::string::StrSliceExecFns;

use crate::options::RenderOptions;
use crate::ty::Type;
use crate::ty::Literal;
use crate::ty::TypeV;
use crate::ty::LiteralV;
use crate::ty::tys_view;
use crate::ty::props_view;
use crate::ty::prop_view;
use crate::ty::lemma_tys_view;
use crate::ty::lemma_props_view;
use crate::ty::PropertyV;
use crate::ty::Property;

verus! {

/// The rendered text of a type.
pub open spec fn render_v(t: TypeV, o: RenderOptions) -> Seq<char>
    decreases t, 0int,
{
    match t {
        TypeV::String => "string"@,
        TypeV::Number => "number"@,
        TypeV::Boolean => "boolean"@,
        TypeV::Null => "null"@,
        TypeV::Undefined => "undefined"@,
        TypeV::Never => "never"@,
        TypeV::Literal(l) => render_literal(l),
        TypeV::Tuple(tp) => {
            let body = if tp.items.len() == 0 {
                match tp.rest {
                    Option::Some(r) => "..."@ + suffixed_item(*r, o) + "[]"@,
                    Option::None => Seq::empty(),
                }
            } else {
                match tp.rest {
                    Option::Some(r) => render_items(tp.items, o) + ", ..."@ + suffixed_item(
                        *r,
                        o,
                    ) + "[]"@,
                    Option::None => render_items(tp.items, o),
                }
            };
            "["@ + body + "]"@
        },
        TypeV::Array(a) => suffixed_item(*a.item, o) + "[]"@,
        TypeV::Object(ob) => {
            if ob.properties.len() == 0 {
                "{}"@
            } else {
                "{ "@ + render_props(ob.properties, o) + " }"@
            }
        },
        TypeV::Record(r) => {
            let ro = if o.readonly_annotations && r.readonly {
                "readonly "@
            } else {
                Seq::empty()
            };
            let opt = if r.optional {
                "?"@
            } else {
                Seq::empty()
            };
            "{ "@ + ro + "[key: "@ + render_v(*r.key, o) + "]"@ + opt + ": "@ + render_v(
                *r.value,
                o,
            ) + " }"@
        },
        TypeV::And(ms) => {
            if ms.len() == 0 {
                "unknown"@
            } else {
                render_and_members(ms, o)
            }
        },
        TypeV::Or(ms) => {
            if ms.len() == 0 {
                "never"@
            } else {
                render_or_members(ms, o)
            }
        },
        TypeV::Custom(s) => s,
    }
}

/// The rendered text of a literal: a quoted, escaped string, the canonical
/// numeric text, or a boolean keyword.
pub open spec fn render_literal(l: LiteralV) -> Seq<char> {
    match l {
        LiteralV::String(s) => quote_string(s),
        LiteralV::Number(s) => s,
        LiteralV::Boolean(b) => if b {
            "true"@
        } else {
            "false"@
        },
    }
}

/// A string literal in quotes, with its content escaped.
pub open spec fn quote_string(s: Seq<char>) -> Seq<char> {
    seq!['"'] + escape_chars(s) + seq!['"']
}

/// The escaped form of string-literal content.
pub open spec fn escape_chars(s: Seq<char>) -> Seq<char>
    decreases s.len(),
{
    if s.len() == 0 {
        Seq::empty()
    } else {
        escape_chars(s.drop_last()) + escape_char(s.last())
    }
}

/// The escaped form of one character: quote, backslash and the named control
/// characters get a backslash escape, other control characters a hex escape,
/// and everything else stands for itself.
pub open spec fn escape_char(c: char) -> Seq<char> {
    if c == '"' {
        "\\\""@
    } else if c == '\\' {
        "\\\\"@
    } else if c == '\n' {
        "\\n"@
    } else if c == '\r' {
        "\\r"@
    } else if c == '\t' {
        "\\t"@
    } else if (c as u32) < 32 {
        "\\u00"@ + hex_digit_str((c as u32) / 16) + hex_digit_str((c as u32) % 16)
    } else {
        seq![c]
    }
}

/// One lower-case hex digit, as text.
pub open spec fn hex_digit_str(n: u32) -> Seq<char>
    recommends
        n < 16,
{
    if n == 0 {
        "0"@
    } else if n == 1 {
        "1"@
    } else if n == 2 {
        "2"@
    } else if n == 3 {
        "3"@
    } else if n == 4 {
        "4"@
    } else if n == 5 {
        "5"@
    } else if n == 6 {
        "6"@
    } else if n == 7 {
        "7"@
    } else if n == 8 {
        "8"@
    } else if n == 9 {
        "9"@
    } else if n == 10 {
        "a"@
    } else if n == 11 {
        "b"@
    } else if n == 12 {
        "c"@
    } else if n == 13 {
        "d"@
    } else if n == 14 {
        "e"@
    } else {
        "f"@
    }
}

/// An array-suffixed position (the element of `t[]`, or a tuple rest):
/// combinators are parenthesized first, so the suffix binds to the whole.
pub open spec fn suffixed_item(m: TypeV, o: RenderOptions) -> Seq<char>
    decreases m, 1int,
{
    if m is Or || m is And {
        "("@ + render_v(m, o) + ")"@
    } else {
        render_v(m, o)
    }
}

/// Tuple items, comma-separated.
pub open spec fn render_items(ts: Seq<TypeV>, o: RenderOptions) -> Seq<char>
    recommends
        ts.len() >= 1,
    decreases ts, 1int,
{
    if ts.len() == 0 {
        Seq::empty()
    } else if ts.len() == 1 {
        render_v(ts[0], o)
    } else {
        render_items(ts.drop_last(), o) + ", "@ + render_v(ts.last(), o)
    }
}

/// Union members joined by `|`; a member that is itself an intersection is
/// parenthesized to keep precedence.
pub open spec fn render_or_members(ms: Seq<TypeV>, o: RenderOptions) -> Seq<char>
    recommends
        ms.len() >= 1,
    decreases ms, 2int,
{
    if ms.len() == 0 {
        Seq::empty()
    } else if ms.len() == 1 {
        or_member(ms[0], o)
    } else {
        render_or_members(ms.drop_last(), o) + " | "@ + or_member(ms.last(), o)
    }
}

/// One union member: parenthesized when it is an intersection.
pub open spec fn or_member(m: TypeV, o: RenderOptions) -> Seq<char>
    decreases m, 1int,
{
    if m is And {
        "("@ + render_v(m, o) + ")"@
    } else {
        render_v(m, o)
    }
}

/// Intersection members joined by `&`; a member that is itself a union is
/// parenthesized to keep precedence.
pub open spec fn render_and_members(ms: Seq<TypeV>, o: RenderOptions) -> Seq<char>
    recommends
        ms.len() >= 1,
    decreases ms, 2int,
{
    if ms.len() == 0 {
        Seq::empty()
    } else if ms.len() == 1 {
        and_member(ms[0], o)
    } else {
        render_and_members(ms.drop_last(), o) + " & "@ + and_member(ms.last(), o)
    }
}

/// One intersection member: parenthesized when it is a union.
pub open spec fn and_member(m: TypeV, o: RenderOptions) -> Seq<char>
    decreases m, 1int,
{
    if m is Or {
        "("@ + render_v(m, o) + ")"@
    } else {
        render_v(m, o)
    }
}

/// Object properties joined by `; `.
pub open spec fn render_props(ps: Seq<PropertyV>, o: RenderOptions) -> Seq<char>
    recommends
        ps.len() >= 1,
    decreases ps, 2int,
{
    if ps.len() == 0 {
        Seq::empty()
    } else if ps.len() == 1 {
        render_prop(ps[0], o)
    } else {
        render_props(ps.drop_last(), o) + "; "@ + render_prop(ps.last(), o)
    }
}

/// One object property: the `readonly` marker when asked for, the name
/// (quoted unless it is a plain identifier), `?` when optional, then the
/// property type.
pub open spec fn render_prop(p: PropertyV, o: RenderOptions) -> Seq<char>
    decreases p, 1int,
{
    let ro = if o.readonly_annotations && p.readonly {
        "readonly "@
    } else {
        Seq::empty()
    };
    let name = if is_identifier(p.name) {
        p.name
    } else {
        quote_string(p.name)
    };
    let opt = if p.optional {
        "?"@
    } else {
        Seq::empty()
    };
    ro + name + opt + ": "@ + render_v(p.ty, o)
}

/// Rendering is a pure function: equal types under equal options always
/// yield the same text, across any number of calls. The executable renderer
/// returns exactly `render_v` of its inputs, so this carries over to it.
pub proof fn lemma_render_idempotent(t1: TypeV, t2: TypeV, o1: RenderOptions, o2: RenderOptions)
    requires
        t1 == t2,
        o1 == o2,
    ensures
        render_v(t1, o1) == render_v(t2, o2),
{
}

/// Whether a property name can stand bare: an ASCII identifier.
pub open spec fn is_identifier(s: Seq<char>) -> bool {
    &&& s.len() > 0
    &&& identifier_start(s[0])
    &&& forall|i: int| 1 <= i < s.len() ==> identifier_continue(#[trigger] s[i])
}

/// Whether a character can open a bare identifier.
pub open spec fn identifier_start(c: char) -> bool {
    ('a' <= c && c <= 'z') || ('A' <= c && c <= 'Z') || c == '_' || c == '$'
}

/// Whether a character can continue a bare identifier.
pub open spec fn identifier_continue(c: char) -> bool {
    identifier_start(c) || ('0' <= c && c <= '9')
}

/// Renders a type as its canonical textual structural-type expression.
/// Purely a formatting function: the result is exactly [`render_v`] of the
/// model, so equal inputs always yield equal text.
pub fn render(ty: &Type, options: RenderOptions) -> (r: String)
    ensures
        r@ == render_v(ty@, options),
{
    let mut out = String::new();
    render_into(ty, options, &mut out);
    proof {
        assert(out@ =~= render_v(ty@, options));
    }
    out
}

/// Appends the rendering of `t` to `out`.
fn render_into(t: &Type, o: RenderOptions, out: &mut String)
    ensures
        final(out)@ == old(out)@ + render_v(t@, o),
    decreases *t, 0int,
{
    match t {
        Type::String => out.append("string"),
        Type::Number => out.append("number"),
        Type::Boolean => out.append("boolean"),
        Type::Null => out.append("null"),
        Type::Undefined => out.append("undefined"),
        Type::Never => out.append("never"),
        Type::Literal(l) => render_literal_into(l, out),
        Type::Tuple(tp) => {
            out.append("[");
            if tp.items.len() == 0 {
                match &tp.rest {
                    Option::Some(r) => {
                        out.append("...");
                        suffixed_into(r, o, out);
                        out.append("[]");
                    },
                    Option::None => {},
                }
            } else {
                render_items_into(&tp.items, o, out);
                match &tp.rest {
                    Option::Some(r) => {
                        out.append(", ...");
                        suffixed_into(r, o, out);
                        out.append("[]");
                    },
                    Option::None => {},
                }
            }
            out.append("]");
            proof {
                lemma_tys_view(tp.items@);
                assert(t@ == TypeV::Tuple(crate::ty::tuple_view(*tp)));
                assert(out@ =~= old(out)@ + render_v(t@, o));
            }
        },
        Type::Array(a) => {
            suffixed_into(&a.item, o, out);
            out.append("[]");
            proof {
                assert(out@ =~= old(out)@ + render_v(t@, o));
            }
        },
        Type::Object(ob) => {
            if ob.properties.len() == 0 {
                out.append("{}");
            } else {
                out.append("{ ");
                render_props_into(&ob.properties, o, out);
                out.append(" }");
            }
            proof {
                lemma_props_view(ob.properties@);
                assert(t@ == TypeV::Object(crate::ty::object_view(*ob)));
                assert(out@ =~= old(out)@ + render_v(t@, o));
            }
        },
        Type::Record(rec) => {
            out.append("{ ");
            if o.readonly_annotations && rec.readonly {
                out.append("readonly ");
            }
            out.append("[key: ");
            render_into(&rec.key, o, out);
            out.append("]");
            if rec.optional {
                out.append("?");
            }
            out.append(": ");
            render_into(&rec.value, o, out);
            out.append(" }");
            proof {
                assert(t@ == TypeV::Record(crate::ty::record_view(*rec)));
                assert(out@ =~= old(out)@ + render_v(t@, o));
            }
        },
        Type::And(ms) => {
            if ms.len() == 0 {
                out.append("unknown");
            } else {
                render_and_members_into(ms, o, out);
            }
            proof {
                lemma_tys_view(ms@);
                assert(t@ == TypeV::And(tys_view(ms@)));
                assert(out@ =~= old(out)@ + render_v(t@, o));
            }
        },
        Type::Or(ms) => {
            if ms.len() == 0 {
                out.append("never");
            } else {
                render_or_members_into(ms, o, out);
            }
            proof {
                lemma_tys_view(ms@);
                assert(t@ == TypeV::Or(tys_view(ms@)));
                assert(out@ =~= old(out)@ + render_v(t@, o));
            }
        },
        Type::Custom(s) => {
            out.append(s.as_str());
        },
    }
}

/// Appends the rendering of a literal to `out`.
fn render_literal_into(l: &Literal, out: &mut String)
    ensures
        final(out)@ == old(out)@ + render_literal(l@),
{
    match l {
        Literal::String(s) => {
            out.append("\"");
            escape_into(s, out);
            out.append("\"");
            proof {
                reveal_strlit("\"");
                assert("\""@ =~= seq!['"']);
                assert(out@ =~= old(out)@ + render_literal(l@));
            }
        },
        Literal::Number(s) => {
            out.append(s.as_str());
        },
        Literal::Boolean(b) => {
            if *b {
                out.append("true");
            } else {
                out.append("false");
            }
        },
    }
}

/// Appends the escaped content of a string literal to `out`.
fn escape_into(s: &String, out: &mut String)
    ensures
        final(out)@ == old(out)@ + escape_chars(s@),
{
    let text = s.as_str();
    let n = text.unicode_len();
    let mut i: usize = 0;
    while i < n
        invariant
            i <= n,
            n == text@.len(),
            text@ == s@,
            out@ == old(out)@ + escape_chars(s@.subrange(0, i as int)),
        decreases n - i,
    {
        let c = text.get_char(i);
        proof {
            assert(s@.subrange(0, i + 1 as int).drop_last() =~= s@.subrange(0, i as int));
            assert(s@.subrange(0, i + 1 as int).last() == s@[i as int]);
        }
        if c == '"' {
            out.append("\\\"");
        } else if c == '\\' {
            out.append("\\\\");
        } else if c == '\n' {
            out.append("\\n");
        } else if c == '\r' {
            out.append("\\r");
        } else if c == '\t' {
            out.append("\\t");
        } else if (c as u32) < 32 {
            out.append("\\u00");
            out.append(hex_str((c as u32) / 16));
            out.append(hex_str((c as u32) % 16));
        } else {
            let piece = text.substring_char(i, i + 1);
            proof {
                assert(piece@ =~= seq![s@[i as int]]);
            }
            out.append(piece);
        }
        proof {
            assert(out@ =~= old(out)@ + escape_chars(s@.subrange(0, i + 1 as int)));
        }
        i += 1;
    }
    proof {
        assert(s@.subrange(0, n as int) =~= s@);
    }
}

/// One lower-case hex digit.
fn hex_str(n: u32) -> (r: &'static str)
    ensures
        r@ == hex_digit_str(n),
{
    if n == 0 {
        "0"
    } else if n == 1 {
        "1"
    } else if n == 2 {
        "2"
    } else if n == 3 {
        "3"
    } else if n == 4 {
        "4"
    } else if n == 5 {
        "5"
    } else if n == 6 {
        "6"
    } else if n == 7 {
        "7"
    } else if n == 8 {
        "8"
    } else if n == 9 {
        "9"
    } else if n == 10 {
        "a"
    } else if n == 11 {
        "b"
    } else if n == 12 {
        "c"
    } else if n == 13 {
        "d"
    } else if n == 14 {
        "e"
    } else {
        "f"
    }
}

/// Appends an array-suffixed position: combinators in parentheses.
fn suffixed_into(m: &Type, o: RenderOptions, out: &mut String)
    ensures
        final(out)@ == old(out)@ + suffixed_item(m@, o),
    decreases *m, 1int,
{
    if matches!(m, Type::Or(_) | Type::And(_)) {
        out.append("(");
        render_into(m, o, out);
        out.append(")");
        proof {
            assert(out@ =~= old(out)@ + suffixed_item(m@, o));
        }
    } else {
        render_into(m, o, out);
    }
}

/// Appends the comma-separated tuple items.
fn render_items_into(items: &Vec<Type>, o: RenderOptions, out: &mut String)
    ensures
        final(out)@ == old(out)@ + render_items(tys_view(items@), o),
    decreases *items, 1int,
{
    let n = items.len();
    let mut i: usize = 0;
    while i < n
        invariant
            i <= n,
            n == items@.len(),
            out@ == old(out)@ + render_items(tys_view(items@).subrange(0, i as int), o),
        decreases n - i,
    {
        proof {
            lemma_tys_view(items@);
            assert(tys_view(items@)[i as int] == items@[i as int]@);
            assert(tys_view(items@).subrange(0, i + 1 as int).drop_last() =~= tys_view(
                items@,
            ).subrange(0, i as int));
            assert(tys_view(items@).subrange(0, i + 1 as int).last() == items@[i as int]@);
        }
        if i > 0 {
            out.append(", ");
        }
        render_into(&items[i], o, out);
        proof {
            assert(out@ =~= old(out)@ + render_items(
                tys_view(items@).subrange(0, i + 1 as int),
                o,
            ));
        }
        i += 1;
    }
    proof {
        lemma_tys_view(items@);
        assert(tys_view(items@).subrange(0, n as int) =~= tys_view(items@));
    }
}

/// Appends the `|`-joined union members.
fn render_or_members_into(ms: &Vec<Type>, o: RenderOptions, out: &mut String)
    ensures
        final(out)@ == old(out)@ + render_or_members(tys_view(ms@), o),
    decreases *ms, 2int,
{
    let n = ms.len();
    let mut i: usize = 0;
    while i < n
        invariant
            i <= n,
            n == ms@.len(),
            out@ == old(out)@ + render_or_members(tys_view(ms@).subrange(0, i as int), o),
        decreases n - i,
    {
        proof {
            lemma_tys_view(ms@);
            assert(tys_view(ms@)[i as int] == ms@[i as int]@);
            assert(tys_view(ms@).subrange(0, i + 1 as int).drop_last() =~= tys_view(
                ms@,
            ).subrange(0, i as int));
            assert(tys_view(ms@).subrange(0, i + 1 as int).last() == ms@[i as int]@);
        }
        if i > 0 {
            out.append(" | ");
        }
        if matches!(&ms[i], Type::And(_)) {
            out.append("(");
            render_into(&ms[i], o, out);
            out.append(")");
        } else {
            render_into(&ms[i], o, out);
        }
        proof {
            let whole = tys_view(ms@);
            let cur = whole.subrange(0, i + 1 as int);
            assert(cur.len() == i + 1);
            assert(cur[i as int] == ms@[i as int]@);
            if i == 0 {
                assert(render_or_members(cur, o) == or_member(ms@[i as int]@, o));
            } else {
                assert(render_or_members(cur, o) == render_or_members(
                    whole.subrange(0, i as int),
                    o,
                ) + " | "@ + or_member(ms@[i as int]@, o));
            }
            assert(out@ =~= old(out)@ + render_or_members(cur, o));
        }
        i += 1;
    }
    proof {
        lemma_tys_view(ms@);
        assert(tys_view(ms@).subrange(0, n as int) =~= tys_view(ms@));
    }
}

/// Appends the `&`-joined intersection members.
fn render_and_members_into(ms: &Vec<Type>, o: RenderOptions, out: &mut String)
    ensures
        final(out)@ == old(out)@ + render_and_members(tys_view(ms@), o),
    decreases *ms, 2int,
{
    let n = ms.len();
    let mut i: usize = 0;
    while i < n
        invariant
            i <= n,
            n == ms@.len(),
            out@ == old(out)@ + render_and_members(tys_view(ms@).subrange(0, i as int), o),
        decreases n - i,
    {
        proof {
            lemma_tys_view(ms@);
            assert(tys_view(ms@)[i as int] == ms@[i as int]@);
            assert(tys_view(ms@).subrange(0, i + 1 as int).drop_last() =~= tys_view(
                ms@,
            ).subrange(0, i as int));
            assert(tys_view(ms@).subrange(0, i + 1 as int).last() == ms@[i as int]@);
        }
        if i > 0 {
            out.append(" & ");
        }
        if matches!(&ms[i], Type::Or(_)) {
            out.append("(");
            render_into(&ms[i], o, out);
            out.append(")");
        } else {
            render_into(&ms[i], o, out);
        }
        proof {
            let whole = tys_view(ms@);
            let cur = whole.subrange(0, i + 1 as int);
            assert(cur.len() == i + 1);
            assert(cur[i as int] == ms@[i as int]@);
            if i == 0 {
                assert(render_and_members(cur, o) == and_member(ms@[i as int]@, o));
            } else {
                assert(render_and_members(cur, o) == render_and_members(
                    whole.subrange(0, i as int),
                    o,
                ) + " & "@ + and_member(ms@[i as int]@, o));
            }
            assert(out@ =~= old(out)@ + render_and_members(cur, o));
        }
        i += 1;
    }
    proof {
        lemma_tys_view(ms@);
        assert(tys_view(ms@).subrange(0, n as int) =~= tys_view(ms@));
    }
}

/// Appends the `; `-joined object properties.
fn render_props_into(ps: &Vec<(String, Property)>, o: RenderOptions, out: &mut String)
    ensures
        final(out)@ == old(out)@ + render_props(props_view(ps@), o),
    decreases *ps, 2int,
{
    let n = ps.len();
    let mut i: usize = 0;
    while i < n
        invariant
            i <= n,
            n == ps@.len(),
            out@ == old(out)@ + render_props(props_view(ps@).subrange(0, i as int), o),
        decreases n - i,
    {
        proof {
            lemma_props_view(ps@);
            assert(props_view(ps@)[i as int] == prop_view(ps@[i as int]));
            assert(props_view(ps@).subrange(0, i + 1 as int).drop_last() =~= props_view(
                ps@,
            ).subrange(0, i as int));
            assert(props_view(ps@).subrange(0, i + 1 as int).last() == prop_view(
                ps@[i as int],
            ));
        }
        if i > 0 {
            out.append("; ");
        }
        render_prop_into(&ps[i], o, out);
        proof {
            assert(out@ =~= old(out)@ + render_props(
                props_view(ps@).subrange(0, i + 1 as int),
                o,
            ));
        }
        i += 1;
    }
    proof {
        lemma_props_view(ps@);
        assert(props_view(ps@).subrange(0, n as int) =~= props_view(ps@));
    }
}

/// Appends one object property.
fn render_prop_into(p: &(String, Property), o: RenderOptions, out: &mut String)
    ensures
        final(out)@ == old(out)@ + render_prop(prop_view(*p), o),
    decreases *p, 1int,
{
    if o.readonly_annotations && p.1.readonly {
        out.append("readonly ");
    }
    if is_identifier_text(&p.0) {
        out.append(p.0.as_str());
    } else {
        out.append("\"");
        escape_into(&p.0, out);
        out.append("\"");
    }
    if p.1.optional {
        out.append("?");
    }
    out.append(": ");
    render_into(&p.1.ty, o, out);
    proof {
        reveal_strlit("\"");
        assert("\""@ =~= seq!['"']);
        assert(out@ =~= old(out)@ + render_prop(prop_view(*p), o));
    }
}

/// Whether a property name can stand bare; see [`is_identifier`].
fn is_identifier_text(s: &String) -> (r: bool)
    ensures
        r == is_identifier(s@),
{
    let text = s.as_str();
    let n = text.unicode_len();
    if n == 0 {
        return false;
    }
    let first = text.get_char(0);
    if !(('a' <= first && first <= 'z') || ('A' <= first && first <= 'Z') || first == '_'
        || first == '$') {
        return false;
    }
    let mut i: usize = 1;
    while i < n
        invariant
            1 <= i <= n,
            n == text@.len(),
            text@ == s@,
            identifier_start(s@[0]),
            forall|k: int| 1 <= k < i ==> identifier_continue(#[trigger] s@[k]),
        decreases n - i,
    {
        let c = text.get_char(i);
        if !(('a' <= c && c <= 'z') || ('A' <= c && c <= 'Z') || c == '_' || c == '$' || ('0' <= c
            && c <= '9')) {
            return false;
        }
        i += 1;
    }
    true
}


} // verus!
