//! Emission of the generated protocol module.
//!
//! The compiled protocol is written out as the source text of the two
//! union declarations.  The text is pinned character for character to
//! the protocol's structure, so emitting the same protocol twice yields
//! the same text.

use vstd::prelude::*;

use crate::names::{dec_str, u64_to_dec};
use crate::protocol::{ArmModel, Protocol, ProtocolModel, VariantModel};

verus! {

/// The first `k` items joined with `sep`.
pub open spec fn join_upto(sep: Seq<char>, items: Seq<Seq<char>>, k: int) -> Seq<char>
    decreases k,
{
    if k <= 0 {
        Seq::empty()
    } else if k == 1 {
        items[0]
    } else {
        join_upto(sep, items, k - 1) + sep + items[k - 1]
    }
}

/// All items joined with `sep`.
pub open spec fn join(sep: Seq<char>, items: Seq<Seq<char>>) -> Seq<char> {
    join_upto(sep, items, items.len() as int)
}

/// One variant declaration: its name and its parenthesized positional
/// field types.
pub open spec fn variant_decl(v: VariantModel) -> Seq<char> {
    v.variant_name + "("@ + join(", "@, v.field_types) + ")"@
}

/// The first `k` variant declarations, one indented line each.
pub open spec fn variant_block(vs: Seq<VariantModel>, k: int) -> Seq<char>
    decreases k,
{
    if k <= 0 {
        Seq::empty()
    } else {
        variant_block(vs, k - 1) + "    "@ + variant_decl(vs[k - 1]) + ",\n"@
    }
}

/// One whole union declaration.
pub open spec fn union_decl(name: Seq<char>, vs: Seq<VariantModel>) -> Seq<char> {
    "pub enum "@ + name + " {\n"@ + variant_block(vs, vs.len() as int) + "}\n"@
}

/// The generated protocol module: the query union, then the response
/// union.
pub open spec fn render_spec(p: ProtocolModel) -> Seq<char> {
    union_decl("Query"@, p.query_variants) + union_decl("Response"@, p.response_variants)
}

/// Joins type names with `", "`.
fn join_types(items: &Vec<String>) -> (r: String)
    ensures
        r@ == join(", "@, items@.map_values(|s: String| s@)),
{
    let ghost m = items@.map_values(|s: String| s@);
    let mut r = String::new();
    let mut j: usize = 0;
    while j < items.len()
        invariant
            j <= items@.len(),
            m == items@.map_values(|s: String| s@),
            r@ == join_upto(", "@, m, j as int),
        decreases items@.len() - j,
    {
        if j > 0 {
            r.append(", ");
        }
        r.append(items[j].as_str());
        proof {
            assert(m[j as int] == items@[j as int]@);
            assert(r@ =~= join_upto(", "@, m, j + 1));
        }
        j += 1;
    }
    r
}

/// Writes one union declaration onto `out`.
fn append_union(out: &mut String, name: &str, vs: &Vec<crate::protocol::VariantDef>)
    ensures
        final(out)@ == old(out)@ + union_decl(name@, vs@.map_values(
            |v: crate::protocol::VariantDef| v@,
        )),
{
    let ghost m = vs@.map_values(|v: crate::protocol::VariantDef| v@);
    out.append("pub enum ");
    out.append(name);
    out.append(" {\n");
    let ghost header = old(out)@ + "pub enum "@ + name@ + " {\n"@;
    let mut k: usize = 0;
    while k < vs.len()
        invariant
            k <= vs@.len(),
            m == vs@.map_values(|v: crate::protocol::VariantDef| v@),
            header == old(out)@ + "pub enum "@ + name@ + " {\n"@,
            out@ == header + variant_block(m, k as int),
        decreases vs@.len() - k,
    {
        out.append("    ");
        out.append(vs[k].variant_name.as_str());
        out.append("(");
        let fields = join_types(&vs[k].field_types);
        out.append(fields.as_str());
        out.append(")");
        out.append(",\n");
        proof {
            assert(m[k as int] == vs@[k as int]@);
            assert(out@ =~= header + variant_block(m, k + 1));
        }
        k += 1;
    }
    out.append("}\n");
    proof {
        assert(out@ =~= old(out)@ + union_decl(name@, m));
    }
}

/// Emits the generated protocol module's source text: both union
/// declarations, pinned to the protocol's structure.  Structurally
/// identical protocols yield identical text.
pub fn render_protocol(p: &Protocol) -> (r: String)
    ensures
        r@ == render_spec(p@),
{
    let mut out = String::new();
    append_union(&mut out, "Query", &p.query_variants);
    append_union(&mut out, "Response", &p.response_variants);
    out
}

/// The positional argument name for field `j` of a query variant.
pub open spec fn arg_name(j: nat) -> Seq<char> {
    "arg"@ + dec_str(j)
}

/// The pattern argument list of a query variant with `n` fields.
pub open spec fn pattern_args(n: int) -> Seq<Seq<char>> {
    Seq::new(n as nat, |j: int| arg_name(j as nat))
}

/// The call-site argument list of one dispatch row: each argument
/// taken by reference exactly where the row elides it.
pub open spec fn call_args(by_ref: Seq<bool>) -> Seq<Seq<char>> {
    Seq::new(by_ref.len(), |j: int| if by_ref[j] {
        "&"@ + arg_name(j as nat)
    } else {
        arg_name(j as nat)
    })
}

/// One arm of the generated dispatch match: the query variant pattern
/// on the left, the routed method call wrapped as the matching
/// response variant on the right.
pub open spec fn arm_line(qname: Seq<char>, rname: Seq<char>, a: ArmModel) -> Seq<char> {
    "    Query::"@ + qname + "("@ + join(", "@, pattern_args(a.by_ref.len() as int)) + ") => "@
        + "Some(Proto::Response(Response::"@ + rname + "("@ + a.model_name + "::"@
        + a.method_name + "("@ + join(", "@, call_args(a.by_ref)) + ")))),\n"@
}

/// The first `k` dispatch arms.
pub open spec fn arm_block(p: ProtocolModel, k: int) -> Seq<char>
    decreases k,
{
    if k <= 0 {
        Seq::empty()
    } else {
        arm_block(p, k - 1) + arm_line(
            p.query_variants[k - 1].variant_name,
            p.response_variants[k - 1].variant_name,
            p.arms[k - 1],
        )
    }
}

/// The whole generated dispatch match.
pub open spec fn dispatch_spec_text(p: ProtocolModel) -> Seq<char> {
    "match query {\n"@ + arm_block(p, p.arms.len() as int) + "}\n"@
}

/// Writes the comma-separated argument names `arg0, arg1, ...`, the
/// call-site ones prefixed with `&` where the row passes by reference;
/// `patterns` selects the plain pattern form.
fn append_args(out: &mut String, by_ref: &Vec<bool>, patterns: bool)
    ensures
        final(out)@ == old(out)@ + if patterns {
            join(", "@, pattern_args(by_ref@.len() as int))
        } else {
            join(", "@, call_args(by_ref@))
        },
{
    let ghost items: Seq<Seq<char>> = if patterns {
        pattern_args(by_ref@.len() as int)
    } else {
        call_args(by_ref@)
    };
    let mut j: usize = 0;
    while j < by_ref.len()
        invariant
            j <= by_ref@.len(),
            items == if patterns {
                pattern_args(by_ref@.len() as int)
            } else {
                call_args(by_ref@)
            },
            items.len() == by_ref@.len(),
            out@ == old(out)@ + join_upto(", "@, items, j as int),
        decreases by_ref@.len() - j,
    {
        if j > 0 {
            out.append(", ");
        }
        if !patterns && by_ref[j] {
            out.append("&");
        }
        out.append("arg");
        let digits = u64_to_dec(j as u64);
        out.append(digits.as_str());
        proof {
            assert(items[j as int] == if !patterns && by_ref@[j as int] {
                "&"@ + arg_name(j as nat)
            } else {
                arg_name(j as nat)
            });
            assert(out@ =~= old(out)@ + join_upto(", "@, items, j + 1));
        }
        j += 1;
    }
}

/// Emits the generated dispatcher's source text: the match that routes
/// each query variant to its method invocation (receiver arguments by
/// reference) and wraps the produced value as the response variant
/// with the same id.
pub fn render_dispatch(p: &Protocol) -> (r: String)
    requires
        p@.arms.len() == p@.query_variants.len(),
        p@.arms.len() == p@.response_variants.len(),
    ensures
        r@ == dispatch_spec_text(p@),
{
    let ghost m = p@;
    let mut out = String::new();
    out.append("match query {\n");
    let mut k: usize = 0;
    while k < p.arms.len()
        invariant
            k <= p@.arms.len(),
            m == p@,
            m.arms.len() == m.query_variants.len(),
            m.arms.len() == m.response_variants.len(),
            out@ == "match query {\n"@ + arm_block(m, k as int),
        decreases p@.arms.len() - k,
    {
        proof {
            assert(m.arms[k as int] == p.arms@[k as int]@);
            assert(m.query_variants[k as int] == p.query_variants@[k as int]@);
            assert(m.response_variants[k as int] == p.response_variants@[k as int]@);
        }
        out.append("    Query::");
        out.append(p.query_variants[k].variant_name.as_str());
        out.append("(");
        append_args(&mut out, &p.arms[k].by_ref, true);
        out.append(") => ");
        out.append("Some(Proto::Response(Response::");
        out.append(p.response_variants[k].variant_name.as_str());
        out.append("(");
        out.append(p.arms[k].model_name.as_str());
        out.append("::");
        out.append(p.arms[k].method_name.as_str());
        out.append("(");
        append_args(&mut out, &p.arms[k].by_ref, false);
        out.append(")))),\n");
        proof {
            assert(out@ =~= "match query {\n"@ + arm_block(m, k + 1));
        }
        k += 1;
    }
    out.append("}\n");
    out
}

} // verus!
