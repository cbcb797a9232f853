use vstd::prelude::*;

verus! {

use vstd::string::StringSliceAdditionalSpecFns;
use crate::pos::{RawSpan, snip, snippet, wf_span, fits_source};
use crate::ast::{
    CallNode, TypeArgNode, AliasNode, IfaceNode, EventNode, wf_call, wf_type_arg, wf_event,
    wf_sigs,
};
use crate::pat::dup_bytes;
use crate::jout::{
    jstr, jopt_str, jstr_arr, jbool, join_comma, opt_view, push_lit, push_jstr, push_opt_jstr,
    lemma_join_push,
};
use crate::out_node::{j_node, push_node};
use crate::sigs::{j_sig_arr, emit_sig_arr, snips_of, emit_snip_arr, ref_name_text, get_ref_name_text};

// ---------------------------------------------------------------------------
// Pieces joined with an arbitrary separator (the canonical `<A, B>` text
// uses a comma and a space).

pub open spec fn join_with(s: Seq<Seq<u8>>, sep: Seq<u8>) -> Seq<u8>
    decreases s,
{
    if s.len() == 0 {
        Seq::empty()
    } else {
        join_with(s.drop_last(), sep) + (if s.len() > 1 {
            sep
        } else {
            Seq::empty()
        }) + s.last()
    }
}

pub proof fn lemma_join_with_push(s: Seq<Seq<u8>>, x: Seq<u8>, sep: Seq<u8>)
    ensures
        join_with(s.push(x), sep) == join_with(s, sep) + (if s.len() > 0 {
            sep
        } else {
            Seq::<u8>::empty()
        }) + x,
{
    assert(s.push(x).drop_last() =~= s);
    assert(s.push(x).last() == x);
}

// ---------------------------------------------------------------------------
// Type arguments of a call.

/// The span a type argument covers.
pub open spec fn targ_span(t: TypeArgNode) -> RawSpan {
    match t {
        TypeArgNode::RefArg { span, .. } => span,
        TypeArgNode::LitArg { span, .. } => span,
        TypeArgNode::OtherArg { span } => span,
    }
}

pub open spec fn targ_spans(ts: Seq<TypeArgNode>) -> Seq<RawSpan> {
    ts.map_values(|t: TypeArgNode| targ_span(t))
}

/// The classification word of a type argument.
pub open spec fn targ_kind_text(t: TypeArgNode) -> Seq<u8> {
    match t {
        TypeArgNode::RefArg { .. } => "type_ref".spec_bytes(),
        TypeArgNode::LitArg { .. } => "type_literal".spec_bytes(),
        TypeArgNode::OtherArg { .. } => "other".spec_bytes(),
    }
}

/// The referenced name a type argument carries: the resolved name for a
/// type reference, empty for every other kind.
pub open spec fn targ_ref_text(t: TypeArgNode, src: Seq<u8>) -> Seq<u8> {
    match t {
        TypeArgNode::RefArg { name, .. } => ref_name_text(name, src),
        _ => Seq::empty(),
    }
}

/// The property signatures a type argument carries: the members of an
/// inline type literal, an empty list for every other kind.
pub open spec fn targ_lit_json(t: TypeArgNode, src: Seq<u8>) -> Seq<u8> {
    match t {
        TypeArgNode::LitArg { members, .. } => j_sig_arr(members@, src),
        _ => "[]".spec_bytes(),
    }
}

/// The canonical `<A, B>` rendering of a type-argument list, absent when
/// the list is empty.
pub open spec fn targ_text(ts: Seq<TypeArgNode>, src: Seq<u8>) -> Seq<u8> {
    if ts.len() == 0 {
        "null".spec_bytes()
    } else {
        jstr(
            "<".spec_bytes() + join_with(snips_of(targ_spans(ts), src), ", ".spec_bytes())
                + ">".spec_bytes(),
        )
    }
}

/// Appends the canonical `<A, B>` text of a nonempty type-argument list,
/// unescaped, into a scratch buffer.
#[verifier::loop_isolation(false)]
fn build_targ_text(ts: &Vec<TypeArgNode>, src: &Vec<u8>) -> (r: Vec<u8>)
    requires
        forall|i: int| 0 <= i < ts@.len() ==> wf_type_arg(#[trigger] ts@[i], src@.len() as int),
    ensures
        r@ == "<".spec_bytes() + join_with(snips_of(targ_spans(ts@), src@), ", ".spec_bytes())
            + ">".spec_bytes(),
{
    let mut r: Vec<u8> = Vec::new();
    push_lit(&mut r, "<".as_bytes());
    let mut i: usize = 0;
    while i < ts.len()
        invariant
            0 <= i <= ts@.len(),
            r@ == "<".spec_bytes() + join_with(
                snips_of(targ_spans(ts@.take(i as int)), src@),
                ", ".spec_bytes(),
            ),
        decreases ts@.len() - i,
    {
        if i > 0 {
            push_lit(&mut r, ", ".as_bytes());
        }
        let sp = match &ts[i] {
            TypeArgNode::RefArg { span, .. } => *span,
            TypeArgNode::LitArg { span, .. } => *span,
            TypeArgNode::OtherArg { span } => *span,
        };
        let t = snippet(src, sp);
        let mut k: usize = 0;
        while k < t.len()
            invariant
                0 <= k <= t@.len(),
                r@ == "<".spec_bytes() + join_with(
                    snips_of(targ_spans(ts@.take(i as int)), src@),
                    ", ".spec_bytes(),
                ) + (if i > 0 {
                    ", ".spec_bytes()
                } else {
                    Seq::<u8>::empty()
                }) + t@.take(k as int),
            decreases t@.len() - k,
        {
            r.push(t[k]);
            proof {
                assert(t@.take(k + 1) == t@.take(k as int).push(t@[k as int]));
            }
            k += 1;
        }
        proof {
            assert(t@.take(t@.len() as int) == t@);
            let prev = snips_of(targ_spans(ts@.take(i as int)), src@);
            let cur = snips_of(targ_spans(ts@.take(i + 1)), src@);
            assert(cur =~~= prev.push(snip(src@, targ_span(ts@[i as int]))));
            lemma_join_with_push(prev, snip(src@, targ_span(ts@[i as int])), ", ".spec_bytes());
            assert(prev.len() == i);
            assert(r@ =~= "<".spec_bytes() + join_with(cur, ", ".spec_bytes()));
        }
        i += 1;
    }
    proof {
        assert(ts@.take(ts@.len() as int) == ts@);
    }
    push_lit(&mut r, ">".as_bytes());
    r
}

/// Appends a JSON array of the classification words of the type arguments.
#[verifier::loop_isolation(false)]
fn emit_targ_kinds(out: &mut Vec<u8>, ts: &Vec<TypeArgNode>, src: &Vec<u8>)
    ensures
        final(out)@ == old(out)@ + jstr_arr(ts@.map_values(|t: TypeArgNode| targ_kind_text(t))),
{
    push_lit(out, "[".as_bytes());
    let mut i: usize = 0;
    while i < ts.len()
        invariant
            0 <= i <= ts@.len(),
            out@ == old(out)@ + "[".spec_bytes() + join_comma(
                ts@.take(i as int).map_values(|t: TypeArgNode| targ_kind_text(t)).map_values(
                    |x: Seq<u8>| jstr(x),
                ),
            ),
        decreases ts@.len() - i,
    {
        if i > 0 {
            push_lit(out, ",".as_bytes());
        }
        match &ts[i] {
            TypeArgNode::RefArg { .. } => {
                let kt = crate::jout::lit_vec("type_ref".as_bytes());
                push_jstr(out, &kt);
            },
            TypeArgNode::LitArg { .. } => {
                let kt = crate::jout::lit_vec("type_literal".as_bytes());
                push_jstr(out, &kt);
            },
            TypeArgNode::OtherArg { .. } => {
                let kt = crate::jout::lit_vec("other".as_bytes());
                push_jstr(out, &kt);
            },
        }
        proof {
            let f1 = |t: TypeArgNode| targ_kind_text(t);
            let f2 = |x: Seq<u8>| jstr(x);
            let prev = ts@.take(i as int).map_values(f1).map_values(f2);
            let cur = ts@.take(i + 1).map_values(f1).map_values(f2);
            assert(cur =~~= prev.push(jstr(targ_kind_text(ts@[i as int]))));
            lemma_join_push(prev, jstr(targ_kind_text(ts@[i as int])));
            assert(prev.len() == i);
            assert(out@ =~= old(out)@ + "[".spec_bytes() + join_comma(cur));
        }
        i += 1;
    }
    proof {
        assert(ts@.take(ts@.len() as int) == ts@);
    }
    push_lit(out, "]".as_bytes());
    proof {
        reveal(jstr_arr);
        assert(final(out)@ =~= old(out)@ + jstr_arr(
            ts@.map_values(|t: TypeArgNode| targ_kind_text(t)),
        ));
    }
}

/// Appends a JSON array of the referenced names of the type arguments.
#[verifier::loop_isolation(false)]
fn emit_targ_refs(out: &mut Vec<u8>, ts: &Vec<TypeArgNode>, src: &Vec<u8>)
    requires
        forall|i: int| 0 <= i < ts@.len() ==> wf_type_arg(#[trigger] ts@[i], src@.len() as int),
    ensures
        final(out)@ == old(out)@ + jstr_arr(
            ts@.map_values(|t: TypeArgNode| targ_ref_text(t, src@)),
        ),
{
    push_lit(out, "[".as_bytes());
    let mut i: usize = 0;
    while i < ts.len()
        invariant
            0 <= i <= ts@.len(),
            out@ == old(out)@ + "[".spec_bytes() + join_comma(
                ts@.take(i as int).map_values(|t: TypeArgNode| targ_ref_text(t, src@)).map_values(
                    |x: Seq<u8>| jstr(x),
                ),
            ),
        decreases ts@.len() - i,
    {
        if i > 0 {
            push_lit(out, ",".as_bytes());
        }
        let rt = match &ts[i] {
            TypeArgNode::RefArg { name, .. } => get_ref_name_text(name, src),
            _ => Vec::new(),
        };
        push_jstr(out, &rt);
        proof {
            let f1 = |t: TypeArgNode| targ_ref_text(t, src@);
            let f2 = |x: Seq<u8>| jstr(x);
            let prev = ts@.take(i as int).map_values(f1).map_values(f2);
            let cur = ts@.take(i + 1).map_values(f1).map_values(f2);
            assert(cur =~~= prev.push(jstr(targ_ref_text(ts@[i as int], src@))));
            lemma_join_push(prev, jstr(targ_ref_text(ts@[i as int], src@)));
            assert(prev.len() == i);
            assert(out@ =~= old(out)@ + "[".spec_bytes() + join_comma(cur));
        }
        i += 1;
    }
    proof {
        assert(ts@.take(ts@.len() as int) == ts@);
    }
    push_lit(out, "]".as_bytes());
    proof {
        reveal(jstr_arr);
        assert(final(out)@ =~= old(out)@ + jstr_arr(
            ts@.map_values(|t: TypeArgNode| targ_ref_text(t, src@)),
        ));
    }
}

/// Appends a JSON array holding, for each type argument, the array of its
/// type-literal property signatures.
#[verifier::loop_isolation(false)]
fn emit_targ_lit_props(out: &mut Vec<u8>, ts: &Vec<TypeArgNode>, src: &Vec<u8>)
    requires
        forall|i: int| 0 <= i < ts@.len() ==> wf_type_arg(#[trigger] ts@[i], src@.len() as int),
    ensures
        final(out)@ == old(out)@ + "[".spec_bytes() + join_comma(
            ts@.map_values(|t: TypeArgNode| targ_lit_json(t, src@)),
        ) + "]".spec_bytes(),
{
    push_lit(out, "[".as_bytes());
    let mut i: usize = 0;
    while i < ts.len()
        invariant
            0 <= i <= ts@.len(),
            out@ == old(out)@ + "[".spec_bytes() + join_comma(
                ts@.take(i as int).map_values(|t: TypeArgNode| targ_lit_json(t, src@)),
            ),
        decreases ts@.len() - i,
    {
        if i > 0 {
            push_lit(out, ",".as_bytes());
        }
        match &ts[i] {
            TypeArgNode::LitArg { members, .. } => {
                emit_sig_arr(out, members, src);
            },
            _ => {
                push_lit(out, "[]".as_bytes());
            },
        }
        proof {
            let f = |t: TypeArgNode| targ_lit_json(t, src@);
            let prev = ts@.take(i as int).map_values(f);
            let cur = ts@.take(i + 1).map_values(f);
            assert(cur =~~= prev.push(targ_lit_json(ts@[i as int], src@)));
            lemma_join_push(prev, targ_lit_json(ts@[i as int], src@));
            assert(prev.len() == i);
            assert(out@ =~= old(out)@ + "[".spec_bytes() + join_comma(cur));
        }
        i += 1;
    }
    proof {
        assert(ts@.take(ts@.len() as int) == ts@);
    }
    push_lit(out, "]".as_bytes());
}

// ---------------------------------------------------------------------------
// The call record.

/// The first half of a call record: position, plain-identifier callee,
/// verbatim argument texts, verbatim type-argument texts, and the verbatim
/// call text.
pub open spec fn j_call_head(c: CallNode, src: Seq<u8>) -> Seq<u8> {
    "{\"type\":\"CallExpression\",".spec_bytes() + j_node(c.span, src)
        + ",\"callee_ident\":".spec_bytes() + jopt_str(opt_view(c.callee_ident))
        + ",\"args\":".spec_bytes() + jstr_arr(snips_of(c.arg_spans@, src))
        + ",\"type_parameters\":".spec_bytes() + (match c.type_args {
        Option::None => "null".spec_bytes(),
        Option::Some(ts) => jstr_arr(snips_of(targ_spans(ts@), src)),
    }) + ",\"text\":".spec_bytes() + jstr(snip(src, c.span))
}

/// The second half of a call record: the canonical `<...>` text and the
/// classification of each type argument with its referenced name and its
/// type-literal members.
pub open spec fn j_call_tail(c: CallNode, src: Seq<u8>) -> Seq<u8> {
    ",\"type_argument_text\":".spec_bytes() + (match c.type_args {
        Option::None => "null".spec_bytes(),
        Option::Some(ts) => targ_text(ts@, src),
    }) + ",\"type_arg_kinds\":".spec_bytes() + (match c.type_args {
        Option::None => "null".spec_bytes(),
        Option::Some(ts) => jstr_arr(ts@.map_values(|t: TypeArgNode| targ_kind_text(t))),
    }) + ",\"type_ref_idents\":".spec_bytes() + (match c.type_args {
        Option::None => "null".spec_bytes(),
        Option::Some(ts) => jstr_arr(ts@.map_values(|t: TypeArgNode| targ_ref_text(t, src))),
    }) + ",\"type_literal_props\":".spec_bytes() + (match c.type_args {
        Option::None => "null".spec_bytes(),
        Option::Some(ts) => "[".spec_bytes() + join_comma(
            ts@.map_values(|t: TypeArgNode| targ_lit_json(t, src)),
        ) + "]".spec_bytes(),
    }) + "}".spec_bytes()
}

/// A call-expression record: position, plain-identifier callee, verbatim
/// argument texts, and — when explicit type arguments are present — their
/// verbatim texts, the canonical `<...>` form, and their classification with
/// referenced names and type-literal members.
pub open spec fn j_call(c: CallNode, src: Seq<u8>) -> Seq<u8> {
    j_call_head(c, src) + j_call_tail(c, src)
}

#[verifier::rlimit(100)]
#[verifier::spinoff_prover]
fn emit_call_head(out: &mut Vec<u8>, c: &CallNode, src: &Vec<u8>)
    requires
        wf_call(*c, src@.len() as int),
        fits_source(src@.len() as int),
    ensures
        final(out)@ == old(out)@ + j_call_head(*c, src@),
{
    push_lit(out, "{\"type\":\"CallExpression\",".as_bytes());
    push_node(out, c.span, src);
    push_lit(out, ",\"callee_ident\":".as_bytes());
    let callee = match &c.callee_ident {
        Option::None => Option::None,
        Option::Some(n) => Option::Some(dup_bytes(n)),
    };
    push_opt_jstr(out, &callee);
    push_lit(out, ",\"args\":".as_bytes());
    emit_snip_arr(out, &c.arg_spans, src);
    push_lit(out, ",\"type_parameters\":".as_bytes());
    match &c.type_args {
        Option::None => {
            push_lit(out, "null".as_bytes());
        },
        Option::Some(ts) => {
            let spans = get_targ_spans(ts);
            emit_snip_arr(out, &spans, src);
        },
    }
    push_lit(out, ",\"text\":".as_bytes());
    let text = snippet(src, c.span);
    push_jstr(out, &text);
    proof {
        assert(final(out)@ =~= old(out)@ + j_call_head(*c, src@));
    }
}

#[verifier::rlimit(100)]
#[verifier::spinoff_prover]
fn emit_call_tail(out: &mut Vec<u8>, c: &CallNode, src: &Vec<u8>)
    requires
        wf_call(*c, src@.len() as int),
        fits_source(src@.len() as int),
    ensures
        final(out)@ == old(out)@ + j_call_tail(*c, src@),
{
    push_lit(out, ",\"type_argument_text\":".as_bytes());
    match &c.type_args {
        Option::None => {
            push_lit(out, "null".as_bytes());
        },
        Option::Some(ts) => {
            if ts.len() == 0 {
                push_lit(out, "null".as_bytes());
            } else {
                let t = build_targ_text(ts, src);
                push_jstr(out, &t);
            }
        },
    }
    push_lit(out, ",\"type_arg_kinds\":".as_bytes());
    match &c.type_args {
        Option::None => {
            push_lit(out, "null".as_bytes());
        },
        Option::Some(ts) => {
            emit_targ_kinds(out, ts, src);
        },
    }
    push_lit(out, ",\"type_ref_idents\":".as_bytes());
    match &c.type_args {
        Option::None => {
            push_lit(out, "null".as_bytes());
        },
        Option::Some(ts) => {
            emit_targ_refs(out, ts, src);
        },
    }
    push_lit(out, ",\"type_literal_props\":".as_bytes());
    match &c.type_args {
        Option::None => {
            push_lit(out, "null".as_bytes());
        },
        Option::Some(ts) => {
            emit_targ_lit_props(out, ts, src);
        },
    }
    push_lit(out, "}".as_bytes());
    proof {
        assert(final(out)@ =~= old(out)@ + j_call_tail(*c, src@));
    }
}

/// Appends a call-expression record.
pub fn emit_call(out: &mut Vec<u8>, c: &CallNode, src: &Vec<u8>)
    requires
        wf_call(*c, src@.len() as int),
        fits_source(src@.len() as int),
    ensures
        final(out)@ == old(out)@ + j_call(*c, src@),
{
    emit_call_head(out, c, src);
    emit_call_tail(out, c, src);
    proof {
        assert(final(out)@ =~= old(out)@ + j_call(*c, src@));
    }
}

/// The spans of a type-argument list.
fn get_targ_spans(ts: &Vec<TypeArgNode>) -> (r: Vec<RawSpan>)
    ensures
        r@ == targ_spans(ts@),
{
    let mut r: Vec<RawSpan> = Vec::new();
    let mut i: usize = 0;
    while i < ts.len()
        invariant
            0 <= i <= ts@.len(),
            r@ == targ_spans(ts@.take(i as int)),
        decreases ts@.len() - i,
    {
        let sp = match &ts[i] {
            TypeArgNode::RefArg { span, .. } => *span,
            TypeArgNode::LitArg { span, .. } => *span,
            TypeArgNode::OtherArg { span } => *span,
        };
        r.push(sp);
        proof {
            assert(targ_spans(ts@.take(i + 1)) =~= targ_spans(ts@.take(i as int)).push(
                targ_span(ts@[i as int]),
            ));
        }
        i += 1;
    }
    proof {
        assert(ts@.take(ts@.len() as int) == ts@);
    }
    r
}

// ---------------------------------------------------------------------------
// Type alias and interface records.

/// A type-alias record: the alias name, and its property signatures when
/// its right side is an object-type literal, an empty list otherwise.
pub open spec fn j_alias(a: AliasNode, src: Seq<u8>) -> Seq<u8> {
    "{\"type\":\"TSTypeAliasDeclaration\",".spec_bytes() + j_node(a.span, src)
        + ",\"id\":".spec_bytes() + jstr(a.id@) + ",\"members\":".spec_bytes() + (
    match a.lit_members {
        Option::None => "[]".spec_bytes(),
        Option::Some(ms) => j_sig_arr(ms@, src),
    }) + "}".spec_bytes()
}

/// An interface record: the interface name and the property signatures of
/// its body.
pub open spec fn j_iface(f: IfaceNode, src: Seq<u8>) -> Seq<u8> {
    "{\"type\":\"TSInterfaceDeclaration\",".spec_bytes() + j_node(f.span, src)
        + ",\"id\":".spec_bytes() + jstr(f.id@) + ",\"members\":".spec_bytes() + j_sig_arr(
        f.members@,
        src,
    ) + "}".spec_bytes()
}

/// Appends a type-alias record.
#[verifier::rlimit(100)]
#[verifier::spinoff_prover]
pub fn emit_alias(out: &mut Vec<u8>, a: &AliasNode, src: &Vec<u8>)
    requires
        wf_span(a.span, src@.len() as int),
        match a.lit_members {
            Option::None => true,
            Option::Some(ms) => wf_sigs(ms@, src@.len() as int),
        },
        fits_source(src@.len() as int),
    ensures
        final(out)@ == old(out)@ + j_alias(*a, src@),
{
    push_lit(out, "{\"type\":\"TSTypeAliasDeclaration\",".as_bytes());
    push_node(out, a.span, src);
    push_lit(out, ",\"id\":".as_bytes());
    push_jstr(out, &a.id);
    push_lit(out, ",\"members\":".as_bytes());
    match &a.lit_members {
        Option::None => {
            push_lit(out, "[]".as_bytes());
        },
        Option::Some(ms) => {
            emit_sig_arr(out, ms, src);
        },
    }
    push_lit(out, "}".as_bytes());
    proof {
        assert(final(out)@ =~= old(out)@ + j_alias(*a, src@));
    }
}

/// Appends an interface record.
#[verifier::rlimit(100)]
#[verifier::spinoff_prover]
pub fn emit_iface(out: &mut Vec<u8>, f: &IfaceNode, src: &Vec<u8>)
    requires
        wf_span(f.span, src@.len() as int),
        wf_sigs(f.members@, src@.len() as int),
        fits_source(src@.len() as int),
    ensures
        final(out)@ == old(out)@ + j_iface(*f, src@),
{
    push_lit(out, "{\"type\":\"TSInterfaceDeclaration\",".as_bytes());
    push_node(out, f.span, src);
    push_lit(out, ",\"id\":".as_bytes());
    push_jstr(out, &f.id);
    push_lit(out, ",\"members\":".as_bytes());
    emit_sig_arr(out, &f.members, src);
    push_lit(out, "}".as_bytes());
    proof {
        assert(final(out)@ =~= old(out)@ + j_iface(*f, src@));
    }
}

/// The record one traversal event produces.
pub open spec fn j_event(e: EventNode, src: Seq<u8>) -> Seq<u8> {
    match e {
        EventNode::CallEvent(c) => j_call(c, src),
        EventNode::AliasEvent(a) => j_alias(a, src),
        EventNode::IfaceEvent(f) => j_iface(f, src),
    }
}

/// Appends the record of one traversal event.
pub fn emit_event(out: &mut Vec<u8>, e: &EventNode, src: &Vec<u8>)
    requires
        wf_event(*e, src@.len() as int),
        fits_source(src@.len() as int),
    ensures
        final(out)@ == old(out)@ + j_event(*e, src@),
{
    match e {
        EventNode::CallEvent(c) => {
            emit_call(out, c, src);
        },
        EventNode::AliasEvent(a) => {
            emit_alias(out, a, src);
        },
        EventNode::IfaceEvent(f) => {
            emit_iface(out, f, src);
        },
    }
}

} // verus!
