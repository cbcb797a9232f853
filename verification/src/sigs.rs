use vstd::prelude::*;

verus! {

use vstd::string::StringSliceAdditionalSpecFns;
use crate::pos::{RawSpan, snip, snippet, wf_span, fits_source};
use crate::ast::{
    SigNode, SigKey, MemberNode, MemberKey, MethodSort, RefName, PatNode, wf_sig, wf_sigs,
    wf_member, wf_member_key, wf_pat, wf_pats, wf_opt_span,
};
use crate::pat::{opt_snip, get_opt_snip, dup_bytes, pat_height};
use crate::jout::{
    jstr, jopt_str, jbool, jstr_arr, join_comma, opt_view, push_lit, push_jstr, push_opt_jstr,
    push_bool, lemma_join_push,
};
use crate::out_node::{j_node, push_node};

// ---------------------------------------------------------------------------
// Property signatures of type literals and interface bodies.

/// The key text of a property signature: an identifier's name, a string
/// key's value, or the verbatim source of the whole signature for any other
/// key shape.
pub open spec fn sig_key_text(k: SigKey, span: RawSpan, src: Seq<u8>) -> Seq<u8> {
    match k {
        SigKey::SigIdent(n) => n@,
        SigKey::SigText(t) => t@,
        SigKey::SigOther => snip(src, span),
    }
}

/// One rendered property signature, for the signature members that are
/// property signatures; other member kinds are dropped.
pub open spec fn j_sig_opt(s: SigNode, src: Seq<u8>) -> Option<Seq<u8>> {
    match s {
        SigNode::PropSig { span, key, type_ann, optional } => Option::Some(
            "{\"key\":".spec_bytes() + jstr(sig_key_text(key, span, src))
                + ",\"type_ann\":".spec_bytes() + jopt_str(opt_snip(type_ann, src))
                + ",\"optional\":".spec_bytes() + jbool(optional) + "}".spec_bytes(),
        ),
        SigNode::OtherSig => Option::None,
    }
}

/// The rendered property signatures of a member list, in order.
pub open spec fn j_sigs(s: Seq<SigNode>, src: Seq<u8>) -> Seq<Seq<u8>>
    decreases s,
{
    if s.len() == 0 {
        Seq::empty()
    } else {
        j_sigs(s.drop_last(), src) + match j_sig_opt(s.last(), src) {
            Option::Some(j) => seq![j],
            Option::None => Seq::<Seq<u8>>::empty(),
        }
    }
}

/// A JSON array of the property signatures of a member list.
pub open spec fn j_sig_arr(s: Seq<SigNode>, src: Seq<u8>) -> Seq<u8> {
    "[".spec_bytes() + join_comma(j_sigs(s, src)) + "]".spec_bytes()
}

/// Appends one property signature, with a leading comma when members came
/// before; a member that is no property signature appends nothing.
#[verifier::rlimit(100)]
#[verifier::spinoff_prover]
fn emit_one_sig(out: &mut Vec<u8>, s: &SigNode, any: bool, src: &Vec<u8>) -> (emitted: bool)
    requires
        wf_sig(*s, src@.len() as int),
    ensures
        emitted == (j_sig_opt(*s, src@) matches Option::Some(_)),
        final(out)@ == old(out)@ + match j_sig_opt(*s, src@) {
            Option::Some(piece) => (if any {
                ",".spec_bytes()
            } else {
                Seq::<u8>::empty()
            }) + piece,
            Option::None => Seq::<u8>::empty(),
        },
{
    match s {
        SigNode::PropSig { span, key, type_ann, optional } => {
            if any {
                push_lit(out, ",".as_bytes());
            }
            push_lit(out, "{\"key\":".as_bytes());
            let kt = match key {
                SigKey::SigIdent(n) => dup_bytes(n),
                SigKey::SigText(t) => dup_bytes(t),
                SigKey::SigOther => snippet(src, *span),
            };
            push_jstr(out, &kt);
            push_lit(out, ",\"type_ann\":".as_bytes());
            let ta = get_opt_snip(type_ann, src);
            push_opt_jstr(out, &ta);
            push_lit(out, ",\"optional\":".as_bytes());
            push_bool(out, *optional);
            push_lit(out, "}".as_bytes());
            proof {
                assert(final(out)@ =~= old(out)@ + (if any {
                    ",".spec_bytes()
                } else {
                    Seq::<u8>::empty()
                }) + j_sig_opt(*s, src@)->0);
            }
            true
        },
        SigNode::OtherSig => false,
    }
}

/// Appends a JSON array with one entry per property signature of a member
/// list, in order.
#[verifier::loop_isolation(false)]
pub fn emit_sig_arr(out: &mut Vec<u8>, sigs: &Vec<SigNode>, src: &Vec<u8>)
    requires
        wf_sigs(sigs@, src@.len() as int),
    ensures
        final(out)@ == old(out)@ + j_sig_arr(sigs@, src@),
{
    push_lit(out, "[".as_bytes());
    let mut i: usize = 0;
    let mut any: bool = false;
    while i < sigs.len()
        invariant
            0 <= i <= sigs@.len(),
            any <==> j_sigs(sigs@.take(i as int), src@).len() > 0,
            out@ == old(out)@ + "[".spec_bytes() + join_comma(j_sigs(sigs@.take(i as int), src@)),
        decreases sigs@.len() - i,
    {
        let e = emit_one_sig(out, &sigs[i], any, src);
        any = any || e;
        proof {
            assert(sigs@.take(i + 1).drop_last() =~= sigs@.take(i as int));
            assert(sigs@.take(i + 1).last() == sigs@[i as int]);
            let prev = j_sigs(sigs@.take(i as int), src@);
            let cur = j_sigs(sigs@.take(i + 1), src@);
            match j_sig_opt(sigs@[i as int], src@) {
                Option::Some(piece) => {
                    assert(cur =~~= prev.push(piece));
                    lemma_join_push(prev, piece);
                },
                Option::None => {
                    assert(cur =~~= prev);
                },
            }
            assert(out@ =~= old(out)@ + "[".spec_bytes() + join_comma(cur));
        }
        i += 1;
    }
    proof {
        assert(sigs@.take(sigs@.len() as int) == sigs@);
    }
    push_lit(out, "]".as_bytes());
    proof {
        assert(final(out)@ =~= old(out)@ + j_sig_arr(sigs@, src@));
    }
}

// ---------------------------------------------------------------------------
// Verbatim-text arrays over lists of spans.

/// The verbatim texts of a list of spans.
pub open spec fn snips_of(spans: Seq<RawSpan>, src: Seq<u8>) -> Seq<Seq<u8>> {
    spans.map_values(|sp: RawSpan| snip(src, sp))
}

/// Appends a JSON array of the verbatim texts of the given spans.
#[verifier::loop_isolation(false)]
pub fn emit_snip_arr(out: &mut Vec<u8>, spans: &Vec<RawSpan>, src: &Vec<u8>)
    requires
        crate::ast::wf_spans(spans@, src@.len() as int),
    ensures
        final(out)@ == old(out)@ + jstr_arr(snips_of(spans@, src@)),
{
    push_lit(out, "[".as_bytes());
    let mut i: usize = 0;
    while i < spans.len()
        invariant
            0 <= i <= spans@.len(),
            out@ == old(out)@ + "[".spec_bytes() + join_comma(
                snips_of(spans@.take(i as int), src@).map_values(|x: Seq<u8>| jstr(x)),
            ),
        decreases spans@.len() - i,
    {
        if i > 0 {
            push_lit(out, ",".as_bytes());
        }
        let t = snippet(src, spans[i]);
        push_jstr(out, &t);
        proof {
            let prev = snips_of(spans@.take(i as int), src@).map_values(|x: Seq<u8>| jstr(x));
            let cur = snips_of(spans@.take(i + 1), src@).map_values(|x: Seq<u8>| jstr(x));
            assert(cur =~~= prev.push(jstr(snip(src@, spans@[i as int]))));
            lemma_join_push(prev, jstr(snip(src@, spans@[i as int])));
            assert(prev.len() == i);
            assert(out@ =~= old(out)@ + "[".spec_bytes() + join_comma(cur));
        }
        i += 1;
    }
    proof {
        assert(spans@.take(spans@.len() as int) == spans@);
    }
    push_lit(out, "]".as_bytes());
    proof {
        reveal(jstr_arr);
        assert(final(out)@ =~= old(out)@ + jstr_arr(snips_of(spans@, src@)));
    }
}

// ---------------------------------------------------------------------------
// Class members.

/// The key text of a class member or object-literal key: an identifier's
/// name, a string key's value, the decimal text of a numeric or big-integer
/// key, or the verbatim source of a computed key.
pub open spec fn member_key_text(k: MemberKey, src: Seq<u8>) -> Seq<u8> {
    match k {
        MemberKey::KeyIdent(n) => n@,
        MemberKey::KeyText(t) => t@,
        MemberKey::KeyNum(t) => t@,
        MemberKey::KeyBig(t) => t@,
        MemberKey::KeyComputed(sp) => snip(src, sp),
    }
}

/// A rendered method member.
pub open spec fn j_m_method(
    span: RawSpan,
    key: Seq<u8>,
    is_static: bool,
    is_async: bool,
    is_generator: bool,
    src: Seq<u8>,
) -> Seq<u8> {
    "{\"kind\":\"Method\",".spec_bytes() + j_node(span, src) + ",\"key\":".spec_bytes() + jstr(key)
        + ",\"is_static\":".spec_bytes() + jbool(is_static) + ",\"async\":".spec_bytes() + jbool(
        is_async,
    ) + ",\"generator\":".spec_bytes() + jbool(is_generator) + "}".spec_bytes()
}

/// A rendered getter or setter member.
pub open spec fn j_m_accessor(
    kind_word: Seq<u8>,
    span: RawSpan,
    key: Seq<u8>,
    is_static: bool,
    src: Seq<u8>,
) -> Seq<u8> {
    "{\"kind\":\"".spec_bytes() + kind_word + "\",".spec_bytes() + j_node(span, src)
        + ",\"key\":".spec_bytes() + jstr(key) + ",\"is_static\":".spec_bytes() + jbool(is_static)
        + "}".spec_bytes()
}

/// A rendered property member.
pub open spec fn j_m_prop(span: RawSpan, key: Seq<u8>, is_static: bool, src: Seq<u8>) -> Seq<u8> {
    "{\"kind\":\"Property\",".spec_bytes() + j_node(span, src) + ",\"key\":".spec_bytes() + jstr(
        key,
    ) + ",\"is_static\":".spec_bytes() + jbool(is_static) + "}".spec_bytes()
}

/// A rendered member that carries only its position.
pub open spec fn j_m_bare(kind_word: Seq<u8>, span: RawSpan, src: Seq<u8>) -> Seq<u8> {
    "{\"kind\":\"".spec_bytes() + kind_word + "\",".spec_bytes() + j_node(span, src)
        + "}".spec_bytes()
}

/// One rendered class member. Private members resolve their key to the
/// verbatim source of the whole member; a member of an unknown kind degrades
/// to a property record with an empty key.
pub open spec fn j_member(m: MemberNode, src: Seq<u8>) -> Seq<u8> {
    match m {
        MemberNode::CtorMember { span } => j_m_bare("Constructor".spec_bytes(), span, src),
        MemberNode::MethodMember { span, key, is_static, is_async, is_generator, sort } => match sort {
            MethodSort::PlainMethod => j_m_method(
                span,
                member_key_text(key, src),
                is_static,
                is_async,
                is_generator,
                src,
            ),
            MethodSort::GetterMethod => j_m_accessor(
                "Getter".spec_bytes(),
                span,
                member_key_text(key, src),
                is_static,
                src,
            ),
            MethodSort::SetterMethod => j_m_accessor(
                "Setter".spec_bytes(),
                span,
                member_key_text(key, src),
                is_static,
                src,
            ),
        },
        MemberNode::PrivateMethodMember { span, is_static, is_async, is_generator } => j_m_method(
            span,
            snip(src, span),
            is_static,
            is_async,
            is_generator,
            src,
        ),
        MemberNode::PropMember { span, key, is_static } => j_m_prop(
            span,
            member_key_text(key, src),
            is_static,
            src,
        ),
        MemberNode::PrivatePropMember { span, is_static } => j_m_prop(
            span,
            snip(src, span),
            is_static,
            src,
        ),
        MemberNode::StaticBlockMember { span } => j_m_bare("StaticBlock".spec_bytes(), span, src),
        MemberNode::OtherMember { span } => j_m_prop(span, Seq::<u8>::empty(), false, src),
    }
}

/// The key text of a class member.
pub fn get_member_key_text(k: &MemberKey, src: &Vec<u8>) -> (r: Vec<u8>)
    requires
        wf_member_key(*k, src@.len() as int),
    ensures
        r@ == member_key_text(*k, src@),
{
    match k {
        MemberKey::KeyIdent(n) => dup_bytes(n),
        MemberKey::KeyText(t) => dup_bytes(t),
        MemberKey::KeyNum(t) => dup_bytes(t),
        MemberKey::KeyBig(t) => dup_bytes(t),
        MemberKey::KeyComputed(sp) => snippet(src, *sp),
    }
}

#[verifier::rlimit(100)]
#[verifier::spinoff_prover]
fn emit_m_method(
    out: &mut Vec<u8>,
    span: RawSpan,
    key: &Vec<u8>,
    is_static: bool,
    is_async: bool,
    is_generator: bool,
    src: &Vec<u8>,
)
    requires
        wf_span(span, src@.len() as int),
        fits_source(src@.len() as int),
    ensures
        final(out)@ == old(out)@ + j_m_method(span, key@, is_static, is_async, is_generator, src@),
{
    push_lit(out, "{\"kind\":\"Method\",".as_bytes());
    push_node(out, span, src);
    push_lit(out, ",\"key\":".as_bytes());
    push_jstr(out, key);
    push_lit(out, ",\"is_static\":".as_bytes());
    push_bool(out, is_static);
    push_lit(out, ",\"async\":".as_bytes());
    push_bool(out, is_async);
    push_lit(out, ",\"generator\":".as_bytes());
    push_bool(out, is_generator);
    push_lit(out, "}".as_bytes());
    proof {
        assert(final(out)@ =~= old(out)@ + j_m_method(
            span,
            key@,
            is_static,
            is_async,
            is_generator,
            src@,
        ));
    }
}

#[verifier::rlimit(100)]
#[verifier::spinoff_prover]
fn emit_m_accessor(
    out: &mut Vec<u8>,
    getter: bool,
    span: RawSpan,
    key: &Vec<u8>,
    is_static: bool,
    src: &Vec<u8>,
)
    requires
        wf_span(span, src@.len() as int),
        fits_source(src@.len() as int),
    ensures
        final(out)@ == old(out)@ + j_m_accessor(
            if getter {
                "Getter".spec_bytes()
            } else {
                "Setter".spec_bytes()
            },
            span,
            key@,
            is_static,
            src@,
        ),
{
    if getter {
        push_lit(out, "{\"kind\":\"".as_bytes());
        push_lit(out, "Getter".as_bytes());
    } else {
        push_lit(out, "{\"kind\":\"".as_bytes());
        push_lit(out, "Setter".as_bytes());
    }
    push_lit(out, "\",".as_bytes());
    push_node(out, span, src);
    push_lit(out, ",\"key\":".as_bytes());
    push_jstr(out, key);
    push_lit(out, ",\"is_static\":".as_bytes());
    push_bool(out, is_static);
    push_lit(out, "}".as_bytes());
    proof {
        assert(final(out)@ =~= old(out)@ + j_m_accessor(
            if getter {
                "Getter".spec_bytes()
            } else {
                "Setter".spec_bytes()
            },
            span,
            key@,
            is_static,
            src@,
        ));
    }
}

#[verifier::rlimit(100)]
#[verifier::spinoff_prover]
fn emit_m_prop(out: &mut Vec<u8>, span: RawSpan, key: &Vec<u8>, is_static: bool, src: &Vec<u8>)
    requires
        wf_span(span, src@.len() as int),
        fits_source(src@.len() as int),
    ensures
        final(out)@ == old(out)@ + j_m_prop(span, key@, is_static, src@),
{
    push_lit(out, "{\"kind\":\"Property\",".as_bytes());
    push_node(out, span, src);
    push_lit(out, ",\"key\":".as_bytes());
    push_jstr(out, key);
    push_lit(out, ",\"is_static\":".as_bytes());
    push_bool(out, is_static);
    push_lit(out, "}".as_bytes());
    proof {
        assert(final(out)@ =~= old(out)@ + j_m_prop(span, key@, is_static, src@));
    }
}

/// Appends one rendered class member.
fn emit_member(out: &mut Vec<u8>, m: &MemberNode, src: &Vec<u8>)
    requires
        wf_member(*m, src@.len() as int),
        fits_source(src@.len() as int),
    ensures
        final(out)@ == old(out)@ + j_member(*m, src@),
{
    match m {
        MemberNode::CtorMember { span } => {
            push_lit(out, "{\"kind\":\"".as_bytes());
            push_lit(out, "Constructor".as_bytes());
            push_lit(out, "\",".as_bytes());
            push_node(out, *span, src);
            push_lit(out, "}".as_bytes());
            proof {
                assert(out@ =~= old(out)@ + j_m_bare("Constructor".spec_bytes(), *span, src@));
            }
        },
        MemberNode::MethodMember { span, key, is_static, is_async, is_generator, sort } => {
            let kt = get_member_key_text(key, src);
            match sort {
                MethodSort::PlainMethod => {
                    emit_m_method(out, *span, &kt, *is_static, *is_async, *is_generator, src);
                },
                MethodSort::GetterMethod => {
                    emit_m_accessor(out, true, *span, &kt, *is_static, src);
                },
                MethodSort::SetterMethod => {
                    emit_m_accessor(out, false, *span, &kt, *is_static, src);
                },
            }
        },
        MemberNode::PrivateMethodMember { span, is_static, is_async, is_generator } => {
            let kt = snippet(src, *span);
            emit_m_method(out, *span, &kt, *is_static, *is_async, *is_generator, src);
        },
        MemberNode::PropMember { span, key, is_static } => {
            let kt = get_member_key_text(key, src);
            emit_m_prop(out, *span, &kt, *is_static, src);
        },
        MemberNode::PrivatePropMember { span, is_static } => {
            let kt = snippet(src, *span);
            emit_m_prop(out, *span, &kt, *is_static, src);
        },
        MemberNode::StaticBlockMember { span } => {
            push_lit(out, "{\"kind\":\"".as_bytes());
            push_lit(out, "StaticBlock".as_bytes());
            push_lit(out, "\",".as_bytes());
            push_node(out, *span, src);
            push_lit(out, "}".as_bytes());
            proof {
                assert(out@ =~= old(out)@ + j_m_bare("StaticBlock".spec_bytes(), *span, src@));
            }
        },
        MemberNode::OtherMember { span } => {
            let kt: Vec<u8> = Vec::new();
            emit_m_prop(out, *span, &kt, false, src);
        },
    }
}

/// Appends the JSON array of a class body's members, in declaration order.
#[verifier::loop_isolation(false)]
pub fn emit_member_arr(out: &mut Vec<u8>, members: &Vec<MemberNode>, src: &Vec<u8>)
    requires
        forall|i: int|
            0 <= i < members@.len() ==> wf_member(#[trigger] members@[i], src@.len() as int),
        fits_source(src@.len() as int),
    ensures
        final(out)@ == old(out)@ + "[".spec_bytes() + join_comma(
            members@.map_values(|m: MemberNode| j_member(m, src@)),
        ) + "]".spec_bytes(),
{
    push_lit(out, "[".as_bytes());
    let mut i: usize = 0;
    while i < members.len()
        invariant
            0 <= i <= members@.len(),
            out@ == old(out)@ + "[".spec_bytes() + join_comma(
                members@.take(i as int).map_values(|m: MemberNode| j_member(m, src@)),
            ),
        decreases members@.len() - i,
    {
        if i > 0 {
            push_lit(out, ",".as_bytes());
        }
        emit_member(out, &members[i], src);
        proof {
            let f = |m: MemberNode| j_member(m, src@);
            let prev = members@.take(i as int).map_values(f);
            let cur = members@.take(i + 1).map_values(f);
            assert(cur =~~= prev.push(j_member(members@[i as int], src@)));
            lemma_join_push(prev, j_member(members@[i as int], src@));
            assert(prev.len() == i);
            assert(out@ =~= old(out)@ + "[".spec_bytes() + join_comma(cur));
        }
        i += 1;
    }
    proof {
        assert(members@.take(members@.len() as int) == members@);
    }
    push_lit(out, "]".as_bytes());
}

// ---------------------------------------------------------------------------
// Function parameters.

/// The name a parameter descriptor carries: a plain identifier, the
/// identifier under a default or rest wrapper, or — for destructuring and
/// other shapes — the verbatim source of the whole parameter pattern.
pub open spec fn param_name(p: PatNode, src: Seq<u8>) -> Option<Seq<u8>> {
    match p {
        PatNode::IdentPat { name, .. } => Option::Some(name@),
        PatNode::AssignPat { left, .. } => match *left {
            PatNode::IdentPat { name, .. } => Option::Some(name@),
            _ => Option::None,
        },
        PatNode::RestPat { arg, .. } => match *arg {
            PatNode::IdentPat { name, .. } => Option::Some(name@),
            _ => Option::None,
        },
        PatNode::ArrayPat { span, .. } => Option::Some(snip(src, span)),
        PatNode::ObjectPat { span, .. } => Option::Some(snip(src, span)),
        PatNode::OtherPat { span } => Option::Some(snip(src, span)),
    }
}

/// The default text of a parameter, present exactly for default wrappers.
pub open spec fn param_default(p: PatNode, src: Seq<u8>) -> Option<Seq<u8>> {
    match p {
        PatNode::AssignPat { right_span, .. } => Option::Some(snip(src, right_span)),
        _ => Option::None,
    }
}

/// The type-annotation text of a parameter, captured only for plain
/// identifier parameters.
pub open spec fn param_type_ann(p: PatNode, src: Seq<u8>) -> Option<Seq<u8>> {
    match p {
        PatNode::IdentPat { type_ann, .. } => opt_snip(type_ann, src),
        _ => Option::None,
    }
}

/// One rendered parameter descriptor.
pub open spec fn j_param(p: PatNode, src: Seq<u8>) -> Seq<u8> {
    "{\"name\":".spec_bytes() + jopt_str(param_name(p, src)) + ",\"default_text\":".spec_bytes()
        + jopt_str(param_default(p, src)) + ",\"is_rest\":".spec_bytes() + jbool(
        p matches PatNode::RestPat { .. },
    ) + ",\"type_ann_text\":".spec_bytes() + jopt_str(param_type_ann(p, src)) + "}".spec_bytes()
}

fn get_param_name(p: &PatNode, src: &Vec<u8>) -> (r: Option<Vec<u8>>)
    requires
        wf_pat(*p, src@.len() as int),
    ensures
        opt_view(r) == param_name(*p, src@),
{
    match p {
        PatNode::IdentPat { name, .. } => Option::Some(dup_bytes(name)),
        PatNode::AssignPat { left, .. } => match &**left {
            PatNode::IdentPat { name, .. } => Option::Some(dup_bytes(name)),
            _ => Option::None,
        },
        PatNode::RestPat { arg, .. } => match &**arg {
            PatNode::IdentPat { name, .. } => Option::Some(dup_bytes(name)),
            _ => Option::None,
        },
        PatNode::ArrayPat { span, .. } => Option::Some(snippet(src, *span)),
        PatNode::ObjectPat { span, .. } => Option::Some(snippet(src, *span)),
        PatNode::OtherPat { span } => Option::Some(snippet(src, *span)),
    }
}

/// Appends one rendered parameter descriptor.
#[verifier::rlimit(100)]
#[verifier::spinoff_prover]
fn emit_param(out: &mut Vec<u8>, p: &PatNode, src: &Vec<u8>)
    requires
        wf_pat(*p, src@.len() as int),
    ensures
        final(out)@ == old(out)@ + j_param(*p, src@),
{
    push_lit(out, "{\"name\":".as_bytes());
    let name = get_param_name(p, src);
    push_opt_jstr(out, &name);
    push_lit(out, ",\"default_text\":".as_bytes());
    let def = match p {
        PatNode::AssignPat { right_span, .. } => Option::Some(snippet(src, *right_span)),
        _ => Option::None,
    };
    push_opt_jstr(out, &def);
    push_lit(out, ",\"is_rest\":".as_bytes());
    let is_rest = match p {
        PatNode::RestPat { .. } => true,
        _ => false,
    };
    push_bool(out, is_rest);
    push_lit(out, ",\"type_ann_text\":".as_bytes());
    let ta = match p {
        PatNode::IdentPat { type_ann, .. } => get_opt_snip(type_ann, src),
        _ => Option::None,
    };
    push_opt_jstr(out, &ta);
    push_lit(out, "}".as_bytes());
    proof {
        assert(final(out)@ =~= old(out)@ + j_param(*p, src@));
    }
}

pub proof fn lemma_wf_pats_index(s: Seq<PatNode>, len: int, i: int)
    requires
        wf_pats(s, len),
        0 <= i < s.len(),
    ensures
        wf_pat(s[i], len),
    decreases s.len(),
{
    if i < s.len() - 1 {
        lemma_wf_pats_index(s.drop_last(), len, i);
    }
}

/// Appends the JSON array of a function's parameter descriptors, in order.
#[verifier::loop_isolation(false)]
pub fn emit_param_arr(out: &mut Vec<u8>, params: &Vec<PatNode>, src: &Vec<u8>)
    requires
        wf_pats(params@, src@.len() as int),
    ensures
        final(out)@ == old(out)@ + "[".spec_bytes() + join_comma(
            params@.map_values(|p: PatNode| j_param(p, src@)),
        ) + "]".spec_bytes(),
{
    push_lit(out, "[".as_bytes());
    let mut i: usize = 0;
    while i < params.len()
        invariant
            0 <= i <= params@.len(),
            out@ == old(out)@ + "[".spec_bytes() + join_comma(
                params@.take(i as int).map_values(|p: PatNode| j_param(p, src@)),
            ),
        decreases params@.len() - i,
    {
        if i > 0 {
            push_lit(out, ",".as_bytes());
        }
        proof {
            lemma_wf_pats_index(params@, src@.len() as int, i as int);
        }
        emit_param(out, &params[i], src);
        proof {
            let f = |p: PatNode| j_param(p, src@);
            let prev = params@.take(i as int).map_values(f);
            let cur = params@.take(i + 1).map_values(f);
            assert(cur =~~= prev.push(j_param(params@[i as int], src@)));
            lemma_join_push(prev, j_param(params@[i as int], src@));
            assert(prev.len() == i);
            assert(out@ =~= old(out)@ + "[".spec_bytes() + join_comma(cur));
        }
        i += 1;
    }
    proof {
        assert(params@.take(params@.len() as int) == params@);
    }
    push_lit(out, "]".as_bytes());
}

// ---------------------------------------------------------------------------
// Type reference names.

/// The rendered name of a type reference: the identifier itself, a one-step
/// qualified name joined with a dot, or the verbatim source of a deeper
/// qualified name.
pub open spec fn ref_name_text(n: RefName, src: Seq<u8>) -> Seq<u8> {
    match n {
        RefName::PlainRef(name) => name@,
        RefName::DottedRef { left, right } => left@ + ".".spec_bytes() + right@,
        RefName::DeepRef { span } => snip(src, span),
    }
}

/// The rendered name of a type reference.
pub fn get_ref_name_text(n: &RefName, src: &Vec<u8>) -> (r: Vec<u8>)
    requires
        match *n {
            RefName::DeepRef { span } => wf_span(span, src@.len() as int),
            _ => true,
        },
    ensures
        r@ == ref_name_text(*n, src@),
{
    match n {
        RefName::PlainRef(name) => dup_bytes(name),
        RefName::DottedRef { left, right } => {
            let mut v = dup_bytes(left);
            push_lit(&mut v, ".".as_bytes());
            let mut i: usize = 0;
            while i < right.len()
                invariant
                    0 <= i <= right@.len(),
                    v@ == left@ + ".".spec_bytes() + right@.take(i as int),
                decreases right@.len() - i,
            {
                v.push(right[i]);
                proof {
                    assert(right@.take(i + 1) == right@.take(i as int).push(right@[i as int]));
                }
                i += 1;
            }
            proof {
                assert(right@.take(right@.len() as int) == right@);
            }
            v
        },
        RefName::DeepRef { span } => snippet(src, *span),
    }
}

} // verus!
