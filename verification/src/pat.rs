use vstd::prelude::*;

verus! {

use vstd::string::StringSliceAdditionalSpecFns;
use crate::pos::{RawSpan, snip, snippet, wf_span};
use crate::ast::{PatNode, ObjProp, PatKey, wf_pat, wf_elems, wf_props, wf_prop, wf_pat_key, wf_opt_span};
use crate::jout::{
    jstr, jopt_str, jbool, join_comma, dec_of, opt_view, push_lit, push_jstr, push_opt_jstr,
    push_u32, push_bool,
};

/// The verbatim source of an optional span.
pub open spec fn opt_snip(o: Option<RawSpan>, src: Seq<u8>) -> Option<Seq<u8>> {
    match o {
        Option::None => Option::None,
        Option::Some(sp) => Option::Some(snip(src, sp)),
    }
}

/// The text an object-pattern key resolves to: an identifier's name, a
/// string key's value, or the verbatim source of any other key shape.
pub open spec fn pat_key_text(k: PatKey, src: Seq<u8>) -> Seq<u8> {
    match k {
        PatKey::IdentKey(n) => n@,
        PatKey::TextKey(t) => t@,
        PatKey::OtherKey(sp) => snip(src, sp),
    }
}

// ---------------------------------------------------------------------------
// Flattened bound names, depth first and left to right.

/// Every identifier a pattern binds, depth first, left to right. Shorthand
/// object properties bind their key; rest and default wrappers bind through
/// their inner pattern; expression and invalid patterns bind nothing.
pub open spec fn names_of_pat(p: PatNode) -> Seq<Seq<u8>>
    decreases p,
{
    match p {
        PatNode::IdentPat { name, .. } => seq![name@],
        PatNode::ArrayPat { elems, .. } => names_of_elems(elems@),
        PatNode::ObjectPat { props, .. } => names_of_props(props@),
        PatNode::RestPat { arg, .. } => names_of_pat(*arg),
        PatNode::AssignPat { left, .. } => names_of_pat(*left),
        PatNode::OtherPat { .. } => Seq::empty(),
    }
}

pub open spec fn names_of_elems(s: Seq<Option<PatNode>>) -> Seq<Seq<u8>>
    decreases s,
{
    if s.len() == 0 {
        Seq::empty()
    } else {
        names_of_elems(s.drop_last()) + match s.last() {
            Option::None => Seq::<Seq<u8>>::empty(),
            Option::Some(p) => names_of_pat(p),
        }
    }
}

pub open spec fn names_of_props(s: Seq<ObjProp>) -> Seq<Seq<u8>>
    decreases s,
{
    if s.len() == 0 {
        Seq::empty()
    } else {
        names_of_props(s.drop_last()) + match s.last() {
            ObjProp::KeyValueProp { value, .. } => names_of_pat(*value),
            ObjProp::ShorthandProp { key, .. } => seq![key@],
            ObjProp::RestProp { arg, .. } => names_of_pat(*arg),
        }
    }
}

// ---------------------------------------------------------------------------
// An explicit size measure for patterns, used as the termination measure of
// the executable recursions.

pub open spec fn pat_height(p: PatNode) -> nat
    decreases p,
{
    match p {
        PatNode::IdentPat { .. } => 0,
        PatNode::ArrayPat { elems, .. } => 1 + elems_height(elems@),
        PatNode::ObjectPat { props, .. } => 1 + props_height(props@),
        PatNode::RestPat { arg, .. } => 1 + pat_height(*arg),
        PatNode::AssignPat { left, .. } => 1 + pat_height(*left),
        PatNode::OtherPat { .. } => 0,
    }
}

pub open spec fn opt_pat_height(o: Option<PatNode>) -> nat
    decreases o,
{
    match o {
        Option::None => 0,
        Option::Some(p) => 1 + pat_height(p),
    }
}

pub open spec fn elems_height(s: Seq<Option<PatNode>>) -> nat
    decreases s,
{
    if s.len() == 0 {
        0
    } else {
        elems_height(s.drop_last()) + opt_pat_height(s.last())
    }
}

pub open spec fn prop_height(p: ObjProp) -> nat
    decreases p,
{
    match p {
        ObjProp::KeyValueProp { value, .. } => 1 + pat_height(*value),
        ObjProp::ShorthandProp { .. } => 0,
        ObjProp::RestProp { arg, .. } => 1 + pat_height(*arg),
    }
}

pub open spec fn props_height(s: Seq<ObjProp>) -> nat
    decreases s,
{
    if s.len() == 0 {
        0
    } else {
        props_height(s.drop_last()) + prop_height(s.last())
    }
}

pub proof fn lemma_elems_height(s: Seq<Option<PatNode>>, i: int)
    requires
        0 <= i < s.len(),
    ensures
        opt_pat_height(s[i]) <= elems_height(s),
    decreases s.len(),
{
    if i == s.len() - 1 {
    } else {
        lemma_elems_height(s.drop_last(), i);
    }
}

pub proof fn lemma_props_height(s: Seq<ObjProp>, i: int)
    requires
        0 <= i < s.len(),
    ensures
        prop_height(s[i]) <= props_height(s),
    decreases s.len(),
{
    if i == s.len() - 1 {
    } else {
        lemma_props_height(s.drop_last(), i);
    }
}

/// Copies a byte string.
pub fn dup_bytes(v: &Vec<u8>) -> (r: Vec<u8>)
    ensures
        r@ == v@,
{
    let mut r: Vec<u8> = Vec::new();
    let mut i: usize = 0;
    while i < v.len()
        invariant
            0 <= i <= v@.len(),
            r@ == v@.take(i as int),
        decreases v@.len() - i,
    {
        r.push(v[i]);
        proof {
            assert(v@.take(i + 1) == v@.take(i as int).push(v@[i as int]));
        }
        i += 1;
    }
    proof {
        assert(v@.take(v@.len() as int) == v@);
    }
    r
}

/// Appends every name a pattern binds, depth first, left to right.
#[verifier::loop_isolation(false)]
pub fn collect_pat_idents(p: &PatNode, out: &mut Vec<Vec<u8>>)
    ensures
        final(out).deep_view() == old(out).deep_view() + names_of_pat(*p),
    decreases pat_height(*p),
{
    match p {
        PatNode::IdentPat { name, .. } => {
            out.push(dup_bytes(name));
            proof {
                assert(final(out).deep_view() =~~= old(out).deep_view() + names_of_pat(*p));
            }
        },
        PatNode::ArrayPat { elems, .. } => {
            let ghost entry = out.deep_view();
            let mut i: usize = 0;
            while i < elems.len()
                invariant
                    0 <= i <= elems@.len(),
                    out.deep_view() == entry + names_of_elems(elems@.take(i as int)),
                decreases elems@.len() - i,
            {
                match &elems[i] {
                    Option::None => {},
                    Option::Some(inner) => {
                        proof {
                            lemma_elems_height(elems@, i as int);
                        }
                        collect_pat_idents(inner, out);
                    },
                }
                proof {
                    assert(elems@.take(i + 1).drop_last() =~= elems@.take(i as int));
                    assert(elems@.take(i + 1).last() == elems@[i as int]);
                }
                i += 1;
            }
            proof {
                assert(elems@.take(elems@.len() as int) == elems@);
            }
        },
        PatNode::ObjectPat { props, .. } => {
            let ghost entry = out.deep_view();
            let mut i: usize = 0;
            while i < props.len()
                invariant
                    0 <= i <= props@.len(),
                    out.deep_view() == entry + names_of_props(props@.take(i as int)),
                decreases props@.len() - i,
            {
                match &props[i] {
                    ObjProp::KeyValueProp { value, .. } => {
                        proof {
                            lemma_props_height(props@, i as int);
                        }
                        collect_pat_idents(value, out);
                    },
                    ObjProp::ShorthandProp { key, .. } => {
                        let dup = dup_bytes(key);
                        let ghost pre = out.deep_view();
                        proof {
                            assert(dup.deep_view() =~= key@);
                        }
                        out.push(dup);
                        proof {
                            assert(out.deep_view() =~~= pre.push(key@));
                            assert(out.deep_view() =~~= entry + (names_of_props(
                                props@.take(i as int),
                            ) + seq![key@]));
                        }
                    },
                    ObjProp::RestProp { arg, .. } => {
                        proof {
                            lemma_props_height(props@, i as int);
                        }
                        collect_pat_idents(arg, out);
                    },
                }
                proof {
                    assert(props@.take(i + 1).drop_last() =~= props@.take(i as int));
                    assert(props@.take(i + 1).last() == props@[i as int]);
                }
                i += 1;
            }
            proof {
                assert(props@.take(props@.len() as int) == props@);
            }
        },
        PatNode::RestPat { arg, .. } => {
            collect_pat_idents(arg, out);
        },
        PatNode::AssignPat { left, .. } => {
            collect_pat_idents(left, out);
        },
        PatNode::OtherPat { .. } => {},
    }
}

// ---------------------------------------------------------------------------
// Structured array patterns.

/// The name an array-pattern slot binds directly: a plain identifier, the
/// identifier under a default wrapper, or the identifier under a rest
/// wrapper; nothing for holes and for any deeper shape.
pub open spec fn arr_slot_name(p: Option<PatNode>) -> Option<Seq<u8>> {
    match p {
        Option::Some(PatNode::IdentPat { name, .. }) => Option::Some(name@),
        Option::Some(PatNode::AssignPat { left, .. }) => match *left {
            PatNode::IdentPat { name, .. } => Option::Some(name@),
            _ => Option::None,
        },
        Option::Some(PatNode::RestPat { arg, .. }) => match *arg {
            PatNode::IdentPat { name, .. } => Option::Some(name@),
            _ => Option::None,
        },
        _ => Option::None,
    }
}

/// The default text of an array-pattern slot, present exactly for default
/// wrappers.
pub open spec fn arr_slot_default(p: Option<PatNode>, src: Seq<u8>) -> Option<Seq<u8>> {
    match p {
        Option::Some(PatNode::AssignPat { right_span, .. }) => Option::Some(snip(src, right_span)),
        _ => Option::None,
    }
}

pub open spec fn arr_slot_rest(p: Option<PatNode>) -> bool {
    match p {
        Option::Some(PatNode::RestPat { .. }) => true,
        _ => false,
    }
}

/// One element of a structured array pattern.
pub open spec fn j_arr_elem(p: Option<PatNode>, i: nat, src: Seq<u8>) -> Seq<u8> {
    "{\"name\":".spec_bytes() + jopt_str(arr_slot_name(p)) + ",\"default_text\":".spec_bytes()
        + jopt_str(arr_slot_default(p, src)) + ",\"is_rest\":".spec_bytes() + jbool(
        arr_slot_rest(p),
    ) + ",\"index\":".spec_bytes() + dec_of(i) + "}".spec_bytes()
}

/// The elements of a structured array pattern, in slot order.
pub open spec fn j_arr_elems(s: Seq<Option<PatNode>>, src: Seq<u8>) -> Seq<Seq<u8>>
    decreases s,
{
    if s.len() == 0 {
        Seq::empty()
    } else {
        j_arr_elems(s.drop_last(), src).push(j_arr_elem(s.last(), (s.len() - 1) as nat, src))
    }
}

/// A structured array pattern.
#[verifier::opaque]
pub open spec fn j_arr_pat(
    elems: Seq<Option<PatNode>>,
    type_ann: Option<RawSpan>,
    src: Seq<u8>,
) -> Seq<u8> {
    "{\"elements\":[".spec_bytes() + join_comma(j_arr_elems(elems, src))
        + "],\"pattern_type_ann_text\":".spec_bytes() + jopt_str(opt_snip(type_ann, src))
        + "}".spec_bytes()
}

// ---------------------------------------------------------------------------
// Structured object patterns.

/// The alias a key-value property binds directly: the identifier, or the
/// identifier under a default wrapper; nothing for deeper shapes.
pub open spec fn kv_alias(v: PatNode) -> Option<Seq<u8>> {
    match v {
        PatNode::IdentPat { name, .. } => Option::Some(name@),
        PatNode::AssignPat { left, .. } => match *left {
            PatNode::IdentPat { name, .. } => Option::Some(name@),
            _ => Option::None,
        },
        _ => Option::None,
    }
}

/// The default text of a key-value property's value, present exactly for
/// default wrappers.
pub open spec fn kv_default(v: PatNode, src: Seq<u8>) -> Option<Seq<u8>> {
    match v {
        PatNode::AssignPat { right_span, .. } => Option::Some(snip(src, right_span)),
        _ => Option::None,
    }
}

/// A structured object pattern (also the shape of a nested one).
#[verifier::opaque]
pub open spec fn j_obj_pat(
    props: Seq<ObjProp>,
    type_ann: Option<RawSpan>,
    src: Seq<u8>,
) -> Seq<u8>
    decreases props, 1int,
{
    "{\"properties\":[".spec_bytes() + join_comma(j_props(props, src))
        + "],\"pattern_type_ann_text\":".spec_bytes() + jopt_str(opt_snip(type_ann, src))
        + "}".spec_bytes()
}

/// The properties of a structured object pattern that are kept: a rest
/// property whose argument is no plain identifier is dropped.
pub open spec fn j_props(props: Seq<ObjProp>, src: Seq<u8>) -> Seq<Seq<u8>>
    decreases props, 0int,
{
    if props.len() == 0 {
        Seq::empty()
    } else {
        j_props(props.drop_last(), src) + match j_prop_opt(props.last(), src) {
            Option::Some(j) => seq![j],
            Option::None => Seq::<Seq<u8>>::empty(),
        }
    }
}

/// One structured key-value property.
pub open spec fn j_kv_prop(key: PatKey, value: PatNode, src: Seq<u8>) -> Seq<u8>
    decreases value, 3int,
{
    "{\"key\":".spec_bytes() + jstr(pat_key_text(key, src)) + ",\"alias\":".spec_bytes()
        + jopt_str(kv_alias(value)) + ",\"default_text\":".spec_bytes() + jopt_str(
        kv_default(value, src),
    ) + ",\"nested\":".spec_bytes() + (match value {
        PatNode::ObjectPat { props: np, type_ann: nta, .. } => j_obj_pat(np@, nta, src),
        _ => "null".spec_bytes(),
    }) + "}".spec_bytes()
}

/// One structured object-pattern property, when the property is kept.
pub open spec fn j_prop_opt(p: ObjProp, src: Seq<u8>) -> Option<Seq<u8>>
    decreases p, 2int,
{
    match p {
        ObjProp::KeyValueProp { key, value } => Option::Some(j_kv_prop(key, *value, src)),
        ObjProp::ShorthandProp { key, default_span } => Option::Some(
            "{\"key\":".spec_bytes() + jstr(key@) + ",\"alias\":".spec_bytes() + jstr(key@)
                + ",\"default_text\":".spec_bytes() + jopt_str(opt_snip(default_span, src))
                + ",\"nested\":null}".spec_bytes(),
        ),
        ObjProp::RestProp { arg, span } => match *arg {
            PatNode::IdentPat { name, .. } => Option::Some(
                "{\"key\":".spec_bytes() + jstr(snip(src, span)) + ",\"alias\":".spec_bytes()
                    + jstr(name@) + ",\"default_text\":null,\"nested\":null}".spec_bytes(),
            ),
            _ => Option::None,
        },
    }
}

// ---------------------------------------------------------------------------
// Well-formedness carries down to the members of a pattern list.

pub proof fn lemma_wf_elems_index(s: Seq<Option<PatNode>>, len: int, i: int)
    requires
        wf_elems(s, len),
        0 <= i < s.len(),
    ensures
        match s[i] {
            Option::None => true,
            Option::Some(p) => wf_pat(p, len),
        },
    decreases s.len(),
{
    if i < s.len() - 1 {
        lemma_wf_elems_index(s.drop_last(), len, i);
    }
}

pub proof fn lemma_wf_props_index(s: Seq<ObjProp>, len: int, i: int)
    requires
        wf_props(s, len),
        0 <= i < s.len(),
    ensures
        wf_prop(s[i], len),
    decreases s.len(),
{
    if i < s.len() - 1 {
        lemma_wf_props_index(s.drop_last(), len, i);
    }
}

// ---------------------------------------------------------------------------
// Executable helpers that read a slot's plain name and default text.

/// The verbatim text of an optional span.
pub fn get_opt_snip(o: &Option<RawSpan>, src: &Vec<u8>) -> (r: Option<Vec<u8>>)
    requires
        wf_opt_span(*o, src@.len() as int),
    ensures
        opt_view(r) == opt_snip(*o, src@),
{
    match o {
        Option::None => Option::None,
        Option::Some(sp) => Option::Some(snippet(src, *sp)),
    }
}

fn get_arr_slot_name(p: &Option<PatNode>) -> (r: Option<Vec<u8>>)
    ensures
        opt_view(r) == arr_slot_name(*p),
{
    match p {
        Option::Some(PatNode::IdentPat { name, .. }) => Option::Some(dup_bytes(name)),
        Option::Some(PatNode::AssignPat { left, .. }) => match &**left {
            PatNode::IdentPat { name, .. } => Option::Some(dup_bytes(name)),
            _ => Option::None,
        },
        Option::Some(PatNode::RestPat { arg, .. }) => match &**arg {
            PatNode::IdentPat { name, .. } => Option::Some(dup_bytes(name)),
            _ => Option::None,
        },
        _ => Option::None,
    }
}

fn get_arr_slot_default(p: &Option<PatNode>, src: &Vec<u8>) -> (r: Option<Vec<u8>>)
    requires
        match *p {
            Option::None => true,
            Option::Some(q) => wf_pat(q, src@.len() as int),
        },
    ensures
        opt_view(r) == arr_slot_default(*p, src@),
{
    match p {
        Option::Some(PatNode::AssignPat { right_span, .. }) => Option::Some(
            snippet(src, *right_span),
        ),
        _ => Option::None,
    }
}

/// Appends one element of a structured array pattern.
#[verifier::rlimit(100)]
#[verifier::spinoff_prover]
fn emit_arr_elem(out: &mut Vec<u8>, p: &Option<PatNode>, idx: usize, src: &Vec<u8>)
    requires
        match *p {
            Option::None => true,
            Option::Some(q) => wf_pat(q, src@.len() as int),
        },
    ensures
        final(out)@ == old(out)@ + j_arr_elem(*p, idx as nat, src@),
{
    push_lit(out, "{\"name\":".as_bytes());
    let name = get_arr_slot_name(p);
    push_opt_jstr(out, &name);
    push_lit(out, ",\"default_text\":".as_bytes());
    let def = get_arr_slot_default(p, src);
    push_opt_jstr(out, &def);
    push_lit(out, ",\"is_rest\":".as_bytes());
    let is_rest = match p {
        Option::Some(PatNode::RestPat { .. }) => true,
        _ => false,
    };
    push_bool(out, is_rest);
    push_lit(out, ",\"index\":".as_bytes());
    crate::jout::push_usize(out, idx);
    push_lit(out, "}".as_bytes());
    proof {
        assert(final(out)@ =~= old(out)@ + j_arr_elem(*p, idx as nat, src@));
    }
}

pub proof fn lemma_j_arr_elems_len(s: Seq<Option<PatNode>>, src: Seq<u8>)
    ensures
        j_arr_elems(s, src).len() == s.len(),
    decreases s,
{
    if s.len() > 0 {
        lemma_j_arr_elems_len(s.drop_last(), src);
    }
}

/// Appends a structured array pattern: one element per slot, in order, plus
/// the pattern's own type-annotation text.
#[verifier::loop_isolation(false)]
#[verifier::rlimit(50)]
pub fn emit_arr_pat(
    out: &mut Vec<u8>,
    elems: &Vec<Option<PatNode>>,
    type_ann: &Option<RawSpan>,
    src: &Vec<u8>,
)
    requires
        wf_elems(elems@, src@.len() as int),
        wf_opt_span(*type_ann, src@.len() as int),
    ensures
        final(out)@ == old(out)@ + j_arr_pat(elems@, *type_ann, src@),
{
    push_lit(out, "{\"elements\":[".as_bytes());
    let mut i: usize = 0;
    while i < elems.len()
        invariant
            0 <= i <= elems@.len(),
            out@ == old(out)@ + "{\"elements\":[".spec_bytes() + join_comma(
                j_arr_elems(elems@.take(i as int), src@),
            ),
        decreases elems@.len() - i,
    {
        if i > 0 {
            push_lit(out, ",".as_bytes());
        }
        proof {
            lemma_wf_elems_index(elems@, src@.len() as int, i as int);
        }
        emit_arr_elem(out, &elems[i], i, src);
        proof {
            assert(elems@.take(i + 1).drop_last() =~= elems@.take(i as int));
            assert(elems@.take(i + 1).last() == elems@[i as int]);
            let prev = j_arr_elems(elems@.take(i as int), src@);
            let cur = j_arr_elems(elems@.take(i + 1), src@);
            let piece = j_arr_elem(elems@[i as int], i as nat, src@);
            assert(cur =~~= prev.push(piece));
            assert(cur.drop_last() =~~= prev);
            assert(cur.last() == piece);
            assert(join_comma(cur) == join_comma(prev) + (if prev.len() > 0 {
                ",".spec_bytes()
            } else {
                Seq::<u8>::empty()
            }) + piece);
            lemma_j_arr_elems_len(elems@.take(i as int), src@);
            assert(out@ =~= old(out)@ + "{\"elements\":[".spec_bytes() + join_comma(cur));
        }
        i += 1;
    }
    proof {
        assert(elems@.take(elems@.len() as int) == elems@);
    }
    push_lit(out, "],\"pattern_type_ann_text\":".as_bytes());
    let ta = get_opt_snip(type_ann, src);
    push_opt_jstr(out, &ta);
    push_lit(out, "}".as_bytes());
    proof {
        reveal(j_arr_pat);
        assert(final(out)@ =~= old(out)@ + j_arr_pat(elems@, *type_ann, src@));
    }
}

/// The text an object-pattern key resolves to.
pub fn get_pat_key_text(k: &PatKey, src: &Vec<u8>) -> (r: Vec<u8>)
    requires
        wf_pat_key(*k, src@.len() as int),
    ensures
        r@ == pat_key_text(*k, src@),
{
    match k {
        PatKey::IdentKey(n) => dup_bytes(n),
        PatKey::TextKey(t) => dup_bytes(t),
        PatKey::OtherKey(sp) => snippet(src, *sp),
    }
}

fn get_kv_alias(v: &PatNode) -> (r: Option<Vec<u8>>)
    ensures
        opt_view(r) == kv_alias(*v),
{
    match v {
        PatNode::IdentPat { name, .. } => Option::Some(dup_bytes(name)),
        PatNode::AssignPat { left, .. } => match &**left {
            PatNode::IdentPat { name, .. } => Option::Some(dup_bytes(name)),
            _ => Option::None,
        },
        _ => Option::None,
    }
}

fn get_kv_default(v: &PatNode, src: &Vec<u8>) -> (r: Option<Vec<u8>>)
    requires
        wf_pat(*v, src@.len() as int),
    ensures
        opt_view(r) == kv_default(*v, src@),
{
    match v {
        PatNode::AssignPat { right_span, .. } => Option::Some(snippet(src, *right_span)),
        _ => Option::None,
    }
}

/// Appends one structured key-value property; a nested object pattern under
/// the key recurses into the structured object shape.
#[verifier::rlimit(100)]
#[verifier::spinoff_prover]
fn emit_kv_prop(out: &mut Vec<u8>, key: &PatKey, value: &PatNode, src: &Vec<u8>)
    requires
        wf_pat_key(*key, src@.len() as int),
        wf_pat(*value, src@.len() as int),
    ensures
        final(out)@ == old(out)@ + j_kv_prop(*key, *value, src@),
    decreases 2 * pat_height(*value) + 1,
{
    push_lit(out, "{\"key\":".as_bytes());
    let kt = get_pat_key_text(key, src);
    push_jstr(out, &kt);
    push_lit(out, ",\"alias\":".as_bytes());
    let alias = get_kv_alias(value);
    push_opt_jstr(out, &alias);
    push_lit(out, ",\"default_text\":".as_bytes());
    let def = get_kv_default(value, src);
    push_opt_jstr(out, &def);
    push_lit(out, ",\"nested\":".as_bytes());
    match value {
        PatNode::ObjectPat { props: np, type_ann: nta, .. } => {
            emit_obj_pat(out, np, nta, src);
        },
        _ => {
            push_lit(out, "null".as_bytes());
        },
    }
    push_lit(out, "}".as_bytes());
    proof {
        assert(final(out)@ =~= old(out)@ + j_kv_prop(*key, *value, src@));
    }
}

/// Appends a structured object pattern: the kept properties in order, plus
/// the pattern's own type-annotation text. A nested object pattern under a
/// key recurses into the same shape.
#[verifier::loop_isolation(false)]
/// Appends one property of a structured object pattern, with a leading
/// comma when properties came before; a property that is dropped from the
/// structured form appends nothing.
#[verifier::loop_isolation(false)]
fn emit_one_prop(out: &mut Vec<u8>, prop: &ObjProp, any: bool, src: &Vec<u8>) -> (emitted: bool)
    requires
        wf_prop(*prop, src@.len() as int),
    ensures
        emitted == (j_prop_opt(*prop, src@) matches Option::Some(_)),
        final(out)@ == old(out)@ + match j_prop_opt(*prop, src@) {
            Option::Some(piece) => (if any {
                ",".spec_bytes()
            } else {
                Seq::<u8>::empty()
            }) + piece,
            Option::None => Seq::<u8>::empty(),
        },
    decreases 2 * prop_height(*prop),
{
    match prop {
        ObjProp::KeyValueProp { key, value } => {
            if any {
                push_lit(out, ",".as_bytes());
            }
            emit_kv_prop(out, key, value, src);
            proof {
                assert(final(out)@ =~= old(out)@ + (if any {
                    ",".spec_bytes()
                } else {
                    Seq::<u8>::empty()
                }) + j_kv_prop(*key, **value, src@));
            }
            true
        },
        ObjProp::ShorthandProp { key, default_span } => {
            if any {
                push_lit(out, ",".as_bytes());
            }
            push_lit(out, "{\"key\":".as_bytes());
            push_jstr(out, key);
            push_lit(out, ",\"alias\":".as_bytes());
            push_jstr(out, key);
            push_lit(out, ",\"default_text\":".as_bytes());
            let def = get_opt_snip(default_span, src);
            push_opt_jstr(out, &def);
            push_lit(out, ",\"nested\":null}".as_bytes());
            proof {
                assert(final(out)@ =~= old(out)@ + (if any {
                    ",".spec_bytes()
                } else {
                    Seq::<u8>::empty()
                }) + j_prop_opt(*prop, src@)->0);
            }
            true
        },
        ObjProp::RestProp { arg, span } => {
            match &**arg {
                PatNode::IdentPat { name, .. } => {
                    if any {
                        push_lit(out, ",".as_bytes());
                    }
                    push_lit(out, "{\"key\":".as_bytes());
                    let kt = snippet(src, *span);
                    push_jstr(out, &kt);
                    push_lit(out, ",\"alias\":".as_bytes());
                    push_jstr(out, name);
                    push_lit(out, ",\"default_text\":null,\"nested\":null}".as_bytes());
                    proof {
                        assert(final(out)@ =~= old(out)@ + (if any {
                            ",".spec_bytes()
                        } else {
                            Seq::<u8>::empty()
                        }) + j_prop_opt(*prop, src@)->0);
                    }
                    true
                },
                _ => false,
            }
        },
    }
}

/// Appends a structured object pattern: the kept properties in order, plus
/// the pattern's own type-annotation text. A nested object pattern under a
/// key recurses into the same shape.
#[verifier::loop_isolation(false)]
#[verifier::rlimit(50)]
pub fn emit_obj_pat(
    out: &mut Vec<u8>,
    props: &Vec<ObjProp>,
    type_ann: &Option<RawSpan>,
    src: &Vec<u8>,
)
    requires
        wf_props(props@, src@.len() as int),
        wf_opt_span(*type_ann, src@.len() as int),
    ensures
        final(out)@ == old(out)@ + j_obj_pat(props@, *type_ann, src@),
    decreases 2 * props_height(props@) + 1,
{
    push_lit(out, "{\"properties\":[".as_bytes());
    let mut i: usize = 0;
    let mut any: bool = false;
    while i < props.len()
        invariant
            0 <= i <= props@.len(),
            any <==> j_props(props@.take(i as int), src@).len() > 0,
            out@ == old(out)@ + "{\"properties\":[".spec_bytes() + join_comma(
                j_props(props@.take(i as int), src@),
            ),
        decreases props@.len() - i,
    {
        proof {
            lemma_wf_props_index(props@, src@.len() as int, i as int);
            lemma_props_height(props@, i as int);
        }
        let e = emit_one_prop(out, &props[i], any, src);
        any = any || e;
        proof {
            assert(props@.take(i + 1).drop_last() =~= props@.take(i as int));
            assert(props@.take(i + 1).last() == props@[i as int]);
            let prev = j_props(props@.take(i as int), src@);
            let cur = j_props(props@.take(i + 1), src@);
            match j_prop_opt(props@[i as int], src@) {
                Option::Some(piece) => {
                    assert(cur =~~= prev.push(piece));
                    crate::jout::lemma_join_push(prev, piece);
                },
                Option::None => {
                    assert(cur =~~= prev);
                },
            }
            assert(out@ =~= old(out)@ + "{\"properties\":[".spec_bytes() + join_comma(cur));
        }
        i += 1;
    }
    proof {
        assert(props@.take(props@.len() as int) == props@);
    }
    push_lit(out, "],\"pattern_type_ann_text\":".as_bytes());
    let ta = get_opt_snip(type_ann, src);
    push_opt_jstr(out, &ta);
    push_lit(out, "}".as_bytes());
    proof {
        reveal(j_obj_pat);
        assert(final(out)@ =~= old(out)@ + j_obj_pat(props@, *type_ann, src@));
    }
}

// ---------------------------------------------------------------------------
// The names a structured pattern embeds, and how they relate to the
// flattened name list.

pub open spec fn opt_name_seq(o: Option<Seq<u8>>) -> Seq<Seq<u8>> {
    match o {
        Option::None => Seq::empty(),
        Option::Some(n) => seq![n],
    }
}

/// The names a structured array pattern embeds, in slot order.
pub open spec fn embedded_arr_names(s: Seq<Option<PatNode>>) -> Seq<Seq<u8>>
    decreases s,
{
    if s.len() == 0 {
        Seq::empty()
    } else {
        embedded_arr_names(s.drop_last()) + opt_name_seq(arr_slot_name(s.last()))
    }
}

/// An array slot that binds plainly: a hole, an identifier, an identifier
/// under a default, or an identifier under a rest marker.
pub open spec fn simple_arr_slot(o: Option<PatNode>) -> bool {
    match o {
        Option::None => true,
        Option::Some(p) => match p {
            PatNode::IdentPat { .. } => true,
            PatNode::AssignPat { left, .. } => (*left) matches PatNode::IdentPat { .. },
            PatNode::RestPat { arg, .. } => (*arg) matches PatNode::IdentPat { .. },
            _ => false,
        },
    }
}

pub open spec fn simple_arr_slots(s: Seq<Option<PatNode>>) -> bool {
    forall|i: int| 0 <= i < s.len() ==> simple_arr_slot(#[trigger] s[i])
}

/// Law: over an array pattern whose slots bind plainly, the names the
/// structured form embeds, read left to right, are exactly the flattened
/// name list of the pattern. (A slot holding a deeper pattern falls back to
/// name-only capture and is left out of the structured names, so the two
/// sides can differ there.)
pub proof fn lemma_arr_structured_names(s: Seq<Option<PatNode>>)
    requires
        simple_arr_slots(s),
    ensures
        embedded_arr_names(s) == names_of_elems(s),
    decreases s.len(),
{
    if s.len() > 0 {
        assert(simple_arr_slots(s.drop_last())) by {
            assert(forall|i: int|
                0 <= i < s.len() - 1 ==> s.drop_last()[i] == #[trigger] s[i]);
        }
        lemma_arr_structured_names(s.drop_last());
        assert(simple_arr_slot(s[s.len() - 1]));
        match s.last() {
            Option::None => {},
            Option::Some(p) => match p {
                PatNode::IdentPat { name, .. } => {
                    assert(names_of_pat(p) == seq![name@]);
                },
                PatNode::AssignPat { left, .. } => {
                    assert(names_of_pat(p) == names_of_pat(*left));
                },
                PatNode::RestPat { arg, .. } => {
                    assert(names_of_pat(p) == names_of_pat(*arg));
                },
                _ => {},
            },
        }
    }
}

/// The names one structured object property embeds: its alias, or all the
/// names of its nested pattern.
pub open spec fn embedded_prop_names(p: ObjProp) -> Seq<Seq<u8>>
    decreases p, 0int,
{
    match p {
        ObjProp::KeyValueProp { value, .. } => match *value {
            PatNode::ObjectPat { props, .. } => embedded_obj_names(props@),
            _ => opt_name_seq(kv_alias(*value)),
        },
        ObjProp::ShorthandProp { key, .. } => seq![key@],
        ObjProp::RestProp { arg, .. } => match *arg {
            PatNode::IdentPat { name, .. } => seq![name@],
            _ => Seq::empty(),
        },
    }
}

/// The names a structured object pattern embeds, in property order, nested
/// patterns included.
pub open spec fn embedded_obj_names(s: Seq<ObjProp>) -> Seq<Seq<u8>>
    decreases s, 1int,
{
    if s.len() == 0 {
        Seq::empty()
    } else {
        embedded_obj_names(s.drop_last()) + embedded_prop_names(s.last())
    }
}

/// An object property that binds plainly: a shorthand, a rest over an
/// identifier, or a key over an identifier, a defaulted identifier, or a
/// nested object pattern that again binds plainly.
pub open spec fn simple_obj_prop(p: ObjProp) -> bool
    decreases p, 0int,
{
    match p {
        ObjProp::KeyValueProp { value, .. } => match *value {
            PatNode::IdentPat { .. } => true,
            PatNode::AssignPat { left, .. } => (*left) matches PatNode::IdentPat { .. },
            PatNode::ObjectPat { props, .. } => simple_obj_props(props@),
            _ => false,
        },
        ObjProp::ShorthandProp { .. } => true,
        ObjProp::RestProp { arg, .. } => (*arg) matches PatNode::IdentPat { .. },
    }
}

pub open spec fn simple_obj_props(s: Seq<ObjProp>) -> bool
    decreases s, 1int,
{
    if s.len() == 0 {
        true
    } else {
        simple_obj_props(s.drop_last()) && simple_obj_prop(s.last())
    }
}

proof fn lemma_obj_prop_names(p: ObjProp)
    requires
        simple_obj_prop(p),
    ensures
        embedded_prop_names(p) == match p {
            ObjProp::KeyValueProp { value, .. } => names_of_pat(*value),
            ObjProp::ShorthandProp { key, .. } => seq![key@],
            ObjProp::RestProp { arg, .. } => names_of_pat(*arg),
        },
    decreases p, 2int,
{
    match p {
        ObjProp::KeyValueProp { value, .. } => match *value {
            PatNode::ObjectPat { props, .. } => {
                lemma_obj_structured_names(props@);
            },
            PatNode::AssignPat { left, .. } => {
                assert(names_of_pat(*value) == names_of_pat(*left));
            },
            _ => {},
        },
        _ => {},
    }
}

/// Law: over an object pattern whose properties bind plainly, the names the
/// structured form embeds, read left to right and through nested patterns,
/// are exactly the flattened name list of the pattern. (A property holding
/// an array pattern or a deeper shape loses its names in the structured
/// form, so the two sides can differ there.)
pub proof fn lemma_obj_structured_names(s: Seq<ObjProp>)
    requires
        simple_obj_props(s),
    ensures
        embedded_obj_names(s) == names_of_props(s),
    decreases s, 3int,
{
    if s.len() > 0 {
        lemma_obj_structured_names(s.drop_last());
        lemma_obj_prop_names(s.last());
    }
}

} // verus!
