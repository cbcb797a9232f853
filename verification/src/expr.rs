use vstd::prelude::*;

verus! {

use vstd::string::StringSliceAdditionalSpecFns;
use crate::pos::{RawSpan, snip, snippet, wf_span, fits_source};
use crate::ast::{
    ExprNode, ExprPropNode, ExprKeyNode, expr_span_of, wf_expr, wf_expr_prop, wf_expr_key,
    wf_expr_elems, wf_expr_props,
};
use crate::pat::dup_bytes;
use crate::jout::{
    jstr, jbool, join_comma, push_lit, push_jstr, push_bool, lemma_join_push, lit_vec,
};
use crate::out_node::{j_node, push_node};

// ---------------------------------------------------------------------------
// An explicit size measure for expressions, the termination measure of the
// executable recursions.

pub open spec fn expr_height(e: ExprNode) -> nat
    decreases e, 3int,
{
    match e {
        ExprNode::ArrayExpr { elems, .. } => 1 + elems_eheight(elems@),
        ExprNode::ObjectExpr { props, .. } => 1 + props_eheight(props@),
        _ => 0,
    }
}

pub open spec fn opt_expr_height(o: Option<ExprNode>) -> nat
    decreases o, 4int,
{
    match o {
        Option::None => 0,
        Option::Some(e) => 1 + expr_height(e),
    }
}

pub open spec fn elems_eheight(s: Seq<Option<ExprNode>>) -> nat
    decreases s, 5int,
{
    if s.len() == 0 {
        0
    } else {
        elems_eheight(s.drop_last()) + opt_expr_height(s.last())
    }
}

pub open spec fn key_eheight(k: ExprKeyNode) -> nat
    decreases k, 3int,
{
    match k {
        ExprKeyNode::KeyComputedE { expr } => 1 + expr_height(*expr),
        _ => 0,
    }
}

pub open spec fn prop_eheight(p: ExprPropNode) -> nat
    decreases p, 4int,
{
    match p {
        ExprPropNode::KeyValueP { key, value } => 1 + key_eheight(key) + expr_height(*value),
        ExprPropNode::ShorthandP { .. } => 0,
        ExprPropNode::MethodP { key, .. } => 1 + key_eheight(key),
        ExprPropNode::GetterP { key, .. } => 1 + key_eheight(key),
        ExprPropNode::SetterP { key, .. } => 1 + key_eheight(key),
        ExprPropNode::AssignP { value, .. } => 1 + expr_height(*value),
        ExprPropNode::SpreadP { value, .. } => 1 + expr_height(*value),
    }
}

pub open spec fn props_eheight(s: Seq<ExprPropNode>) -> nat
    decreases s, 5int,
{
    if s.len() == 0 {
        0
    } else {
        props_eheight(s.drop_last()) + prop_eheight(s.last())
    }
}

proof fn lemma_elems_eheight(s: Seq<Option<ExprNode>>, i: int)
    requires
        0 <= i < s.len(),
    ensures
        opt_expr_height(s[i]) <= elems_eheight(s),
    decreases s.len(),
{
    if i < s.len() - 1 {
        lemma_elems_eheight(s.drop_last(), i);
    }
}

proof fn lemma_props_eheight(s: Seq<ExprPropNode>, i: int)
    requires
        0 <= i < s.len(),
    ensures
        prop_eheight(s[i]) <= props_eheight(s),
    decreases s.len(),
{
    if i < s.len() - 1 {
        lemma_props_eheight(s.drop_last(), i);
    }
}

proof fn lemma_wf_expr_elems_index(s: Seq<Option<ExprNode>>, len: int, i: int)
    requires
        wf_expr_elems(s, len),
        0 <= i < s.len(),
    ensures
        match s[i] {
            Option::None => true,
            Option::Some(e) => wf_expr(e, len),
        },
    decreases s.len(),
{
    if i < s.len() - 1 {
        lemma_wf_expr_elems_index(s.drop_last(), len, i);
    }
}

proof fn lemma_wf_expr_props_index(s: Seq<ExprPropNode>, len: int, i: int)
    requires
        wf_expr_props(s, len),
        0 <= i < s.len(),
    ensures
        wf_expr_prop(s[i], len),
    decreases s.len(),
{
    if i < s.len() - 1 {
        lemma_wf_expr_props_index(s.drop_last(), len, i);
    }
}

// ---------------------------------------------------------------------------
// The rendered forms of the leaf expression kinds.

/// A rendered identifier node.
pub open spec fn j_ident_expr(sp: RawSpan, name: Seq<u8>, src: Seq<u8>) -> Seq<u8> {
    "{\"type\":\"Identifier\",".spec_bytes() + j_node(sp, src) + ",\"name\":".spec_bytes() + jstr(
        name,
    ) + "}".spec_bytes()
}

/// A rendered string literal node.
pub open spec fn j_str_expr(sp: RawSpan, value: Seq<u8>, src: Seq<u8>) -> Seq<u8> {
    "{\"type\":\"StringLiteral\",".spec_bytes() + j_node(sp, src) + ",\"value\":".spec_bytes()
        + jstr(value) + "}".spec_bytes()
}

/// A rendered numeric literal node; the value rides along as a raw JSON
/// number.
pub open spec fn j_num_expr(sp: RawSpan, num_text: Seq<u8>, src: Seq<u8>) -> Seq<u8> {
    "{\"type\":\"NumberLiteral\",".spec_bytes() + j_node(sp, src) + ",\"value\":".spec_bytes()
        + num_text + "}".spec_bytes()
}

/// A rendered big-integer literal node.
pub open spec fn j_big_expr(sp: RawSpan, text: Seq<u8>, src: Seq<u8>) -> Seq<u8> {
    "{\"type\":\"BigIntLiteral\",".spec_bytes() + j_node(sp, src) + ",\"value\":".spec_bytes()
        + jstr(text) + "}".spec_bytes()
}

/// A rendered null literal node.
pub open spec fn j_null_expr(sp: RawSpan, src: Seq<u8>) -> Seq<u8> {
    "{\"type\":\"NullLiteral\",".spec_bytes() + j_node(sp, src) + "}".spec_bytes()
}

/// A rendered function expression: its body stays opaque verbatim text.
pub open spec fn j_function_expr(
    sp: RawSpan,
    is_async: bool,
    is_generator: bool,
    src: Seq<u8>,
) -> Seq<u8> {
    "{\"type\":\"FunctionExpression\",".spec_bytes() + j_node(sp, src)
        + ",\"function_text\":".spec_bytes() + jstr(snip(src, sp)) + ",\"async\":".spec_bytes()
        + jbool(is_async) + ",\"generator\":".spec_bytes() + jbool(is_generator)
        + "}".spec_bytes()
}

/// A rendered arrow function: its body stays opaque verbatim text.
pub open spec fn j_arrow_expr(
    sp: RawSpan,
    is_async: bool,
    body_is_expr: bool,
    src: Seq<u8>,
) -> Seq<u8> {
    "{\"type\":\"ArrowFunctionExpression\",".spec_bytes() + j_node(sp, src)
        + ",\"function_text\":".spec_bytes() + jstr(snip(src, sp)) + ",\"async\":".spec_bytes()
        + jbool(is_async) + ",\"expression\":".spec_bytes() + jbool(body_is_expr)
        + "}".spec_bytes()
}

/// The closing fields of a property record: its role, and the method,
/// shorthand and computed flags.
pub open spec fn j_prop_tail(kind_word: Seq<u8>, m: bool, sh: bool, co: bool) -> Seq<u8> {
    ",\"kind\":".spec_bytes() + jstr(kind_word) + ",\"method\":".spec_bytes() + jbool(m)
        + ",\"shorthand\":".spec_bytes() + jbool(sh) + ",\"computed\":".spec_bytes() + jbool(co)
        + "}".spec_bytes()
}

/// Emitting a property record piece by piece appends the same bytes as
/// appending the whole record at once.
pub proof fn lemma_prop_chain(b: Seq<u8>, t2: Seq<u8>, t4: Seq<u8>, t6: Seq<u8>, t7: Seq<u8>)
    ensures
        b + "{\"type\":\"Property\",".spec_bytes() + t2 + ",\"key\":".spec_bytes() + t4
            + ",\"value\":".spec_bytes() + t6 + t7 == b + ("{\"type\":\"Property\",".spec_bytes()
            + t2 + ",\"key\":".spec_bytes() + t4 + ",\"value\":".spec_bytes() + t6 + t7),
{
    assert(b + "{\"type\":\"Property\",".spec_bytes() + t2 + ",\"key\":".spec_bytes() + t4
        + ",\"value\":".spec_bytes() + t6 + t7 =~= b + ("{\"type\":\"Property\",".spec_bytes() + t2
        + ",\"key\":".spec_bytes() + t4 + ",\"value\":".spec_bytes() + t6 + t7));
}

// ---------------------------------------------------------------------------
// The recursive rendering of expressions, keys and properties.

/// One rendered expression node. An expression of an unmodeled kind lowers
/// to an identifier whose name holds its verbatim source.
pub open spec fn j_expr(e: ExprNode, src: Seq<u8>) -> Seq<u8>
    decreases e, 3int,
{
    match e {
        ExprNode::NullExpr { span } => j_null_expr(span, src),
        ExprNode::BoolExpr { span, value } => "{\"type\":\"BooleanLiteral\",".spec_bytes() + j_node(
            span,
            src,
        ) + ",\"value\":".spec_bytes() + jbool(value) + "}".spec_bytes(),
        ExprNode::NumExpr { span, num_text } => j_num_expr(span, num_text@, src),
        ExprNode::BigExpr { span, text } => j_big_expr(span, text@, src),
        ExprNode::StrExpr { span, value } => j_str_expr(span, value@, src),
        ExprNode::ArrayExpr { span, elems } => "{\"type\":\"ArrayExpression\",".spec_bytes()
            + j_node(span, src) + ",\"elements\":[".spec_bytes() + join_comma(
            j_elems(elems@, span, src),
        ) + "]}".spec_bytes(),
        ExprNode::ObjectExpr { span, props } => "{\"type\":\"ObjectExpression\",".spec_bytes()
            + j_node(span, src) + ",\"properties\":[".spec_bytes() + join_comma(
            j_eprops(props@, src),
        ) + "]}".spec_bytes(),
        ExprNode::FnExpr { fn_span, is_async, is_generator } => j_function_expr(
            fn_span,
            is_async,
            is_generator,
            src,
        ),
        ExprNode::ArrowExpr { span, is_async, body_is_expr } => j_arrow_expr(
            span,
            is_async,
            body_is_expr,
            src,
        ),
        ExprNode::IdentExpr { span, name } => j_ident_expr(span, name@, src),
        ExprNode::OtherExpr { span } => j_ident_expr(span, snip(src, span), src),
    }
}

/// The rendered elements of an array expression, in slot order; a hole
/// becomes a null literal carrying the whole array's position.
pub open spec fn j_elems(s: Seq<Option<ExprNode>>, arr_span: RawSpan, src: Seq<u8>) -> Seq<
    Seq<u8>,
>
    decreases s, 5int,
{
    if s.len() == 0 {
        Seq::empty()
    } else {
        j_elems(s.drop_last(), arr_span, src).push(
            match s.last() {
                Option::None => j_null_expr(arr_span, src),
                Option::Some(e) => j_expr(e, src),
            },
        )
    }
}

/// One rendered object-literal key.
pub open spec fn j_ekey(k: ExprKeyNode, src: Seq<u8>) -> Seq<u8>
    decreases k, 4int,
{
    match k {
        ExprKeyNode::KeyIdentE { name, span } => j_ident_expr(span, name@, src),
        ExprKeyNode::KeyTextE { value, span } => j_str_expr(span, value@, src),
        ExprKeyNode::KeyNumE { num_text, span } => j_num_expr(span, num_text@, src),
        ExprKeyNode::KeyBigE { text, span } => j_big_expr(span, text@, src),
        ExprKeyNode::KeyComputedE { expr } => j_expr(*expr, src),
    }
}

pub open spec fn ekey_computed(k: ExprKeyNode) -> bool {
    k matches ExprKeyNode::KeyComputedE { .. }
}

/// The common shape of a property record: position, key, value and the
/// closing fields.
pub open spec fn j_prop_shape(
    nspan: RawSpan,
    key_json: Seq<u8>,
    value_json: Seq<u8>,
    tail: Seq<u8>,
    src: Seq<u8>,
) -> Seq<u8> {
    "{\"type\":\"Property\",".spec_bytes() + j_node(nspan, src) + ",\"key\":".spec_bytes()
        + key_json + ",\"value\":".spec_bytes() + value_json + tail
}

/// One rendered object-literal property. Accessors and methods lower their
/// function to an opaque-text function expression; a spread property gets
/// the synthetic key `...`.
pub open spec fn j_eprop(p: ExprPropNode, src: Seq<u8>) -> Seq<u8>
    decreases p, 5int,
{
    match p {
        ExprPropNode::KeyValueP { key, value } => j_prop_shape(
            expr_span_of(*value),
            j_ekey(key, src),
            j_expr(*value, src),
            j_prop_tail("init".spec_bytes(), false, false, ekey_computed(key)),
            src,
        ),
        ExprPropNode::ShorthandP { name, span } => j_prop_shape(
            span,
            j_ident_expr(span, name@, src),
            j_ident_expr(span, name@, src),
            j_prop_tail("init".spec_bytes(), false, true, false),
            src,
        ),
        ExprPropNode::MethodP { key, fn_span, is_async, is_generator } => j_prop_shape(
            fn_span,
            j_ekey(key, src),
            j_function_expr(fn_span, is_async, is_generator, src),
            j_prop_tail("method".spec_bytes(), true, false, ekey_computed(key)),
            src,
        ),
        ExprPropNode::GetterP { key, span } => j_prop_shape(
            span,
            j_ekey(key, src),
            j_function_expr(span, false, false, src),
            j_prop_tail("get".spec_bytes(), false, false, ekey_computed(key)),
            src,
        ),
        ExprPropNode::SetterP { key, span } => j_prop_shape(
            span,
            j_ekey(key, src),
            j_function_expr(span, false, false, src),
            j_prop_tail("set".spec_bytes(), false, false, ekey_computed(key)),
            src,
        ),
        ExprPropNode::AssignP { key_name, key_span, value, span } => j_prop_shape(
            span,
            j_ident_expr(key_span, key_name@, src),
            j_expr(*value, src),
            j_prop_tail("init".spec_bytes(), false, true, false),
            src,
        ),
        ExprPropNode::SpreadP { span, value } => j_prop_shape(
            span,
            j_ident_expr(span, "...".spec_bytes(), src),
            j_expr(*value, src),
            j_prop_tail("init".spec_bytes(), false, false, false),
            src,
        ),
    }
}

pub open spec fn j_eprops(s: Seq<ExprPropNode>, src: Seq<u8>) -> Seq<Seq<u8>>
    decreases s, 6int,
{
    if s.len() == 0 {
        Seq::empty()
    } else {
        j_eprops(s.drop_last(), src).push(j_eprop(s.last(), src))
    }
}

/// The whole expression-mode document.
pub open spec fn expr_doc_json(e: ExprNode, src: Seq<u8>) -> Seq<u8> {
    "{\"expr\":".spec_bytes() + j_expr(e, src) + "}".spec_bytes()
}

// ---------------------------------------------------------------------------
// Executable rendering.

/// Appends a rendered identifier node.
#[verifier::rlimit(50)]
fn emit_ident_expr(out: &mut Vec<u8>, sp: RawSpan, name: &Vec<u8>, src: &Vec<u8>)
    requires
        wf_span(sp, src@.len() as int),
        fits_source(src@.len() as int),
    ensures
        final(out)@ == old(out)@ + j_ident_expr(sp, name@, src@),
{
    push_lit(out, "{\"type\":\"Identifier\",".as_bytes());
    push_node(out, sp, src);
    push_lit(out, ",\"name\":".as_bytes());
    push_jstr(out, name);
    push_lit(out, "}".as_bytes());
    proof {
        assert(final(out)@ =~= old(out)@ + j_ident_expr(sp, name@, src@));
    }
}

/// Appends a rendered function expression.
#[verifier::rlimit(100)]
#[verifier::spinoff_prover]
fn emit_function_expr(out: &mut Vec<u8>, sp: RawSpan, is_async: bool, is_generator: bool, src: &Vec<u8>)
    requires
        wf_span(sp, src@.len() as int),
        fits_source(src@.len() as int),
    ensures
        final(out)@ == old(out)@ + j_function_expr(sp, is_async, is_generator, src@),
{
    push_lit(out, "{\"type\":\"FunctionExpression\",".as_bytes());
    push_node(out, sp, src);
    push_lit(out, ",\"function_text\":".as_bytes());
    let t = snippet(src, sp);
    push_jstr(out, &t);
    push_lit(out, ",\"async\":".as_bytes());
    push_bool(out, is_async);
    push_lit(out, ",\"generator\":".as_bytes());
    push_bool(out, is_generator);
    push_lit(out, "}".as_bytes());
    proof {
        assert(final(out)@ =~= old(out)@ + j_function_expr(sp, is_async, is_generator, src@));
    }
}

/// Appends the closing fields of a property record.
#[verifier::rlimit(50)]
fn emit_prop_tail(out: &mut Vec<u8>, kind_word: &[u8], m: bool, sh: bool, co: bool)
    ensures
        final(out)@ == old(out)@ + j_prop_tail(kind_word@, m, sh, co),
{
    push_lit(out, ",\"kind\":".as_bytes());
    let kw = lit_vec(kind_word);
    push_jstr(out, &kw);
    push_lit(out, ",\"method\":".as_bytes());
    push_bool(out, m);
    push_lit(out, ",\"shorthand\":".as_bytes());
    push_bool(out, sh);
    push_lit(out, ",\"computed\":".as_bytes());
    push_bool(out, co);
    push_lit(out, "}".as_bytes());
    proof {
        assert(final(out)@ =~= old(out)@ + j_prop_tail(kind_word@, m, sh, co));
    }
}

/// Appends one rendered object-literal key.
fn emit_ekey(out: &mut Vec<u8>, k: &ExprKeyNode, src: &Vec<u8>)
    requires
        wf_expr_key(*k, src@.len() as int),
        fits_source(src@.len() as int),
    ensures
        final(out)@ == old(out)@ + j_ekey(*k, src@),
    decreases key_eheight(*k),
{
    match k {
        ExprKeyNode::KeyIdentE { name, span } => {
            emit_ident_expr(out, *span, name, src);
        },
        ExprKeyNode::KeyTextE { value, span } => {
            push_lit(out, "{\"type\":\"StringLiteral\",".as_bytes());
            push_node(out, *span, src);
            push_lit(out, ",\"value\":".as_bytes());
            push_jstr(out, value);
            push_lit(out, "}".as_bytes());
            proof {
                assert(out@ =~= old(out)@ + j_ekey(*k, src@));
            }
        },
        ExprKeyNode::KeyNumE { num_text, span } => {
            push_lit(out, "{\"type\":\"NumberLiteral\",".as_bytes());
            push_node(out, *span, src);
            push_lit(out, ",\"value\":".as_bytes());
            let mut i: usize = 0;
            while i < num_text.len()
                invariant
                    0 <= i <= num_text@.len(),
                    out@ == old(out)@ + "{\"type\":\"NumberLiteral\",".spec_bytes() + j_node(
                        *span,
                        src@,
                    ) + ",\"value\":".spec_bytes() + num_text@.take(i as int),
                decreases num_text@.len() - i,
            {
                out.push(num_text[i]);
                proof {
                    assert(num_text@.take(i + 1) == num_text@.take(i as int).push(
                        num_text@[i as int],
                    ));
                }
                i += 1;
            }
            proof {
                assert(num_text@.take(num_text@.len() as int) == num_text@);
            }
            push_lit(out, "}".as_bytes());
            proof {
                assert(out@ =~= old(out)@ + j_ekey(*k, src@));
            }
        },
        ExprKeyNode::KeyBigE { text, span } => {
            push_lit(out, "{\"type\":\"BigIntLiteral\",".as_bytes());
            push_node(out, *span, src);
            push_lit(out, ",\"value\":".as_bytes());
            push_jstr(out, text);
            push_lit(out, "}".as_bytes());
            proof {
                assert(out@ =~= old(out)@ + j_ekey(*k, src@));
            }
        },
        ExprKeyNode::KeyComputedE { expr } => {
            emit_expr(out, expr, src);
        },
    }
}

/// Appends one rendered object-literal property.
#[verifier::loop_isolation(false)]
#[verifier::rlimit(100)]
#[verifier::spinoff_prover]
fn emit_eprop(out: &mut Vec<u8>, p: &ExprPropNode, src: &Vec<u8>)
    requires
        wf_expr_prop(*p, src@.len() as int),
        fits_source(src@.len() as int),
    ensures
        final(out)@ == old(out)@ + j_eprop(*p, src@),
    decreases prop_eheight(*p),
{
    match p {
        ExprPropNode::KeyValueP { key, value } => {
            push_lit(out, "{\"type\":\"Property\",".as_bytes());
            proof {
                crate::expr::lemma_wf_expr_span(**value, src@.len() as int);
            }
            push_node(out, get_expr_span(value), src);
            push_lit(out, ",\"key\":".as_bytes());
            emit_ekey(out, key, src);
            push_lit(out, ",\"value\":".as_bytes());
            emit_expr(out, value, src);
            let co = match key {
                ExprKeyNode::KeyComputedE { .. } => true,
                _ => false,
            };
            emit_prop_tail(out, "init".as_bytes(), false, false, co);
            proof {
                lemma_prop_chain(
                    old(out)@,
                    j_node(expr_span_of(**value), src@),
                    j_ekey(*key, src@),
                    j_expr(**value, src@),
                    j_prop_tail("init".spec_bytes(), false, false, ekey_computed(*key)),
                );
                assert(out@ == old(out)@ + j_eprop(*p, src@));
            }
        },
        ExprPropNode::ShorthandP { name, span } => {
            push_lit(out, "{\"type\":\"Property\",".as_bytes());
            push_node(out, *span, src);
            push_lit(out, ",\"key\":".as_bytes());
            emit_ident_expr(out, *span, name, src);
            push_lit(out, ",\"value\":".as_bytes());
            emit_ident_expr(out, *span, name, src);
            emit_prop_tail(out, "init".as_bytes(), false, true, false);
            proof {
                lemma_prop_chain(
                    old(out)@,
                    j_node(*span, src@),
                    j_ident_expr(*span, name@, src@),
                    j_ident_expr(*span, name@, src@),
                    j_prop_tail("init".spec_bytes(), false, true, false),
                );
                assert(out@ == old(out)@ + j_eprop(*p, src@));
            }
        },
        ExprPropNode::MethodP { key, fn_span, is_async, is_generator } => {
            push_lit(out, "{\"type\":\"Property\",".as_bytes());
            push_node(out, *fn_span, src);
            push_lit(out, ",\"key\":".as_bytes());
            emit_ekey(out, key, src);
            push_lit(out, ",\"value\":".as_bytes());
            emit_function_expr(out, *fn_span, *is_async, *is_generator, src);
            let co = match key {
                ExprKeyNode::KeyComputedE { .. } => true,
                _ => false,
            };
            emit_prop_tail(out, "method".as_bytes(), true, false, co);
            proof {
                lemma_prop_chain(
                    old(out)@,
                    j_node(*fn_span, src@),
                    j_ekey(*key, src@),
                    j_function_expr(*fn_span, *is_async, *is_generator, src@),
                    j_prop_tail("method".spec_bytes(), true, false, ekey_computed(*key)),
                );
                assert(out@ == old(out)@ + j_eprop(*p, src@));
            }
        },
        ExprPropNode::GetterP { key, span } => {
            push_lit(out, "{\"type\":\"Property\",".as_bytes());
            push_node(out, *span, src);
            push_lit(out, ",\"key\":".as_bytes());
            emit_ekey(out, key, src);
            push_lit(out, ",\"value\":".as_bytes());
            emit_function_expr(out, *span, false, false, src);
            let co = match key {
                ExprKeyNode::KeyComputedE { .. } => true,
                _ => false,
            };
            emit_prop_tail(out, "get".as_bytes(), false, false, co);
            proof {
                lemma_prop_chain(
                    old(out)@,
                    j_node(*span, src@),
                    j_ekey(*key, src@),
                    j_function_expr(*span, false, false, src@),
                    j_prop_tail("get".spec_bytes(), false, false, ekey_computed(*key)),
                );
                assert(out@ == old(out)@ + j_eprop(*p, src@));
            }
        },
        ExprPropNode::SetterP { key, span } => {
            push_lit(out, "{\"type\":\"Property\",".as_bytes());
            push_node(out, *span, src);
            push_lit(out, ",\"key\":".as_bytes());
            emit_ekey(out, key, src);
            push_lit(out, ",\"value\":".as_bytes());
            emit_function_expr(out, *span, false, false, src);
            let co = match key {
                ExprKeyNode::KeyComputedE { .. } => true,
                _ => false,
            };
            emit_prop_tail(out, "set".as_bytes(), false, false, co);
            proof {
                lemma_prop_chain(
                    old(out)@,
                    j_node(*span, src@),
                    j_ekey(*key, src@),
                    j_function_expr(*span, false, false, src@),
                    j_prop_tail("set".spec_bytes(), false, false, ekey_computed(*key)),
                );
                assert(out@ == old(out)@ + j_eprop(*p, src@));
            }
        },
        ExprPropNode::AssignP { key_name, key_span, value, span } => {
            push_lit(out, "{\"type\":\"Property\",".as_bytes());
            push_node(out, *span, src);
            push_lit(out, ",\"key\":".as_bytes());
            emit_ident_expr(out, *key_span, key_name, src);
            push_lit(out, ",\"value\":".as_bytes());
            emit_expr(out, value, src);
            emit_prop_tail(out, "init".as_bytes(), false, true, false);
            proof {
                lemma_prop_chain(
                    old(out)@,
                    j_node(*span, src@),
                    j_ident_expr(*key_span, key_name@, src@),
                    j_expr(**value, src@),
                    j_prop_tail("init".spec_bytes(), false, true, false),
                );
                assert(out@ == old(out)@ + j_eprop(*p, src@));
            }
        },
        ExprPropNode::SpreadP { span, value } => {
            push_lit(out, "{\"type\":\"Property\",".as_bytes());
            push_node(out, *span, src);
            push_lit(out, ",\"key\":".as_bytes());
            let dots = lit_vec("...".as_bytes());
            emit_ident_expr(out, *span, &dots, src);
            push_lit(out, ",\"value\":".as_bytes());
            emit_expr(out, value, src);
            emit_prop_tail(out, "init".as_bytes(), false, false, false);
            proof {
                lemma_prop_chain(
                    old(out)@,
                    j_node(*span, src@),
                    j_ident_expr(*span, "...".spec_bytes(), src@),
                    j_expr(**value, src@),
                    j_prop_tail("init".spec_bytes(), false, false, false),
                );
                assert(out@ == old(out)@ + j_eprop(*p, src@));
            }
        },
    }
}

/// A well-formed expression has a well-formed span.
pub proof fn lemma_wf_expr_span(e: ExprNode, len: int)
    requires
        wf_expr(e, len),
    ensures
        wf_span(expr_span_of(e), len),
{
}

/// The span an expression covers.
fn get_expr_span(e: &ExprNode) -> (r: RawSpan)
    ensures
        r == expr_span_of(*e),
{
    match e {
        ExprNode::NullExpr { span } => *span,
        ExprNode::BoolExpr { span, .. } => *span,
        ExprNode::NumExpr { span, .. } => *span,
        ExprNode::BigExpr { span, .. } => *span,
        ExprNode::StrExpr { span, .. } => *span,
        ExprNode::ArrayExpr { span, .. } => *span,
        ExprNode::ObjectExpr { span, .. } => *span,
        ExprNode::FnExpr { fn_span, .. } => *fn_span,
        ExprNode::ArrowExpr { span, .. } => *span,
        ExprNode::IdentExpr { span, .. } => *span,
        ExprNode::OtherExpr { span } => *span,
    }
}

/// Appends one rendered expression node, recursively.
#[verifier::loop_isolation(false)]
#[verifier::rlimit(100)]
#[verifier::spinoff_prover]
pub fn emit_expr(out: &mut Vec<u8>, e: &ExprNode, src: &Vec<u8>)
    requires
        wf_expr(*e, src@.len() as int),
        fits_source(src@.len() as int),
    ensures
        final(out)@ == old(out)@ + j_expr(*e, src@),
    decreases expr_height(*e),
{
    match e {
        ExprNode::NullExpr { span } => {
            push_lit(out, "{\"type\":\"NullLiteral\",".as_bytes());
            push_node(out, *span, src);
            push_lit(out, "}".as_bytes());
            proof {
                assert(out@ =~= old(out)@ + j_expr(*e, src@));
            }
        },
        ExprNode::BoolExpr { span, value } => {
            push_lit(out, "{\"type\":\"BooleanLiteral\",".as_bytes());
            push_node(out, *span, src);
            push_lit(out, ",\"value\":".as_bytes());
            push_bool(out, *value);
            push_lit(out, "}".as_bytes());
            proof {
                assert(out@ =~= old(out)@ + j_expr(*e, src@));
            }
        },
        ExprNode::NumExpr { span, num_text } => {
            push_lit(out, "{\"type\":\"NumberLiteral\",".as_bytes());
            push_node(out, *span, src);
            push_lit(out, ",\"value\":".as_bytes());
            push_lit(out, num_text.as_slice());
            push_lit(out, "}".as_bytes());
            proof {
                assert(out@ =~= old(out)@ + j_expr(*e, src@));
            }
        },
        ExprNode::BigExpr { span, text } => {
            push_lit(out, "{\"type\":\"BigIntLiteral\",".as_bytes());
            push_node(out, *span, src);
            push_lit(out, ",\"value\":".as_bytes());
            push_jstr(out, text);
            push_lit(out, "}".as_bytes());
            proof {
                assert(out@ =~= old(out)@ + j_expr(*e, src@));
            }
        },
        ExprNode::StrExpr { span, value } => {
            push_lit(out, "{\"type\":\"StringLiteral\",".as_bytes());
            push_node(out, *span, src);
            push_lit(out, ",\"value\":".as_bytes());
            push_jstr(out, value);
            push_lit(out, "}".as_bytes());
            proof {
                assert(out@ =~= old(out)@ + j_expr(*e, src@));
            }
        },
        ExprNode::ArrayExpr { span, elems } => {
            push_lit(out, "{\"type\":\"ArrayExpression\",".as_bytes());
            push_node(out, *span, src);
            push_lit(out, ",\"elements\":[".as_bytes());
            let mut i: usize = 0;
            while i < elems.len()
                invariant
                    0 <= i <= elems@.len(),
                    out@ == old(out)@ + "{\"type\":\"ArrayExpression\",".spec_bytes() + j_node(
                        *span,
                        src@,
                    ) + ",\"elements\":[".spec_bytes() + join_comma(
                        j_elems(elems@.take(i as int), *span, src@),
                    ),
                decreases elems@.len() - i,
            {
                if i > 0 {
                    push_lit(out, ",".as_bytes());
                }
                proof {
                    lemma_wf_expr_elems_index(elems@, src@.len() as int, i as int);
                    lemma_elems_eheight(elems@, i as int);
                }
                match &elems[i] {
                    Option::None => {
                        push_lit(out, "{\"type\":\"NullLiteral\",".as_bytes());
                        push_node(out, *span, src);
                        push_lit(out, "}".as_bytes());
                    },
                    Option::Some(inner) => {
                        emit_expr(out, inner, src);
                    },
                }
                proof {
                    assert(elems@.take(i + 1).drop_last() =~= elems@.take(i as int));
                    assert(elems@.take(i + 1).last() == elems@[i as int]);
                    let prev = j_elems(elems@.take(i as int), *span, src@);
                    let cur = j_elems(elems@.take(i + 1), *span, src@);
                    let piece = match elems@[i as int] {
                        Option::None => j_null_expr(*span, src@),
                        Option::Some(inner) => j_expr(inner, src@),
                    };
                    assert(cur =~~= prev.push(piece));
                    lemma_join_push(prev, piece);
                    lemma_j_elems_len(elems@.take(i as int), *span, src@);
                    assert(out@ =~= old(out)@ + "{\"type\":\"ArrayExpression\",".spec_bytes()
                        + j_node(*span, src@) + ",\"elements\":[".spec_bytes() + join_comma(cur));
                }
                i += 1;
            }
            proof {
                assert(elems@.take(elems@.len() as int) == elems@);
            }
            push_lit(out, "]}".as_bytes());
            proof {
                assert(out@ =~= old(out)@ + j_expr(*e, src@));
            }
        },
        ExprNode::ObjectExpr { span, props } => {
            push_lit(out, "{\"type\":\"ObjectExpression\",".as_bytes());
            push_node(out, *span, src);
            push_lit(out, ",\"properties\":[".as_bytes());
            let mut i: usize = 0;
            while i < props.len()
                invariant
                    0 <= i <= props@.len(),
                    out@ == old(out)@ + "{\"type\":\"ObjectExpression\",".spec_bytes() + j_node(
                        *span,
                        src@,
                    ) + ",\"properties\":[".spec_bytes() + join_comma(
                        j_eprops(props@.take(i as int), src@),
                    ),
                decreases props@.len() - i,
            {
                if i > 0 {
                    push_lit(out, ",".as_bytes());
                }
                proof {
                    lemma_wf_expr_props_index(props@, src@.len() as int, i as int);
                    lemma_props_eheight(props@, i as int);
                }
                emit_eprop(out, &props[i], src);
                proof {
                    assert(props@.take(i + 1).drop_last() =~= props@.take(i as int));
                    assert(props@.take(i + 1).last() == props@[i as int]);
                    let prev = j_eprops(props@.take(i as int), src@);
                    let cur = j_eprops(props@.take(i + 1), src@);
                    assert(cur =~~= prev.push(j_eprop(props@[i as int], src@)));
                    lemma_join_push(prev, j_eprop(props@[i as int], src@));
                    lemma_j_eprops_len(props@.take(i as int), src@);
                    assert(out@ =~= old(out)@ + "{\"type\":\"ObjectExpression\",".spec_bytes()
                        + j_node(*span, src@) + ",\"properties\":[".spec_bytes() + join_comma(
                        cur,
                    ));
                }
                i += 1;
            }
            proof {
                assert(props@.take(props@.len() as int) == props@);
            }
            push_lit(out, "]}".as_bytes());
            proof {
                assert(out@ =~= old(out)@ + j_expr(*e, src@));
            }
        },
        ExprNode::FnExpr { fn_span, is_async, is_generator } => {
            emit_function_expr(out, *fn_span, *is_async, *is_generator, src);
        },
        ExprNode::ArrowExpr { span, is_async, body_is_expr } => {
            push_lit(out, "{\"type\":\"ArrowFunctionExpression\",".as_bytes());
            push_node(out, *span, src);
            push_lit(out, ",\"function_text\":".as_bytes());
            let t = snippet(src, *span);
            push_jstr(out, &t);
            push_lit(out, ",\"async\":".as_bytes());
            push_bool(out, *is_async);
            push_lit(out, ",\"expression\":".as_bytes());
            push_bool(out, *body_is_expr);
            push_lit(out, "}".as_bytes());
            proof {
                assert(out@ =~= old(out)@ + j_expr(*e, src@));
            }
        },
        ExprNode::IdentExpr { span, name } => {
            emit_ident_expr(out, *span, name, src);
        },
        ExprNode::OtherExpr { span } => {
            let t = snippet(src, *span);
            emit_ident_expr(out, *span, &t, src);
        },
    }
}

proof fn lemma_j_elems_len(s: Seq<Option<ExprNode>>, arr_span: RawSpan, src: Seq<u8>)
    ensures
        j_elems(s, arr_span, src).len() == s.len(),
    decreases s, 6int,
{
    if s.len() > 0 {
        lemma_j_elems_len(s.drop_last(), arr_span, src);
    }
}

proof fn lemma_j_eprops_len(s: Seq<ExprPropNode>, src: Seq<u8>)
    ensures
        j_eprops(s, src).len() == s.len(),
    decreases s, 7int,
{
    if s.len() > 0 {
        lemma_j_eprops_len(s.drop_last(), src);
    }
}

/// Law: expression-mode lowering is deterministic — the output document is
/// a mathematical function of the expression and the source text alone.
pub proof fn lemma_expr_lowering_deterministic(a: ExprNode, b: ExprNode, s: Seq<u8>, t: Seq<u8>)
    requires
        a == b,
        s == t,
    ensures
        expr_doc_json(a, s) == expr_doc_json(b, t),
{
}

/// Lowers a single expression, wrapped as an expression-mode JSON document.
pub fn lower_expr_to_json(e: &ExprNode, src: &Vec<u8>) -> (out: Vec<u8>)
    requires
        wf_expr(*e, src@.len() as int),
        fits_source(src@.len() as int),
    ensures
        out@ == expr_doc_json(*e, src@),
{
    let mut out: Vec<u8> = Vec::new();
    push_lit(&mut out, "{\"expr\":".as_bytes());
    emit_expr(&mut out, e, src);
    push_lit(&mut out, "}".as_bytes());
    proof {
        assert(out@ =~= expr_doc_json(*e, src@));
    }
    out
}

} // verus!
