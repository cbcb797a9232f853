use vstd::prelude::*;

verus! {

use vstd::string::StringSliceAdditionalSpecFns;
use crate::pos::{RawSpan, snip, snippet, wf_span, fits_source};
use crate::ast::{
    ModuleItemNode, ImportNode, ImportSpecNode, ExportNamedNode, ExportSpecNode, ModName,
    VarDeclNode, DeclaratorNode, FnDeclNode, ClassDeclNode, DeclKind, PatNode, EventNode,
    wf_item, wf_items, wf_import_spec, wf_export_spec, wf_declarator, wf_pat, wf_event,
};
use crate::pat::{
    opt_snip, get_opt_snip, dup_bytes, names_of_pat, collect_pat_idents, j_arr_pat, j_obj_pat,
    emit_arr_pat, emit_obj_pat,
};
use crate::jout::{
    jstr, jopt_str, jbool, jstr_arr, join_comma, opt_view, push_lit, push_jstr, push_opt_jstr,
    push_bool, push_str_arr, lemma_join_push, lit_vec,
};
use crate::out_node::{j_node, j_span_obj, j_opt_span_obj, push_node, push_span_obj, push_opt_span_obj};
use crate::sigs::{snips_of, emit_snip_arr, j_param, emit_param_arr, j_member, emit_member_arr};
use crate::calls::{j_event, emit_event};

// ---------------------------------------------------------------------------
// Import records.

/// The value of an optional module export name when it is an identifier.
pub open spec fn mod_ident_of(o: Option<ModName>) -> Option<Seq<u8>> {
    match o {
        Option::Some(ModName::ModIdent(n)) => Option::Some(n@),
        _ => Option::None,
    }
}

/// The value of an optional module export name when it is a string literal.
pub open spec fn mod_text_of(o: Option<ModName>) -> Option<Seq<u8>> {
    match o {
        Option::Some(ModName::ModText(t)) => Option::Some(t@),
        _ => Option::None,
    }
}

/// The text of a module export name, whichever shape it has.
pub open spec fn mod_name_text(n: ModName) -> Seq<u8> {
    match n {
        ModName::ModIdent(s) => s@,
        ModName::ModText(s) => s@,
    }
}

/// The `type` marker a type-only import or export carries, or `null`.
pub open spec fn j_kind_marker(type_only: bool) -> Seq<u8> {
    if type_only {
        jstr("type".spec_bytes())
    } else {
        "null".spec_bytes()
    }
}

/// One rendered import specifier. A named specifier records what it was
/// imported as, under the field matching its shape, and the `type` marker
/// when the import is type-only.
pub open spec fn j_import_spec(s: ImportSpecNode, type_only: bool, src: Seq<u8>) -> Seq<u8> {
    match s {
        ImportSpecNode::DefaultSpec { local, span } => "{\"kind\":\"Default\",\"local\":".spec_bytes()
            + jstr(local@) + ",\"span\":".spec_bytes() + j_span_obj(span, src) + "}".spec_bytes(),
        ImportSpecNode::NamespaceSpec { local, span } => (
        "{\"kind\":\"Namespace\",\"local\":".spec_bytes() + jstr(local@) + ",\"span\":".spec_bytes()
            + j_span_obj(span, src) + "}".spec_bytes()),
        ImportSpecNode::NamedSpec { local, imported, span } => (
        "{\"kind\":\"Named\",\"local\":".spec_bytes() + jstr(local@)
            + ",\"imported_ident\":".spec_bytes() + jopt_str(mod_ident_of(imported))
            + ",\"imported_str\":".spec_bytes() + jopt_str(mod_text_of(imported))
            + ",\"import_kind\":".spec_bytes() + j_kind_marker(type_only) + ",\"span\":".spec_bytes()
            + j_span_obj(span, src) + "}".spec_bytes()),
    }
}

/// An import record: source module text and one specifier per binding.
pub open spec fn j_import(im: ImportNode, src: Seq<u8>) -> Seq<u8> {
    "{\"type\":\"ImportDeclaration\",".spec_bytes() + j_node(im.span, src) + ",\"src\":".spec_bytes()
        + jstr(im.src_text@) + ",\"specifiers\":[".spec_bytes() + join_comma(
        im.specifiers@.map_values(|s: ImportSpecNode| j_import_spec(s, im.type_only, src)),
    ) + "]}".spec_bytes()
}

#[verifier::rlimit(100)]
#[verifier::spinoff_prover]
fn emit_import_spec(out: &mut Vec<u8>, s: &ImportSpecNode, type_only: bool, src: &Vec<u8>)
    requires
        wf_import_spec(*s, src@.len() as int),
        fits_source(src@.len() as int),
    ensures
        final(out)@ == old(out)@ + j_import_spec(*s, type_only, src@),
{
    match s {
        ImportSpecNode::DefaultSpec { local, span } => {
            push_lit(out, "{\"kind\":\"Default\",\"local\":".as_bytes());
            push_jstr(out, local);
            push_lit(out, ",\"span\":".as_bytes());
            push_span_obj(out, *span, src);
            push_lit(out, "}".as_bytes());
            proof {
                assert(out@ =~= old(out)@ + j_import_spec(*s, type_only, src@));
            }
        },
        ImportSpecNode::NamespaceSpec { local, span } => {
            push_lit(out, "{\"kind\":\"Namespace\",\"local\":".as_bytes());
            push_jstr(out, local);
            push_lit(out, ",\"span\":".as_bytes());
            push_span_obj(out, *span, src);
            push_lit(out, "}".as_bytes());
            proof {
                assert(out@ =~= old(out)@ + j_import_spec(*s, type_only, src@));
            }
        },
        ImportSpecNode::NamedSpec { local, imported, span } => {
            push_lit(out, "{\"kind\":\"Named\",\"local\":".as_bytes());
            push_jstr(out, local);
            push_lit(out, ",\"imported_ident\":".as_bytes());
            let ii = match imported {
                Option::Some(ModName::ModIdent(n)) => Option::Some(dup_bytes(n)),
                _ => Option::None,
            };
            push_opt_jstr(out, &ii);
            push_lit(out, ",\"imported_str\":".as_bytes());
            let is = match imported {
                Option::Some(ModName::ModText(t)) => Option::Some(dup_bytes(t)),
                _ => Option::None,
            };
            push_opt_jstr(out, &is);
            push_lit(out, ",\"import_kind\":".as_bytes());
            if type_only {
                let k = lit_vec("type".as_bytes());
                push_jstr(out, &k);
            } else {
                push_lit(out, "null".as_bytes());
            }
            push_lit(out, ",\"span\":".as_bytes());
            push_span_obj(out, *span, src);
            push_lit(out, "}".as_bytes());
            proof {
                assert(out@ =~= old(out)@ + j_import_spec(*s, type_only, src@));
            }
        },
    }
}

/// Appends an import record.
#[verifier::loop_isolation(false)]
#[verifier::rlimit(100)]
#[verifier::spinoff_prover]
pub fn emit_import(out: &mut Vec<u8>, im: &ImportNode, src: &Vec<u8>)
    requires
        wf_item(ModuleItemNode::ImportItem(*im), src@.len() as int),
        fits_source(src@.len() as int),
    ensures
        final(out)@ == old(out)@ + j_import(*im, src@),
{
    push_lit(out, "{\"type\":\"ImportDeclaration\",".as_bytes());
    push_node(out, im.span, src);
    push_lit(out, ",\"src\":".as_bytes());
    push_jstr(out, &im.src_text);
    push_lit(out, ",\"specifiers\":[".as_bytes());
    let ghost f = |s: ImportSpecNode| j_import_spec(s, im.type_only, src@);
    let mut i: usize = 0;
    while i < im.specifiers.len()
        invariant
            0 <= i <= im.specifiers@.len(),
            f == (|s: ImportSpecNode| j_import_spec(s, im.type_only, src@)),
            out@ == old(out)@ + "{\"type\":\"ImportDeclaration\",".spec_bytes() + j_node(
                im.span,
                src@,
            ) + ",\"src\":".spec_bytes() + jstr(im.src_text@) + ",\"specifiers\":[".spec_bytes()
                + join_comma(im.specifiers@.take(i as int).map_values(f)),
        decreases im.specifiers@.len() - i,
    {
        if i > 0 {
            push_lit(out, ",".as_bytes());
        }
        emit_import_spec(out, &im.specifiers[i], im.type_only, src);
        proof {
            let prev = im.specifiers@.take(i as int).map_values(f);
            let cur = im.specifiers@.take(i + 1).map_values(f);
            assert(cur =~~= prev.push(j_import_spec(im.specifiers@[i as int], im.type_only, src@)));
            lemma_join_push(prev, j_import_spec(im.specifiers@[i as int], im.type_only, src@));
            assert(prev.len() == i);
        }
        i += 1;
    }
    proof {
        assert(im.specifiers@.take(im.specifiers@.len() as int) == im.specifiers@);
    }
    push_lit(out, "]}".as_bytes());
    proof {
        assert(final(out)@ =~= old(out)@ + j_import(*im, src@));
    }
}

// ---------------------------------------------------------------------------
// Export records.

/// An export-default record; when the exported expression is an object
/// literal, the object's own span rides along for precise replacement.
pub open spec fn j_export_default(span: RawSpan, obj: Option<RawSpan>, src: Seq<u8>) -> Seq<u8> {
    "{\"type\":\"ExportDefaultDeclaration\",".spec_bytes() + j_node(span, src)
        + ",\"obj_span\":".spec_bytes() + j_opt_span_obj(obj, src) + "}".spec_bytes()
}

/// Appends an export-default record.
pub fn emit_export_default(out: &mut Vec<u8>, span: RawSpan, obj: &Option<RawSpan>, src: &Vec<u8>)
    requires
        wf_span(span, src@.len() as int),
        crate::ast::wf_opt_span(*obj, src@.len() as int),
        fits_source(src@.len() as int),
    ensures
        final(out)@ == old(out)@ + j_export_default(span, *obj, src@),
{
    push_lit(out, "{\"type\":\"ExportDefaultDeclaration\",".as_bytes());
    push_node(out, span, src);
    push_lit(out, ",\"obj_span\":".as_bytes());
    push_opt_span_obj(out, obj, src);
    push_lit(out, "}".as_bytes());
    proof {
        assert(final(out)@ =~= old(out)@ + j_export_default(span, *obj, src@));
    }
}

/// One rendered export specifier. A named one records local and exported
/// names by shape; a default-as-named one is written as a named specifier
/// whose exported string is the word `default`; a namespace alias records
/// the alias name alone.
pub open spec fn j_export_spec(s: ExportSpecNode, type_only: bool, src: Seq<u8>) -> Seq<u8> {
    match s {
        ExportSpecNode::NamedExportSpec { orig, exported, span } => (
        "{\"kind\":\"Named\",\"local_ident\":".spec_bytes() + jopt_str(local_ident_of(orig))
            + ",\"exported_ident\":".spec_bytes() + jopt_str(mod_ident_of(exported))
            + ",\"exported_str\":".spec_bytes() + jopt_str(mod_text_of(exported))
            + ",\"export_kind\":".spec_bytes() + j_kind_marker(type_only) + ",\"span\":".spec_bytes()
            + j_span_obj(span, src) + "}".spec_bytes()),
        ExportSpecNode::NamespaceExportSpec { name, span } => (
        "{\"kind\":\"NamespaceAlias\",\"exported_ident\":".spec_bytes() + jstr(mod_name_text(name))
            + ",\"span\":".spec_bytes() + j_span_obj(span, src) + "}".spec_bytes()),
        ExportSpecNode::DefaultExportSpec { exported, span } => (
        "{\"kind\":\"Named\",\"local_ident\":null,\"exported_ident\":".spec_bytes() + jstr(
            exported@,
        ) + ",\"exported_str\":".spec_bytes() + jstr("default".spec_bytes())
            + ",\"export_kind\":".spec_bytes() + j_kind_marker(type_only) + ",\"span\":".spec_bytes()
            + j_span_obj(span, src) + "}".spec_bytes()),
    }
}

#[verifier::rlimit(100)]
#[verifier::spinoff_prover]
fn emit_export_spec(out: &mut Vec<u8>, s: &ExportSpecNode, type_only: bool, src: &Vec<u8>)
    requires
        wf_export_spec(*s, src@.len() as int),
        fits_source(src@.len() as int),
    ensures
        final(out)@ == old(out)@ + j_export_spec(*s, type_only, src@),
{
    match s {
        ExportSpecNode::NamedExportSpec { orig, exported, span } => {
            push_lit(out, "{\"kind\":\"Named\",\"local_ident\":".as_bytes());
            let li = match orig {
                ModName::ModIdent(n) => Option::Some(dup_bytes(n)),
                ModName::ModText(_) => Option::None,
            };
            push_opt_jstr(out, &li);
            push_lit(out, ",\"exported_ident\":".as_bytes());
            let ei = match exported {
                Option::Some(ModName::ModIdent(n)) => Option::Some(dup_bytes(n)),
                _ => Option::None,
            };
            push_opt_jstr(out, &ei);
            push_lit(out, ",\"exported_str\":".as_bytes());
            let es = match exported {
                Option::Some(ModName::ModText(t)) => Option::Some(dup_bytes(t)),
                _ => Option::None,
            };
            push_opt_jstr(out, &es);
            push_lit(out, ",\"export_kind\":".as_bytes());
            if type_only {
                let k = lit_vec("type".as_bytes());
                push_jstr(out, &k);
            } else {
                push_lit(out, "null".as_bytes());
            }
            push_lit(out, ",\"span\":".as_bytes());
            push_span_obj(out, *span, src);
            push_lit(out, "}".as_bytes());
            proof {
                let b = old(out)@;
                let u1 = "{\"kind\":\"Named\",\"local_ident\":".spec_bytes();
                let u2 = jopt_str(local_ident_of(*orig));
                let u3 = ",\"exported_ident\":".spec_bytes();
                let u4 = jopt_str(mod_ident_of(*exported));
                let u5 = ",\"exported_str\":".spec_bytes();
                let u6 = jopt_str(mod_text_of(*exported));
                let u7 = ",\"export_kind\":".spec_bytes();
                let u8 = j_kind_marker(type_only);
                let u9 = ",\"span\":".spec_bytes();
                let u10 = j_span_obj(*span, src@);
                let u11 = "}".spec_bytes();
                crate::jout::lemma_push_assoc(b, u1, u2);
                crate::jout::lemma_push_assoc(b, u1 + u2, u3);
                crate::jout::lemma_push_assoc(b, u1 + u2 + u3, u4);
                crate::jout::lemma_push_assoc(b, u1 + u2 + u3 + u4, u5);
                crate::jout::lemma_push_assoc(b, u1 + u2 + u3 + u4 + u5, u6);
                crate::jout::lemma_push_assoc(b, u1 + u2 + u3 + u4 + u5 + u6, u7);
                crate::jout::lemma_push_assoc(b, u1 + u2 + u3 + u4 + u5 + u6 + u7, u8);
                crate::jout::lemma_push_assoc(b, u1 + u2 + u3 + u4 + u5 + u6 + u7 + u8, u9);
                crate::jout::lemma_push_assoc(b, u1 + u2 + u3 + u4 + u5 + u6 + u7 + u8 + u9, u10);
                crate::jout::lemma_push_assoc(
                    b,
                    u1 + u2 + u3 + u4 + u5 + u6 + u7 + u8 + u9 + u10,
                    u11,
                );
                assert(out@ == b + j_export_spec(*s, type_only, src@));
            }
        },
        ExportSpecNode::NamespaceExportSpec { name, span } => {
            push_lit(out, "{\"kind\":\"NamespaceAlias\",\"exported_ident\":".as_bytes());
            let nt = match name {
                ModName::ModIdent(n) => dup_bytes(n),
                ModName::ModText(t) => dup_bytes(t),
            };
            push_jstr(out, &nt);
            push_lit(out, ",\"span\":".as_bytes());
            push_span_obj(out, *span, src);
            push_lit(out, "}".as_bytes());
            proof {
                assert(out@ =~= old(out)@ + j_export_spec(*s, type_only, src@));
            }
        },
        ExportSpecNode::DefaultExportSpec { exported, span } => {
            push_lit(out, "{\"kind\":\"Named\",\"local_ident\":null,\"exported_ident\":".as_bytes());
            push_jstr(out, exported);
            push_lit(out, ",\"exported_str\":".as_bytes());
            let d = lit_vec("default".as_bytes());
            push_jstr(out, &d);
            push_lit(out, ",\"export_kind\":".as_bytes());
            if type_only {
                let k = lit_vec("type".as_bytes());
                push_jstr(out, &k);
            } else {
                push_lit(out, "null".as_bytes());
            }
            push_lit(out, ",\"span\":".as_bytes());
            push_span_obj(out, *span, src);
            push_lit(out, "}".as_bytes());
            proof {
                let b = old(out)@;
                let u1 = "{\"kind\":\"Named\",\"local_ident\":null,\"exported_ident\":".spec_bytes();
                let u2 = jstr(exported@);
                let u3 = ",\"exported_str\":".spec_bytes();
                let u4 = jstr("default".spec_bytes());
                let u5 = ",\"export_kind\":".spec_bytes();
                let u6 = j_kind_marker(type_only);
                let u7 = ",\"span\":".spec_bytes();
                let u8 = j_span_obj(*span, src@);
                let u9 = "}".spec_bytes();
                crate::jout::lemma_push_assoc(b, u1, u2);
                crate::jout::lemma_push_assoc(b, u1 + u2, u3);
                crate::jout::lemma_push_assoc(b, u1 + u2 + u3, u4);
                crate::jout::lemma_push_assoc(b, u1 + u2 + u3 + u4, u5);
                crate::jout::lemma_push_assoc(b, u1 + u2 + u3 + u4 + u5, u6);
                crate::jout::lemma_push_assoc(b, u1 + u2 + u3 + u4 + u5 + u6, u7);
                crate::jout::lemma_push_assoc(b, u1 + u2 + u3 + u4 + u5 + u6 + u7, u8);
                crate::jout::lemma_push_assoc(b, u1 + u2 + u3 + u4 + u5 + u6 + u7 + u8, u9);
                assert(out@ == b + j_export_spec(*s, type_only, src@));
            }
        },
    }
}

/// A named-export record: its specifiers and the re-export source, if any.
pub open spec fn j_export_named(en: ExportNamedNode, src: Seq<u8>) -> Seq<u8> {
    "{\"type\":\"ExportNamedDeclaration\",".spec_bytes() + j_node(en.span, src)
        + ",\"specifiers\":[".spec_bytes() + join_comma(
        en.specifiers@.map_values(|s: ExportSpecNode| j_export_spec(s, en.type_only, src)),
    ) + "],\"source\":".spec_bytes() + jopt_str(opt_view(en.source)) + "}".spec_bytes()
}

/// Appends a named-export record.
#[verifier::loop_isolation(false)]
#[verifier::rlimit(100)]
#[verifier::spinoff_prover]
pub fn emit_export_named(out: &mut Vec<u8>, en: &ExportNamedNode, src: &Vec<u8>)
    requires
        wf_item(ModuleItemNode::ExportNamedItem(*en), src@.len() as int),
        fits_source(src@.len() as int),
    ensures
        final(out)@ == old(out)@ + j_export_named(*en, src@),
{
    push_lit(out, "{\"type\":\"ExportNamedDeclaration\",".as_bytes());
    push_node(out, en.span, src);
    push_lit(out, ",\"specifiers\":[".as_bytes());
    let ghost f = |s: ExportSpecNode| j_export_spec(s, en.type_only, src@);
    let mut i: usize = 0;
    while i < en.specifiers.len()
        invariant
            0 <= i <= en.specifiers@.len(),
            f == (|s: ExportSpecNode| j_export_spec(s, en.type_only, src@)),
            out@ == old(out)@ + "{\"type\":\"ExportNamedDeclaration\",".spec_bytes() + j_node(
                en.span,
                src@,
            ) + ",\"specifiers\":[".spec_bytes() + join_comma(
                en.specifiers@.take(i as int).map_values(f),
            ),
        decreases en.specifiers@.len() - i,
    {
        if i > 0 {
            push_lit(out, ",".as_bytes());
        }
        emit_export_spec(out, &en.specifiers[i], en.type_only, src);
        proof {
            let prev = en.specifiers@.take(i as int).map_values(f);
            let cur = en.specifiers@.take(i + 1).map_values(f);
            assert(cur =~~= prev.push(j_export_spec(en.specifiers@[i as int], en.type_only, src@)));
            lemma_join_push(prev, j_export_spec(en.specifiers@[i as int], en.type_only, src@));
            assert(prev.len() == i);
        }
        i += 1;
    }
    proof {
        assert(en.specifiers@.take(en.specifiers@.len() as int) == en.specifiers@);
    }
    push_lit(out, "],\"source\":".as_bytes());
    let source = match &en.source {
        Option::None => Option::None,
        Option::Some(t) => Option::Some(dup_bytes(t)),
    };
    push_opt_jstr(out, &source);
    push_lit(out, "}".as_bytes());
    proof {
        assert(final(out)@ =~= old(out)@ + j_export_named(*en, src@));
    }
}

/// A re-export-all record.
pub open spec fn j_export_all(span: RawSpan, src_text: Seq<u8>, src: Seq<u8>) -> Seq<u8> {
    "{\"type\":\"ExportAllDeclaration\",".spec_bytes() + j_node(span, src) + ",\"src\":".spec_bytes()
        + jstr(src_text) + ",\"exported_ident\":null}".spec_bytes()
}

/// Appends a re-export-all record.
pub fn emit_export_all(out: &mut Vec<u8>, span: RawSpan, src_text: &Vec<u8>, src: &Vec<u8>)
    requires
        wf_span(span, src@.len() as int),
        fits_source(src@.len() as int),
    ensures
        final(out)@ == old(out)@ + j_export_all(span, src_text@, src@),
{
    push_lit(out, "{\"type\":\"ExportAllDeclaration\",".as_bytes());
    push_node(out, span, src);
    push_lit(out, ",\"src\":".as_bytes());
    push_jstr(out, src_text);
    push_lit(out, ",\"exported_ident\":null}".as_bytes());
    proof {
        assert(final(out)@ =~= old(out)@ + j_export_all(span, src_text@, src@));
    }
}

/// An exported function or class declaration, recorded by name alone.
pub open spec fn j_export_decl(fn_form: bool, span: RawSpan, name: Seq<u8>, src: Seq<u8>) -> Seq<
    u8,
> {
    (if fn_form {
        "{\"type\":\"ExportDeclFn\",".spec_bytes()
    } else {
        "{\"type\":\"ExportDeclClass\",".spec_bytes()
    }) + j_node(span, src) + ",\"name\":".spec_bytes() + jstr(name) + "}".spec_bytes()
}

/// Appends an exported function or class record.
pub fn emit_export_decl(out: &mut Vec<u8>, fn_form: bool, span: RawSpan, name: &Vec<u8>, src: &Vec<u8>)
    requires
        wf_span(span, src@.len() as int),
        fits_source(src@.len() as int),
    ensures
        final(out)@ == old(out)@ + j_export_decl(fn_form, span, name@, src@),
{
    if fn_form {
        push_lit(out, "{\"type\":\"ExportDeclFn\",".as_bytes());
    } else {
        push_lit(out, "{\"type\":\"ExportDeclClass\",".as_bytes());
    }
    push_node(out, span, src);
    push_lit(out, ",\"name\":".as_bytes());
    push_jstr(out, name);
    push_lit(out, "}".as_bytes());
    proof {
        assert(final(out)@ =~= old(out)@ + j_export_decl(fn_form, span, name@, src@));
    }
}

// ---------------------------------------------------------------------------
// Variable records: one per declarator.

/// The kind keyword's text.
pub open spec fn kind_text(k: DeclKind) -> Seq<u8> {
    match k {
        DeclKind::VarKind => "var".spec_bytes(),
        DeclKind::LetKind => "let".spec_bytes(),
        DeclKind::ConstKind => "const".spec_bytes(),
    }
}

/// The span a binding pattern covers.
pub open spec fn pat_span_of(p: PatNode) -> RawSpan {
    match p {
        PatNode::IdentPat { span, .. } => span,
        PatNode::ArrayPat { span, .. } => span,
        PatNode::ObjectPat { span, .. } => span,
        PatNode::RestPat { span, .. } => span,
        PatNode::AssignPat { span, .. } => span,
        PatNode::OtherPat { span } => span,
    }
}

/// The primary bound name of a pattern: the first name it binds, or empty
/// when it binds none.
pub open spec fn primary_name(p: PatNode) -> Seq<u8> {
    if names_of_pat(p).len() > 0 {
        names_of_pat(p)[0]
    } else {
        Seq::empty()
    }
}

/// The verbatim initializer text, when an initializer exists.
pub open spec fn init_text_of(init: Option<crate::ast::InitInfo>, src: Seq<u8>) -> Option<Seq<u8>> {
    match init {
        Option::None => Option::None,
        Option::Some(ii) => Option::Some(snip(src, ii.span)),
    }
}

/// The initializer's plain-identifier callee, when the initializer is such
/// a call.
pub open spec fn init_callee_of(init: Option<crate::ast::InitInfo>) -> Option<Seq<u8>> {
    match init {
        Option::None => Option::None,
        Option::Some(ii) => opt_view(ii.callee_ident),
    }
}

/// The initializer's span object, or `null` without an initializer.
pub open spec fn init_span_json(init: Option<crate::ast::InitInfo>, src: Seq<u8>) -> Seq<u8> {
    match init {
        Option::None => "null".spec_bytes(),
        Option::Some(ii) => j_span_obj(ii.span, src),
    }
}

/// The verbatim texts of the initializer's explicit type arguments, when
/// the initializer is a call that has them.
pub open spec fn init_targs_json(init: Option<crate::ast::InitInfo>, src: Seq<u8>) -> Seq<u8> {
    match init {
        Option::None => "null".spec_bytes(),
        Option::Some(ii) => match ii.type_arg_spans {
            Option::None => "null".spec_bytes(),
            Option::Some(ts) => jstr_arr(snips_of(ts@, src)),
        },
    }
}

/// The structured array pattern of a binding target, or `null` for any
/// other pattern shape.
pub open spec fn arr_pat_json_of(p: PatNode, src: Seq<u8>) -> Seq<u8> {
    match p {
        PatNode::ArrayPat { elems, type_ann, .. } => j_arr_pat(elems@, type_ann, src),
        _ => "null".spec_bytes(),
    }
}

/// The structured object pattern of a binding target, or `null` for any
/// other pattern shape.
pub open spec fn obj_pat_json_of(p: PatNode, src: Seq<u8>) -> Seq<u8> {
    match p {
        PatNode::ObjectPat { props, type_ann, .. } => j_obj_pat(props@, type_ann, src),
        _ => "null".spec_bytes(),
    }
}

/// The local name of a named export specifier, present when it is a plain
/// identifier.
pub open spec fn local_ident_of(orig: ModName) -> Option<Seq<u8>> {
    match orig {
        ModName::ModIdent(n) => Option::Some(n@),
        ModName::ModText(_) => Option::None,
    }
}

/// The first half of a variable record: position, kind keyword, primary
/// name, the pattern's own span, every bound name, and whether an
/// initializer exists.
pub open spec fn j_var_head(
    kind: DeclKind,
    vspan: RawSpan,
    d: DeclaratorNode,
    src: Seq<u8>,
) -> Seq<u8> {
    "{\"type\":\"VariableDeclaration\",".spec_bytes() + j_node(vspan, src)
        + ",\"decl_kind\":".spec_bytes() + jstr(kind_text(kind)) + ",\"name\":".spec_bytes() + jstr(
        primary_name(d.pat),
    ) + ",\"name_span\":".spec_bytes() + j_span_obj(pat_span_of(d.pat), src)
        + ",\"names\":".spec_bytes() + jstr_arr(names_of_pat(d.pat)) + ",\"inited\":".spec_bytes()
        + jbool(d.init matches Option::Some(_))
}

/// The second half of a variable record: the initializer's text, span,
/// plain callee and explicit type arguments, and the structured pattern
/// when the binding target destructures an array or an object.
pub open spec fn j_var_tail(d: DeclaratorNode, src: Seq<u8>) -> Seq<u8> {
    ",\"init_text\":".spec_bytes() + jopt_str(init_text_of(d.init, src))
        + ",\"init_callee_ident\":".spec_bytes() + jopt_str(init_callee_of(d.init))
        + ",\"init_span\":".spec_bytes() + init_span_json(d.init, src)
        + ",\"type_parameters\":".spec_bytes() + init_targs_json(d.init, src)
        + ",\"array_pattern\":".spec_bytes() + arr_pat_json_of(d.pat, src)
        + ",\"object_pattern\":".spec_bytes() + obj_pat_json_of(d.pat, src) + "}".spec_bytes()
}

/// One variable record.
#[verifier::opaque]
pub open spec fn j_var_one(kind: DeclKind, vspan: RawSpan, d: DeclaratorNode, src: Seq<u8>) -> Seq<
    u8,
> {
    j_var_head(kind, vspan, d, src) + j_var_tail(d, src)
}

fn get_pat_span(p: &PatNode) -> (r: RawSpan)
    ensures
        r == pat_span_of(*p),
{
    match p {
        PatNode::IdentPat { span, .. } => *span,
        PatNode::ArrayPat { span, .. } => *span,
        PatNode::ObjectPat { span, .. } => *span,
        PatNode::RestPat { span, .. } => *span,
        PatNode::AssignPat { span, .. } => *span,
        PatNode::OtherPat { span } => *span,
    }
}

#[verifier::rlimit(100)]
#[verifier::spinoff_prover]
fn emit_var_head(out: &mut Vec<u8>, kind: DeclKind, vspan: RawSpan, d: &DeclaratorNode, src: &Vec<u8>)
    requires
        wf_span(vspan, src@.len() as int),
        wf_declarator(*d, src@.len() as int),
        fits_source(src@.len() as int),
    ensures
        final(out)@ == old(out)@ + j_var_head(kind, vspan, *d, src@),
{
    push_lit(out, "{\"type\":\"VariableDeclaration\",".as_bytes());
    push_node(out, vspan, src);
    push_lit(out, ",\"decl_kind\":".as_bytes());
    let kt = match kind {
        DeclKind::VarKind => lit_vec("var".as_bytes()),
        DeclKind::LetKind => lit_vec("let".as_bytes()),
        DeclKind::ConstKind => lit_vec("const".as_bytes()),
    };
    push_jstr(out, &kt);
    push_lit(out, ",\"name\":".as_bytes());
    let mut names: Vec<Vec<u8>> = Vec::new();
    proof {
        assert(names.deep_view() =~~= Seq::<Seq<u8>>::empty());
    }
    collect_pat_idents(&d.pat, &mut names);
    proof {
        assert(names.deep_view() =~~= names_of_pat(d.pat));
    }
    let name = if names.len() > 0 {
        dup_bytes(&names[0])
    } else {
        Vec::new()
    };
    proof {
        if names_of_pat(d.pat).len() > 0 {
            assert(names.deep_view()[0] == names@[0]@);
        }
        assert(name@ == primary_name(d.pat));
    }
    push_jstr(out, &name);
    push_lit(out, ",\"name_span\":".as_bytes());
    let ps = get_pat_span(&d.pat);
    proof {
        crate::items::lemma_wf_pat_span(d.pat, src@.len() as int);
    }
    push_span_obj(out, ps, src);
    push_lit(out, ",\"names\":".as_bytes());
    push_str_arr(out, &names);
    push_lit(out, ",\"inited\":".as_bytes());
    let inited = match &d.init {
        Option::Some(_) => true,
        Option::None => false,
    };
    push_bool(out, inited);
    proof {
        let b = old(out)@;
        let t1 = "{\"type\":\"VariableDeclaration\",".spec_bytes();
        let t2 = j_node(vspan, src@);
        let t3 = ",\"decl_kind\":".spec_bytes();
        let t4 = jstr(kind_text(kind));
        let t5 = ",\"name\":".spec_bytes();
        let t6 = jstr(primary_name(d.pat));
        let t7 = ",\"name_span\":".spec_bytes();
        let t8 = j_span_obj(pat_span_of(d.pat), src@);
        let t9 = ",\"names\":".spec_bytes();
        let t10 = jstr_arr(names_of_pat(d.pat));
        let t11 = ",\"inited\":".spec_bytes();
        let t12 = jbool(d.init matches Option::Some(_));
        assert(kt@ == kind_text(kind));
        crate::jout::lemma_push_assoc(b, t1, t2);
        crate::jout::lemma_push_assoc(b, t1 + t2, t3);
        crate::jout::lemma_push_assoc(b, t1 + t2 + t3, t4);
        crate::jout::lemma_push_assoc(b, t1 + t2 + t3 + t4, t5);
        crate::jout::lemma_push_assoc(b, t1 + t2 + t3 + t4 + t5, t6);
        crate::jout::lemma_push_assoc(b, t1 + t2 + t3 + t4 + t5 + t6, t7);
        crate::jout::lemma_push_assoc(b, t1 + t2 + t3 + t4 + t5 + t6 + t7, t8);
        crate::jout::lemma_push_assoc(b, t1 + t2 + t3 + t4 + t5 + t6 + t7 + t8, t9);
        crate::jout::lemma_push_assoc(b, t1 + t2 + t3 + t4 + t5 + t6 + t7 + t8 + t9, t10);
        crate::jout::lemma_push_assoc(b, t1 + t2 + t3 + t4 + t5 + t6 + t7 + t8 + t9 + t10, t11);
        crate::jout::lemma_push_assoc(
            b,
            t1 + t2 + t3 + t4 + t5 + t6 + t7 + t8 + t9 + t10 + t11,
            t12,
        );
        assert(out@ == b + j_var_head(kind, vspan, *d, src@));
    }
}

/// A pattern's own span is well formed whenever the pattern is.
pub proof fn lemma_wf_pat_span(p: PatNode, len: int)
    requires
        wf_pat(p, len),
    ensures
        wf_span(pat_span_of(p), len),
{
}

#[verifier::rlimit(100)]
#[verifier::spinoff_prover]
fn emit_var_tail(out: &mut Vec<u8>, d: &DeclaratorNode, src: &Vec<u8>)
    requires
        wf_declarator(*d, src@.len() as int),
        fits_source(src@.len() as int),
    ensures
        final(out)@ == old(out)@ + j_var_tail(*d, src@),
{
    push_lit(out, ",\"init_text\":".as_bytes());
    let it = match &d.init {
        Option::None => Option::None,
        Option::Some(ii) => Option::Some(snippet(src, ii.span)),
    };
    push_opt_jstr(out, &it);
    push_lit(out, ",\"init_callee_ident\":".as_bytes());
    let ic = match &d.init {
        Option::None => Option::None,
        Option::Some(ii) => match &ii.callee_ident {
            Option::None => Option::None,
            Option::Some(c) => Option::Some(dup_bytes(c)),
        },
    };
    push_opt_jstr(out, &ic);
    push_lit(out, ",\"init_span\":".as_bytes());
    match &d.init {
        Option::None => {
            push_lit(out, "null".as_bytes());
        },
        Option::Some(ii) => {
            push_span_obj(out, ii.span, src);
        },
    }
    push_lit(out, ",\"type_parameters\":".as_bytes());
    match &d.init {
        Option::None => {
            push_lit(out, "null".as_bytes());
        },
        Option::Some(ii) => match &ii.type_arg_spans {
            Option::None => {
                push_lit(out, "null".as_bytes());
            },
            Option::Some(ts) => {
                emit_snip_arr(out, ts, src);
            },
        },
    }
    push_lit(out, ",\"array_pattern\":".as_bytes());
    match &d.pat {
        PatNode::ArrayPat { elems, type_ann, .. } => {
            emit_arr_pat(out, elems, type_ann, src);
        },
        _ => {
            push_lit(out, "null".as_bytes());
        },
    }
    push_lit(out, ",\"object_pattern\":".as_bytes());
    match &d.pat {
        PatNode::ObjectPat { props, type_ann, .. } => {
            emit_obj_pat(out, props, type_ann, src);
        },
        _ => {
            push_lit(out, "null".as_bytes());
        },
    }
    push_lit(out, "}".as_bytes());
    proof {
        let b = old(out)@;
        let t1 = ",\"init_text\":".spec_bytes();
        let t2 = jopt_str(init_text_of(d.init, src@));
        let t3 = ",\"init_callee_ident\":".spec_bytes();
        let t4 = jopt_str(init_callee_of(d.init));
        let t5 = ",\"init_span\":".spec_bytes();
        let t6 = init_span_json(d.init, src@);
        let t7 = ",\"type_parameters\":".spec_bytes();
        let t8 = init_targs_json(d.init, src@);
        let t9 = ",\"array_pattern\":".spec_bytes();
        let t10 = arr_pat_json_of(d.pat, src@);
        let t11 = ",\"object_pattern\":".spec_bytes();
        let t12 = obj_pat_json_of(d.pat, src@);
        let t13 = "}".spec_bytes();
        crate::jout::lemma_push_assoc(b, t1, t2);
        crate::jout::lemma_push_assoc(b, t1 + t2, t3);
        crate::jout::lemma_push_assoc(b, t1 + t2 + t3, t4);
        crate::jout::lemma_push_assoc(b, t1 + t2 + t3 + t4, t5);
        crate::jout::lemma_push_assoc(b, t1 + t2 + t3 + t4 + t5, t6);
        crate::jout::lemma_push_assoc(b, t1 + t2 + t3 + t4 + t5 + t6, t7);
        crate::jout::lemma_push_assoc(b, t1 + t2 + t3 + t4 + t5 + t6 + t7, t8);
        crate::jout::lemma_push_assoc(b, t1 + t2 + t3 + t4 + t5 + t6 + t7 + t8, t9);
        crate::jout::lemma_push_assoc(b, t1 + t2 + t3 + t4 + t5 + t6 + t7 + t8 + t9, t10);
        crate::jout::lemma_push_assoc(b, t1 + t2 + t3 + t4 + t5 + t6 + t7 + t8 + t9 + t10, t11);
        crate::jout::lemma_push_assoc(
            b,
            t1 + t2 + t3 + t4 + t5 + t6 + t7 + t8 + t9 + t10 + t11,
            t12,
        );
        crate::jout::lemma_push_assoc(
            b,
            t1 + t2 + t3 + t4 + t5 + t6 + t7 + t8 + t9 + t10 + t11 + t12,
            t13,
        );
        assert(out@ == b + j_var_tail(*d, src@));
    }
}

/// Appends one variable record.
pub fn emit_var_one(out: &mut Vec<u8>, kind: DeclKind, vspan: RawSpan, d: &DeclaratorNode, src: &Vec<u8>)
    requires
        wf_span(vspan, src@.len() as int),
        wf_declarator(*d, src@.len() as int),
        fits_source(src@.len() as int),
    ensures
        final(out)@ == old(out)@ + j_var_one(kind, vspan, *d, src@),
{
    emit_var_head(out, kind, vspan, d, src);
    emit_var_tail(out, d, src);
    proof {
        reveal(j_var_one);
        assert(final(out)@ =~= old(out)@ + j_var_one(kind, vspan, *d, src@));
    }
}

// ---------------------------------------------------------------------------
// Function and class records.

/// A function record: name, verbatim text, flags, parameter descriptors and
/// return-type text.
pub open spec fn j_fn_decl(f: FnDeclNode, src: Seq<u8>) -> Seq<u8> {
    "{\"type\":\"FunctionDeclaration\",".spec_bytes() + j_node(f.fn_span, src)
        + ",\"name\":".spec_bytes() + jstr(f.name@) + ",\"text\":".spec_bytes() + jstr(
        snip(src, f.fn_span),
    ) + ",\"async\":".spec_bytes() + jbool(f.is_async) + ",\"generator\":".spec_bytes() + jbool(
        f.is_generator,
    ) + ",\"params\":".spec_bytes() + "[".spec_bytes() + join_comma(
        f.params@.map_values(|p: PatNode| j_param(p, src)),
    ) + "]".spec_bytes() + ",\"return_type\":".spec_bytes() + jopt_str(opt_snip(f.return_type, src))
        + "}".spec_bytes()
}

/// Appends a function record.
#[verifier::rlimit(100)]
#[verifier::spinoff_prover]
pub fn emit_fn_decl(out: &mut Vec<u8>, f: &FnDeclNode, src: &Vec<u8>)
    requires
        wf_item(ModuleItemNode::FnDeclItem(*f), src@.len() as int),
        fits_source(src@.len() as int),
    ensures
        final(out)@ == old(out)@ + j_fn_decl(*f, src@),
{
    push_lit(out, "{\"type\":\"FunctionDeclaration\",".as_bytes());
    push_node(out, f.fn_span, src);
    push_lit(out, ",\"name\":".as_bytes());
    push_jstr(out, &f.name);
    push_lit(out, ",\"text\":".as_bytes());
    let text = snippet(src, f.fn_span);
    push_jstr(out, &text);
    push_lit(out, ",\"async\":".as_bytes());
    push_bool(out, f.is_async);
    push_lit(out, ",\"generator\":".as_bytes());
    push_bool(out, f.is_generator);
    push_lit(out, ",\"params\":".as_bytes());
    emit_param_arr(out, &f.params, src);
    push_lit(out, ",\"return_type\":".as_bytes());
    let rt = get_opt_snip(&f.return_type, src);
    push_opt_jstr(out, &rt);
    push_lit(out, "}".as_bytes());
    proof {
        let b = old(out)@;
        let t1 = "{\"type\":\"FunctionDeclaration\",".spec_bytes();
        let t2 = j_node(f.fn_span, src@);
        let t3 = ",\"name\":".spec_bytes();
        let t4 = jstr(f.name@);
        let t5 = ",\"text\":".spec_bytes();
        let t6 = jstr(snip(src@, f.fn_span));
        let t7 = ",\"async\":".spec_bytes();
        let t8 = jbool(f.is_async);
        let t9 = ",\"generator\":".spec_bytes();
        let t10 = jbool(f.is_generator);
        let t11 = ",\"params\":".spec_bytes();
        let t12 = "[".spec_bytes() + join_comma(f.params@.map_values(|p: PatNode| j_param(p, src@)))
            + "]".spec_bytes();
        let t13 = ",\"return_type\":".spec_bytes();
        let t14 = jopt_str(opt_snip(f.return_type, src@));
        let t15 = "}".spec_bytes();
        crate::jout::lemma_push_assoc(b, t1, t2);
        crate::jout::lemma_push_assoc(b, t1 + t2, t3);
        crate::jout::lemma_push_assoc(b, t1 + t2 + t3, t4);
        crate::jout::lemma_push_assoc(b, t1 + t2 + t3 + t4, t5);
        crate::jout::lemma_push_assoc(b, t1 + t2 + t3 + t4 + t5, t6);
        crate::jout::lemma_push_assoc(b, t1 + t2 + t3 + t4 + t5 + t6, t7);
        crate::jout::lemma_push_assoc(b, t1 + t2 + t3 + t4 + t5 + t6 + t7, t8);
        crate::jout::lemma_push_assoc(b, t1 + t2 + t3 + t4 + t5 + t6 + t7 + t8, t9);
        crate::jout::lemma_push_assoc(b, t1 + t2 + t3 + t4 + t5 + t6 + t7 + t8 + t9, t10);
        crate::jout::lemma_push_assoc(b, t1 + t2 + t3 + t4 + t5 + t6 + t7 + t8 + t9 + t10, t11);
        let pfx = b + t1 + t2 + t3 + t4 + t5 + t6 + t7 + t8 + t9 + t10 + t11;
        let jn = join_comma(f.params@.map_values(|p: PatNode| j_param(p, src@)));
        crate::jout::lemma_push_assoc(pfx, "[".spec_bytes(), jn);
        crate::jout::lemma_push_assoc(pfx, "[".spec_bytes() + jn, "]".spec_bytes());
        crate::jout::lemma_push_assoc(
            b,
            t1 + t2 + t3 + t4 + t5 + t6 + t7 + t8 + t9 + t10 + t11,
            t12,
        );
        crate::jout::lemma_push_assoc(
            b,
            t1 + t2 + t3 + t4 + t5 + t6 + t7 + t8 + t9 + t10 + t11 + t12,
            t13,
        );
        crate::jout::lemma_push_assoc(
            b,
            t1 + t2 + t3 + t4 + t5 + t6 + t7 + t8 + t9 + t10 + t11 + t12 + t13,
            t14,
        );
        crate::jout::lemma_push_assoc(
            b,
            t1 + t2 + t3 + t4 + t5 + t6 + t7 + t8 + t9 + t10 + t11 + t12 + t13 + t14,
            t15,
        );
        assert(out@ == b + j_fn_decl(*f, src@));
    }
}

/// A class record: name, superclass text, `implements` entries, decorator
/// texts, and the lowered members in declaration order.
pub open spec fn j_class_decl(c: ClassDeclNode, src: Seq<u8>) -> Seq<u8> {
    "{\"type\":\"ClassDeclaration\",".spec_bytes() + j_node(c.class_span, src)
        + ",\"name\":".spec_bytes() + jstr(c.name@) + ",\"super_class\":".spec_bytes() + jopt_str(
        opt_snip(c.super_span, src),
    ) + ",\"implements\":".spec_bytes() + jstr_arr(snips_of(c.implement_spans@, src))
        + ",\"decorators\":".spec_bytes() + jstr_arr(snips_of(c.decorator_spans@, src))
        + ",\"members\":".spec_bytes() + "[".spec_bytes() + join_comma(
        c.members@.map_values(|m: crate::ast::MemberNode| j_member(m, src)),
    ) + "]".spec_bytes() + "}".spec_bytes()
}

/// Appends a class record.
#[verifier::rlimit(100)]
#[verifier::spinoff_prover]
pub fn emit_class_decl(out: &mut Vec<u8>, c: &ClassDeclNode, src: &Vec<u8>)
    requires
        wf_item(ModuleItemNode::ClassDeclItem(*c), src@.len() as int),
        fits_source(src@.len() as int),
    ensures
        final(out)@ == old(out)@ + j_class_decl(*c, src@),
{
    push_lit(out, "{\"type\":\"ClassDeclaration\",".as_bytes());
    push_node(out, c.class_span, src);
    push_lit(out, ",\"name\":".as_bytes());
    push_jstr(out, &c.name);
    push_lit(out, ",\"super_class\":".as_bytes());
    let sc = get_opt_snip(&c.super_span, src);
    push_opt_jstr(out, &sc);
    push_lit(out, ",\"implements\":".as_bytes());
    emit_snip_arr(out, &c.implement_spans, src);
    push_lit(out, ",\"decorators\":".as_bytes());
    emit_snip_arr(out, &c.decorator_spans, src);
    push_lit(out, ",\"members\":".as_bytes());
    emit_member_arr(out, &c.members, src);
    push_lit(out, "}".as_bytes());
    proof {
        assert(final(out)@ =~= old(out)@ + j_class_decl(*c, src@));
    }
}

// ---------------------------------------------------------------------------
// The flat record sequence of a module, in traversal order.

/// The records one top-level item yields: none for unrecorded kinds, one
/// for most, one per declarator for a variable declaration, and one per
/// intercepted node for any other statement.
#[verifier::opaque]
pub open spec fn item_pieces(it: ModuleItemNode, src: Seq<u8>) -> Seq<Seq<u8>> {
    match it {
        ModuleItemNode::ImportItem(im) => seq![j_import(im, src)],
        ModuleItemNode::ExportDefaultDeclItem { span } => seq![
            j_export_default(span, Option::None, src),
        ],
        ModuleItemNode::ExportDefaultExprItem { span, expr_span, expr_is_object } => seq![
            j_export_default(
                span,
                if expr_is_object {
                    Option::Some(expr_span)
                } else {
                    Option::None
                },
                src,
            ),
        ],
        ModuleItemNode::ExportNamedItem(en) => seq![j_export_named(en, src)],
        ModuleItemNode::ExportAllItem { span, src_text } => seq![
            j_export_all(span, src_text@, src),
        ],
        ModuleItemNode::ExportDeclFnItem { name, fn_span } => seq![
            j_export_decl(true, fn_span, name@, src),
        ],
        ModuleItemNode::ExportDeclClassItem { name, class_span } => seq![
            j_export_decl(false, class_span, name@, src),
        ],
        ModuleItemNode::ExportDeclOtherItem => Seq::empty(),
        ModuleItemNode::ModuleOtherItem => Seq::empty(),
        ModuleItemNode::VarDeclItem(v) => v.decls@.map_values(
            |d: DeclaratorNode| j_var_one(v.kind, v.span, d, src),
        ),
        ModuleItemNode::FnDeclItem(f) => seq![j_fn_decl(f, src)],
        ModuleItemNode::ClassDeclItem(c) => seq![j_class_decl(c, src)],
        ModuleItemNode::DeclOtherItem => Seq::empty(),
        ModuleItemNode::StmtItem { events } => events@.map_values(|e: EventNode| j_event(e, src)),
    }
}

/// The records of a whole item list, in document order.
pub open spec fn items_pieces(items: Seq<ModuleItemNode>, src: Seq<u8>) -> Seq<Seq<u8>>
    decreases items,
{
    if items.len() == 0 {
        Seq::empty()
    } else {
        items_pieces(items.drop_last(), src) + item_pieces(items.last(), src)
    }
}

/// The whole module document.
pub open spec fn module_json(items: Seq<ModuleItemNode>, src: Seq<u8>) -> Seq<u8> {
    "{\"body\":[".spec_bytes() + join_comma(items_pieces(items, src)) + "]}".spec_bytes()
}

/// The bytes a run of records appends when `any` records came before it:
/// every record gets a leading comma except a first record of the whole
/// document.
pub open spec fn emit_run(pieces: Seq<Seq<u8>>, any: bool) -> Seq<u8>
    decreases pieces,
{
    if pieces.len() == 0 {
        Seq::empty()
    } else {
        emit_run(pieces.drop_last(), any) + (if any || pieces.len() > 1 {
            ",".spec_bytes()
        } else {
            Seq::<u8>::empty()
        }) + pieces.last()
    }
}

/// Joining a concatenation splits into joining the front and appending the
/// back as a run.
pub proof fn lemma_join_concat(a: Seq<Seq<u8>>, b: Seq<Seq<u8>>)
    ensures
        join_comma(a + b) == join_comma(a) + emit_run(b, a.len() > 0),
    decreases b.len(),
{
    if b.len() == 0 {
        assert(a + b =~= a);
        assert(join_comma(a + b) =~= join_comma(a) + emit_run(b, a.len() > 0));
    } else {
        lemma_join_concat(a, b.drop_last());
        assert((a + b).drop_last() =~= a + b.drop_last());
        assert((a + b).last() == b.last());
        assert(join_comma(a + b) =~= join_comma(a) + emit_run(b, a.len() > 0));
    }
}

/// Appending one more record to a run.
pub proof fn lemma_emit_run_push(s: Seq<Seq<u8>>, x: Seq<u8>, any: bool)
    ensures
        emit_run(s.push(x), any) == emit_run(s, any) + (if any || s.len() > 0 {
            ",".spec_bytes()
        } else {
            Seq::<u8>::empty()
        }) + x,
{
    assert(s.push(x).drop_last() =~= s);
    assert(s.push(x).last() == x);
}

/// A run of one record: a leading comma exactly when records came before.
pub proof fn lemma_emit_run_one(x: Seq<u8>, any: bool)
    ensures
        any ==> emit_run(seq![x], any) == ",".spec_bytes() + x,
        !any ==> emit_run(seq![x], any) == x,
{
    let s = seq![x];
    assert(s.len() == 1);
    assert(s.drop_last() =~= Seq::<Seq<u8>>::empty());
    assert(s.last() == x);
    assert(emit_run(s.drop_last(), any) == Seq::<u8>::empty());
    if any {
        assert(emit_run(s, any) =~= ",".spec_bytes() + x);
    } else {
        assert(emit_run(s, any) =~= x);
    }
}

/// Splitting a leading comma off a concatenation.
pub proof fn lemma_comma_step(base: Seq<u8>, piece: Seq<u8>)
    ensures
        base + ",".spec_bytes() + piece == base + (",".spec_bytes() + piece),
{
    assert(base + ",".spec_bytes() + piece =~= base + (",".spec_bytes() + piece));
}

/// Appends one variable record per declarator, each with its leading comma
/// as needed.
#[verifier::loop_isolation(false)]
#[verifier::rlimit(100)]
#[verifier::spinoff_prover]
fn emit_var_item(out: &mut Vec<u8>, v: &VarDeclNode, any: bool, src: &Vec<u8>) -> (emitted: bool)
    requires
        wf_item(ModuleItemNode::VarDeclItem(*v), src@.len() as int),
        fits_source(src@.len() as int),
    ensures
        emitted == (v.decls@.len() > 0),
        final(out)@ == old(out)@ + emit_run(
            v.decls@.map_values(|d: DeclaratorNode| j_var_one(v.kind, v.span, d, src@)),
            any,
        ),
{
    let ghost f = |d: DeclaratorNode| j_var_one(v.kind, v.span, d, src@);
    let mut j: usize = 0;
    while j < v.decls.len()
        invariant
            0 <= j <= v.decls@.len(),
            f == (|d: DeclaratorNode| j_var_one(v.kind, v.span, d, src@)),
            out@ == old(out)@ + emit_run(v.decls@.take(j as int).map_values(f), any),
        decreases v.decls@.len() - j,
    {
        if any || j > 0 {
            push_lit(out, ",".as_bytes());
        }
        emit_var_one(out, v.kind, v.span, &v.decls[j], src);
        proof {
            let prev = v.decls@.take(j as int).map_values(f);
            let cur = v.decls@.take(j + 1).map_values(f);
            assert(cur =~~= prev.push(j_var_one(v.kind, v.span, v.decls@[j as int], src@)));
            lemma_emit_run_push(prev, j_var_one(v.kind, v.span, v.decls@[j as int], src@), any);
            assert(prev.len() == j);
            assert(out@ =~= old(out)@ + emit_run(cur, any));
        }
        j += 1;
    }
    proof {
        assert(v.decls@.take(v.decls@.len() as int) == v.decls@);
    }
    v.decls.len() > 0
}

/// Appends one record per intercepted node of a statement, each with its
/// leading comma as needed.
#[verifier::loop_isolation(false)]
#[verifier::rlimit(50)]
fn emit_stmt_item(out: &mut Vec<u8>, events: &Vec<EventNode>, any: bool, src: &Vec<u8>) -> (emitted:
    bool)
    requires
        forall|i: int| 0 <= i < events@.len() ==> wf_event(#[trigger] events@[i], src@.len() as int),
        fits_source(src@.len() as int),
    ensures
        emitted == (events@.len() > 0),
        final(out)@ == old(out)@ + emit_run(
            events@.map_values(|ev: EventNode| j_event(ev, src@)),
            any,
        ),
{
    let ghost f = |ev: EventNode| j_event(ev, src@);
    let mut j: usize = 0;
    while j < events.len()
        invariant
            0 <= j <= events@.len(),
            f == (|ev: EventNode| j_event(ev, src@)),
            out@ == old(out)@ + emit_run(events@.take(j as int).map_values(f), any),
        decreases events@.len() - j,
    {
        if any || j > 0 {
            push_lit(out, ",".as_bytes());
        }
        emit_event(out, &events[j], src);
        proof {
            let prev = events@.take(j as int).map_values(f);
            let cur = events@.take(j + 1).map_values(f);
            assert(cur =~~= prev.push(j_event(events@[j as int], src@)));
            lemma_emit_run_push(prev, j_event(events@[j as int], src@), any);
            assert(prev.len() == j);
            assert(out@ =~= old(out)@ + emit_run(cur, any));
        }
        j += 1;
    }
    proof {
        assert(events@.take(events@.len() as int) == events@);
    }
    events.len() > 0
}

/// Appends every record one top-level item yields, each with its leading
/// comma as needed, and reports whether any record was appended.
#[verifier::spinoff_prover]
#[verifier::rlimit(100)]
pub fn emit_item(out: &mut Vec<u8>, it: &ModuleItemNode, any: bool, src: &Vec<u8>) -> (emitted:
    bool)
    requires
        wf_item(*it, src@.len() as int),
        fits_source(src@.len() as int),
    ensures
        emitted == (item_pieces(*it, src@).len() > 0),
        final(out)@ == old(out)@ + emit_run(item_pieces(*it, src@), any),
{
    proof {
        reveal(item_pieces);
    }
    match it {
        ModuleItemNode::ImportItem(im) => {
            if any {
                push_lit(out, ",".as_bytes());
            }
            emit_import(out, im, src);
            proof {
                lemma_emit_run_one(j_import(*im, src@), any);
                if any {
                    lemma_comma_step(old(out)@, j_import(*im, src@));
                }
            }
            true
        },
        ModuleItemNode::ExportDefaultDeclItem { span } => {
            if any {
                push_lit(out, ",".as_bytes());
            }
            let obj: Option<RawSpan> = Option::None;
            emit_export_default(out, *span, &obj, src);
            proof {
                lemma_emit_run_one(j_export_default(*span, Option::None, src@), any);
                if any {
                    lemma_comma_step(old(out)@, j_export_default(*span, Option::None, src@));
                }
            }
            true
        },
        ModuleItemNode::ExportDefaultExprItem { span, expr_span, expr_is_object } => {
            if any {
                push_lit(out, ",".as_bytes());
            }
            let obj: Option<RawSpan> = if *expr_is_object {
                Option::Some(*expr_span)
            } else {
                Option::None
            };
            emit_export_default(out, *span, &obj, src);
            proof {
                let ghost o = if *expr_is_object {
                    Option::Some(*expr_span)
                } else {
                    Option::<RawSpan>::None
                };
                lemma_emit_run_one(j_export_default(*span, o, src@), any);
                if any {
                    lemma_comma_step(old(out)@, j_export_default(*span, o, src@));
                }
            }
            true
        },
        ModuleItemNode::ExportNamedItem(en) => {
            if any {
                push_lit(out, ",".as_bytes());
            }
            emit_export_named(out, en, src);
            proof {
                lemma_emit_run_one(j_export_named(*en, src@), any);
                if any {
                    lemma_comma_step(old(out)@, j_export_named(*en, src@));
                }
            }
            true
        },
        ModuleItemNode::ExportAllItem { span, src_text } => {
            if any {
                push_lit(out, ",".as_bytes());
            }
            emit_export_all(out, *span, src_text, src);
            proof {
                lemma_emit_run_one(j_export_all(*span, src_text@, src@), any);
                if any {
                    lemma_comma_step(old(out)@, j_export_all(*span, src_text@, src@));
                }
            }
            true
        },
        ModuleItemNode::ExportDeclFnItem { name, fn_span } => {
            if any {
                push_lit(out, ",".as_bytes());
            }
            emit_export_decl(out, true, *fn_span, name, src);
            proof {
                lemma_emit_run_one(j_export_decl(true, *fn_span, name@, src@), any);
                if any {
                    lemma_comma_step(old(out)@, j_export_decl(true, *fn_span, name@, src@));
                }
            }
            true
        },
        ModuleItemNode::ExportDeclClassItem { name, class_span } => {
            if any {
                push_lit(out, ",".as_bytes());
            }
            emit_export_decl(out, false, *class_span, name, src);
            proof {
                lemma_emit_run_one(j_export_decl(false, *class_span, name@, src@), any);
                if any {
                    lemma_comma_step(old(out)@, j_export_decl(false, *class_span, name@, src@));
                }
            }
            true
        },
        ModuleItemNode::ExportDeclOtherItem => false,
        ModuleItemNode::ModuleOtherItem => false,
        ModuleItemNode::VarDeclItem(v) => {
            let e = emit_var_item(out, v, any, src);
            proof {
                assert(item_pieces(*it, src@) =~~= v.decls@.map_values(
                    |d: DeclaratorNode| j_var_one(v.kind, v.span, d, src@),
                ));
            }
            e
        },
        ModuleItemNode::FnDeclItem(f) => {
            if any {
                push_lit(out, ",".as_bytes());
            }
            emit_fn_decl(out, f, src);
            proof {
                lemma_emit_run_one(j_fn_decl(*f, src@), any);
                if any {
                    lemma_comma_step(old(out)@, j_fn_decl(*f, src@));
                }
            }
            true
        },
        ModuleItemNode::ClassDeclItem(c) => {
            if any {
                push_lit(out, ",".as_bytes());
            }
            emit_class_decl(out, c, src);
            proof {
                lemma_emit_run_one(j_class_decl(*c, src@), any);
                if any {
                    lemma_comma_step(old(out)@, j_class_decl(*c, src@));
                }
            }
            true
        },
        ModuleItemNode::DeclOtherItem => false,
        ModuleItemNode::StmtItem { events } => {
            let e = emit_stmt_item(out, events, any, src);
            proof {
                assert(item_pieces(*it, src@) =~~= events@.map_values(
                    |ev: EventNode| j_event(ev, src@),
                ));
            }
            e
        },
    }
}

/// Law: the lowering is deterministic. The whole output document is a
/// mathematical function of the module items and the source text alone, so
/// lowering the same input twice yields byte-identical output.
pub proof fn lemma_lowering_deterministic(
    a: Seq<ModuleItemNode>,
    b: Seq<ModuleItemNode>,
    s: Seq<u8>,
    t: Seq<u8>,
)
    requires
        a == b,
        s == t,
    ensures
        module_json(a, s) == module_json(b, t),
{
}

/// Lowers a whole module: one record per lowered construct, in traversal
/// order, wrapped as the body of a JSON document.
#[verifier::loop_isolation(false)]
pub fn lower_module_to_json(items: &Vec<ModuleItemNode>, src: &Vec<u8>) -> (out: Vec<u8>)
    requires
        wf_items(items@, src@.len() as int),
        fits_source(src@.len() as int),
    ensures
        out@ == module_json(items@, src@),
{
    proof {
        reveal(item_pieces);
    }
    let mut out: Vec<u8> = Vec::new();
    push_lit(&mut out, "{\"body\":[".as_bytes());
    let mut i: usize = 0;
    let mut any: bool = false;
    while i < items.len()
        invariant
            0 <= i <= items@.len(),
            any <==> items_pieces(items@.take(i as int), src@).len() > 0,
            out@ == "{\"body\":[".spec_bytes() + join_comma(
                items_pieces(items@.take(i as int), src@),
            ),
        decreases items@.len() - i,
    {
        let e = emit_item(&mut out, &items[i], any, src);
        proof {
            assert(items@.take(i + 1).drop_last() =~= items@.take(i as int));
            assert(items@.take(i + 1).last() == items@[i as int]);
            let prev = items_pieces(items@.take(i as int), src@);
            let pieces = item_pieces(items@[i as int], src@);
            let cur = items_pieces(items@.take(i + 1), src@);
            assert(cur =~~= prev + pieces);
            lemma_join_concat(prev, pieces);
            assert(out@ =~= "{\"body\":[".spec_bytes() + join_comma(cur));
        }
        any = any || e;
        i += 1;
    }
    proof {
        assert(items@.take(items@.len() as int) == items@);
    }
    push_lit(&mut out, "]}".as_bytes());
    proof {
        assert(out@ =~= module_json(items@, src@));
    }
    out
}

} // verus!
