use vstd::prelude::*;

verus! {

use crate::pos::{RawSpan, wf_span};

/// The kind keyword of a variable declaration.
#[derive(Clone, Copy, Debug, PartialEq, Eq, Structural)]
pub enum DeclKind {
    VarKind,
    LetKind,
    ConstKind,
}

/// A module export name: a plain identifier or a string literal.
#[derive(Clone, Debug, PartialEq, Eq)]
pub enum ModName {
    ModIdent(Vec<u8>),
    ModText(Vec<u8>),
}

/// One import specifier.
#[derive(Clone, Debug, PartialEq, Eq)]
pub enum ImportSpecNode {
    DefaultSpec { local: Vec<u8>, span: RawSpan },
    NamespaceSpec { local: Vec<u8>, span: RawSpan },
    NamedSpec { local: Vec<u8>, imported: Option<ModName>, span: RawSpan },
}

/// An import declaration: source module, specifiers, and whether the whole
/// import is type-only.
#[derive(Clone, Debug, PartialEq, Eq)]
pub struct ImportNode {
    pub span: RawSpan,
    pub src_text: Vec<u8>,
    pub type_only: bool,
    pub specifiers: Vec<ImportSpecNode>,
}

/// One specifier of a named export.
#[derive(Clone, Debug, PartialEq, Eq)]
pub enum ExportSpecNode {
    NamedExportSpec { orig: ModName, exported: Option<ModName>, span: RawSpan },
    NamespaceExportSpec { name: ModName, span: RawSpan },
    DefaultExportSpec { exported: Vec<u8>, span: RawSpan },
}

/// A named export declaration.
#[derive(Clone, Debug, PartialEq, Eq)]
pub struct ExportNamedNode {
    pub span: RawSpan,
    pub type_only: bool,
    pub source: Option<Vec<u8>>,
    pub specifiers: Vec<ExportSpecNode>,
}

/// A key inside an object binding pattern: an identifier, the value of a
/// string-literal key, or any other key shape kept as its span.
#[derive(Clone, Debug, PartialEq, Eq)]
pub enum PatKey {
    IdentKey(Vec<u8>),
    TextKey(Vec<u8>),
    OtherKey(RawSpan),
}

/// One property of an object binding pattern.
pub enum ObjProp {
    /// `key: subpattern`
    KeyValueProp { key: PatKey, value: Box<PatNode> },
    /// `key` or `key = default`
    ShorthandProp { key: Vec<u8>, default_span: Option<RawSpan> },
    /// `...rest`
    RestProp { arg: Box<PatNode>, span: RawSpan },
}

/// A binding pattern.
pub enum PatNode {
    IdentPat { name: Vec<u8>, type_ann: Option<RawSpan>, span: RawSpan },
    ArrayPat { elems: Vec<Option<PatNode>>, type_ann: Option<RawSpan>, span: RawSpan },
    ObjectPat { props: Vec<ObjProp>, type_ann: Option<RawSpan>, span: RawSpan },
    RestPat { arg: Box<PatNode>, span: RawSpan },
    AssignPat { left: Box<PatNode>, right_span: RawSpan, span: RawSpan },
    OtherPat { span: RawSpan },
}

/// What is known of a declarator's initializer: its span and, when it is a
/// call expression, the plain-identifier callee and the spans of explicit
/// type arguments.
#[derive(Clone, Debug, PartialEq, Eq)]
pub struct InitInfo {
    pub span: RawSpan,
    pub callee_ident: Option<Vec<u8>>,
    pub type_arg_spans: Option<Vec<RawSpan>>,
}

/// One declarator of a variable declaration.
pub struct DeclaratorNode {
    pub pat: PatNode,
    pub init: Option<InitInfo>,
}

/// A `var`/`let`/`const` declaration.
pub struct VarDeclNode {
    pub span: RawSpan,
    pub kind: DeclKind,
    pub decls: Vec<DeclaratorNode>,
}

/// A function declaration.
pub struct FnDeclNode {
    pub name: Vec<u8>,
    pub fn_span: RawSpan,
    pub is_async: bool,
    pub is_generator: bool,
    pub params: Vec<PatNode>,
    pub return_type: Option<RawSpan>,
}

/// A key of a class member or object-literal property.
#[derive(Clone, Debug, PartialEq, Eq)]
pub enum MemberKey {
    KeyIdent(Vec<u8>),
    KeyText(Vec<u8>),
    /// A numeric key, carried as its decimal rendering.
    KeyNum(Vec<u8>),
    /// A big-integer key, carried as its decimal rendering.
    KeyBig(Vec<u8>),
    KeyComputed(RawSpan),
}

/// Which accessor sort a class method is.
#[derive(Clone, Copy, Debug, PartialEq, Eq, Structural)]
pub enum MethodSort {
    PlainMethod,
    GetterMethod,
    SetterMethod,
}

/// One member of a class body.
#[derive(Clone, Debug, PartialEq, Eq)]
pub enum MemberNode {
    CtorMember { span: RawSpan },
    MethodMember {
        span: RawSpan,
        key: MemberKey,
        is_static: bool,
        is_async: bool,
        is_generator: bool,
        sort: MethodSort,
    },
    PrivateMethodMember { span: RawSpan, is_static: bool, is_async: bool, is_generator: bool },
    PropMember { span: RawSpan, key: MemberKey, is_static: bool },
    PrivatePropMember { span: RawSpan, is_static: bool },
    StaticBlockMember { span: RawSpan },
    OtherMember { span: RawSpan },
}

/// A class declaration.
#[derive(Clone, Debug, PartialEq, Eq)]
pub struct ClassDeclNode {
    pub name: Vec<u8>,
    pub class_span: RawSpan,
    pub super_span: Option<RawSpan>,
    pub implement_spans: Vec<RawSpan>,
    pub decorator_spans: Vec<RawSpan>,
    pub members: Vec<MemberNode>,
}

/// The name of a type reference: a plain identifier, a one-step qualified
/// name, or a deeper qualified name kept as its span.
#[derive(Clone, Debug, PartialEq, Eq)]
pub enum RefName {
    PlainRef(Vec<u8>),
    DottedRef { left: Vec<u8>, right: Vec<u8> },
    DeepRef { span: RawSpan },
}

/// A key of a property signature in a type literal.
#[derive(Clone, Debug, PartialEq, Eq)]
pub enum SigKey {
    SigIdent(Vec<u8>),
    SigText(Vec<u8>),
    SigOther,
}

/// One member of a type literal or interface body.
#[derive(Clone, Debug, PartialEq, Eq)]
pub enum SigNode {
    PropSig { span: RawSpan, key: SigKey, type_ann: Option<RawSpan>, optional: bool },
    OtherSig,
}

/// One explicit type argument of a call.
#[derive(Clone, Debug, PartialEq, Eq)]
pub enum TypeArgNode {
    RefArg { span: RawSpan, name: RefName },
    LitArg { span: RawSpan, members: Vec<SigNode> },
    OtherArg { span: RawSpan },
}

/// A call expression.
#[derive(Clone, Debug, PartialEq, Eq)]
pub struct CallNode {
    pub span: RawSpan,
    pub callee_ident: Option<Vec<u8>>,
    pub arg_spans: Vec<RawSpan>,
    pub type_args: Option<Vec<TypeArgNode>>,
}

/// A type alias declaration; `lit_members` is present exactly when its right
/// side is an object-type literal.
#[derive(Clone, Debug, PartialEq, Eq)]
pub struct AliasNode {
    pub span: RawSpan,
    pub id: Vec<u8>,
    pub lit_members: Option<Vec<SigNode>>,
}

/// An interface declaration.
#[derive(Clone, Debug, PartialEq, Eq)]
pub struct IfaceNode {
    pub span: RawSpan,
    pub id: Vec<u8>,
    pub members: Vec<SigNode>,
}

/// One node met while walking a non-declaration statement, in document
/// order: a call expression (not descended into), a type alias, or an
/// interface.
#[derive(Clone, Debug, PartialEq, Eq)]
pub enum EventNode {
    CallEvent(CallNode),
    AliasEvent(AliasNode),
    IfaceEvent(IfaceNode),
}

/// One top-level item of a module.
pub enum ModuleItemNode {
    ImportItem(ImportNode),
    /// `export default` of a declaration.
    ExportDefaultDeclItem { span: RawSpan },
    /// `export default` of an expression; the expression's own span is kept,
    /// and whether it is an object literal.
    ExportDefaultExprItem { span: RawSpan, expr_span: RawSpan, expr_is_object: bool },
    ExportNamedItem(ExportNamedNode),
    ExportAllItem { span: RawSpan, src_text: Vec<u8> },
    ExportDeclFnItem { name: Vec<u8>, fn_span: RawSpan },
    ExportDeclClassItem { name: Vec<u8>, class_span: RawSpan },
    /// An exported declaration of any other kind: nothing is recorded.
    ExportDeclOtherItem,
    /// Other module-level declarations (import-equals and the like): nothing
    /// is recorded.
    ModuleOtherItem,
    VarDeclItem(VarDeclNode),
    FnDeclItem(FnDeclNode),
    ClassDeclItem(ClassDeclNode),
    /// A top-level declaration of any other kind: nothing is recorded.
    DeclOtherItem,
    /// Any other top-level statement: the nodes met while walking it.
    StmtItem { events: Vec<EventNode> },
}

/// A key of an object-literal property in expression mode. Numeric and
/// big-integer keys carry their rendered text; a computed key carries its
/// expression.
pub enum ExprKeyNode {
    KeyIdentE { name: Vec<u8>, span: RawSpan },
    KeyTextE { value: Vec<u8>, span: RawSpan },
    /// A numeric key, carried as the decimal text of its value as a JSON
    /// number.
    KeyNumE { num_text: Vec<u8>, span: RawSpan },
    KeyBigE { text: Vec<u8>, span: RawSpan },
    KeyComputedE { expr: Box<ExprNode> },
}

/// One property of an object literal in expression mode.
pub enum ExprPropNode {
    KeyValueP { key: ExprKeyNode, value: Box<ExprNode> },
    ShorthandP { name: Vec<u8>, span: RawSpan },
    MethodP { key: ExprKeyNode, fn_span: RawSpan, is_async: bool, is_generator: bool },
    GetterP { key: ExprKeyNode, span: RawSpan },
    SetterP { key: ExprKeyNode, span: RawSpan },
    /// An assignment property, as binding-pattern contexts produce: written
    /// as a shorthand with a value.
    AssignP { key_name: Vec<u8>, key_span: RawSpan, value: Box<ExprNode>, span: RawSpan },
    SpreadP { span: RawSpan, value: Box<ExprNode> },
}

/// An expression, as far as expression mode models it; any unmodeled kind
/// degrades to `OtherExpr`, which lowers to an identifier holding its
/// verbatim source.
pub enum ExprNode {
    NullExpr { span: RawSpan },
    BoolExpr { span: RawSpan, value: bool },
    /// A numeric literal, carried as the decimal text of its value as a
    /// JSON number.
    NumExpr { span: RawSpan, num_text: Vec<u8> },
    BigExpr { span: RawSpan, text: Vec<u8> },
    StrExpr { span: RawSpan, value: Vec<u8> },
    ArrayExpr { span: RawSpan, elems: Vec<Option<ExprNode>> },
    ObjectExpr { span: RawSpan, props: Vec<ExprPropNode> },
    FnExpr { fn_span: RawSpan, is_async: bool, is_generator: bool },
    ArrowExpr { span: RawSpan, is_async: bool, body_is_expr: bool },
    IdentExpr { span: RawSpan, name: Vec<u8> },
    OtherExpr { span: RawSpan },
}

/// The span an expression covers.
pub open spec fn expr_span_of(e: ExprNode) -> RawSpan {
    match e {
        ExprNode::NullExpr { span } => span,
        ExprNode::BoolExpr { span, .. } => span,
        ExprNode::NumExpr { span, .. } => span,
        ExprNode::BigExpr { span, .. } => span,
        ExprNode::StrExpr { span, .. } => span,
        ExprNode::ArrayExpr { span, .. } => span,
        ExprNode::ObjectExpr { span, .. } => span,
        ExprNode::FnExpr { fn_span, .. } => fn_span,
        ExprNode::ArrowExpr { span, .. } => span,
        ExprNode::IdentExpr { span, .. } => span,
        ExprNode::OtherExpr { span } => span,
    }
}

pub open spec fn wf_expr_key(k: ExprKeyNode, len: int) -> bool
    decreases k, 3int,
{
    match k {
        ExprKeyNode::KeyIdentE { span, .. } => wf_span(span, len),
        ExprKeyNode::KeyTextE { span, .. } => wf_span(span, len),
        ExprKeyNode::KeyNumE { span, .. } => wf_span(span, len),
        ExprKeyNode::KeyBigE { span, .. } => wf_span(span, len),
        ExprKeyNode::KeyComputedE { expr } => wf_expr(*expr, len),
    }
}

pub open spec fn wf_expr_prop(p: ExprPropNode, len: int) -> bool
    decreases p, 3int,
{
    match p {
        ExprPropNode::KeyValueP { key, value } => wf_expr_key(key, len) && wf_expr(*value, len),
        ExprPropNode::ShorthandP { span, .. } => wf_span(span, len),
        ExprPropNode::MethodP { key, fn_span, .. } => wf_expr_key(key, len) && wf_span(
            fn_span,
            len,
        ),
        ExprPropNode::GetterP { key, span } => wf_expr_key(key, len) && wf_span(span, len),
        ExprPropNode::SetterP { key, span } => wf_expr_key(key, len) && wf_span(span, len),
        ExprPropNode::AssignP { key_span, value, span, .. } => wf_span(key_span, len) && wf_expr(
            *value,
            len,
        ) && wf_span(span, len),
        ExprPropNode::SpreadP { span, value } => wf_span(span, len) && wf_expr(*value, len),
    }
}

pub open spec fn wf_expr(e: ExprNode, len: int) -> bool
    decreases e, 3int,
{
    wf_span(expr_span_of(e), len) && match e {
        ExprNode::ArrayExpr { elems, .. } => wf_expr_elems(elems@, len),
        ExprNode::ObjectExpr { props, .. } => wf_expr_props(props@, len),
        _ => true,
    }
}

pub open spec fn wf_expr_elems(s: Seq<Option<ExprNode>>, len: int) -> bool
    decreases s, 4int,
{
    if s.len() == 0 {
        true
    } else {
        wf_expr_elems(s.drop_last(), len) && match s.last() {
            Option::None => true,
            Option::Some(e) => wf_expr(e, len),
        }
    }
}

pub open spec fn wf_expr_props(s: Seq<ExprPropNode>, len: int) -> bool
    decreases s, 4int,
{
    if s.len() == 0 {
        true
    } else {
        wf_expr_props(s.drop_last(), len) && wf_expr_prop(s.last(), len)
    }
}

// Well-formedness: every span a node carries lies inside the parser's window
// for the source text.

pub open spec fn wf_opt_span(o: Option<RawSpan>, len: int) -> bool {
    match o {
        Option::None => true,
        Option::Some(sp) => wf_span(sp, len),
    }
}

pub open spec fn wf_spans(s: Seq<RawSpan>, len: int) -> bool {
    forall|i: int| 0 <= i < s.len() ==> wf_span(#[trigger] s[i], len)
}

pub open spec fn wf_pat_key(k: PatKey, len: int) -> bool {
    match k {
        PatKey::OtherKey(sp) => wf_span(sp, len),
        _ => true,
    }
}

pub open spec fn wf_pat(p: PatNode, len: int) -> bool
    decreases p,
{
    match p {
        PatNode::IdentPat { type_ann, span, .. } => wf_span(span, len) && wf_opt_span(
            type_ann,
            len,
        ),
        PatNode::ArrayPat { elems, type_ann, span } => wf_span(span, len) && wf_opt_span(
            type_ann,
            len,
        ) && wf_elems(elems@, len),
        PatNode::ObjectPat { props, type_ann, span } => wf_span(span, len) && wf_opt_span(
            type_ann,
            len,
        ) && wf_props(props@, len),
        PatNode::RestPat { arg, span } => wf_span(span, len) && wf_pat(*arg, len),
        PatNode::AssignPat { left, right_span, span } => wf_span(span, len) && wf_span(
            right_span,
            len,
        ) && wf_pat(*left, len),
        PatNode::OtherPat { span } => wf_span(span, len),
    }
}

pub open spec fn wf_elems(s: Seq<Option<PatNode>>, len: int) -> bool
    decreases s,
{
    if s.len() == 0 {
        true
    } else {
        wf_elems(s.drop_last(), len) && match s.last() {
            Option::None => true,
            Option::Some(p) => wf_pat(p, len),
        }
    }
}

pub open spec fn wf_pats(s: Seq<PatNode>, len: int) -> bool
    decreases s,
{
    if s.len() == 0 {
        true
    } else {
        wf_pats(s.drop_last(), len) && wf_pat(s.last(), len)
    }
}

pub open spec fn wf_prop(p: ObjProp, len: int) -> bool
    decreases p,
{
    match p {
        ObjProp::KeyValueProp { key, value } => wf_pat_key(key, len) && wf_pat(*value, len),
        ObjProp::ShorthandProp { default_span, .. } => wf_opt_span(default_span, len),
        ObjProp::RestProp { arg, span } => wf_span(span, len) && wf_pat(*arg, len),
    }
}

pub open spec fn wf_props(s: Seq<ObjProp>, len: int) -> bool
    decreases s,
{
    if s.len() == 0 {
        true
    } else {
        wf_props(s.drop_last(), len) && wf_prop(s.last(), len)
    }
}

pub open spec fn wf_import_spec(s: ImportSpecNode, len: int) -> bool {
    match s {
        ImportSpecNode::DefaultSpec { span, .. } => wf_span(span, len),
        ImportSpecNode::NamespaceSpec { span, .. } => wf_span(span, len),
        ImportSpecNode::NamedSpec { span, .. } => wf_span(span, len),
    }
}

pub open spec fn wf_export_spec(s: ExportSpecNode, len: int) -> bool {
    match s {
        ExportSpecNode::NamedExportSpec { span, .. } => wf_span(span, len),
        ExportSpecNode::NamespaceExportSpec { span, .. } => wf_span(span, len),
        ExportSpecNode::DefaultExportSpec { span, .. } => wf_span(span, len),
    }
}

pub open spec fn wf_sig(s: SigNode, len: int) -> bool {
    match s {
        SigNode::PropSig { span, key, type_ann, .. } => wf_span(span, len) && wf_opt_span(
            type_ann,
            len,
        ),
        SigNode::OtherSig => true,
    }
}

pub open spec fn wf_sigs(s: Seq<SigNode>, len: int) -> bool {
    forall|i: int| 0 <= i < s.len() ==> wf_sig(#[trigger] s[i], len)
}

pub open spec fn wf_type_arg(t: TypeArgNode, len: int) -> bool {
    match t {
        TypeArgNode::RefArg { span, name } => wf_span(span, len) && match name {
            RefName::DeepRef { span: qs } => wf_span(qs, len),
            _ => true,
        },
        TypeArgNode::LitArg { span, members } => wf_span(span, len) && wf_sigs(members@, len),
        TypeArgNode::OtherArg { span } => wf_span(span, len),
    }
}

pub open spec fn wf_call(c: CallNode, len: int) -> bool {
    &&& wf_span(c.span, len)
    &&& wf_spans(c.arg_spans@, len)
    &&& match c.type_args {
        Option::None => true,
        Option::Some(ts) => forall|i: int|
            0 <= i < ts@.len() ==> wf_type_arg(#[trigger] ts@[i], len),
    }
}

pub open spec fn wf_event(e: EventNode, len: int) -> bool {
    match e {
        EventNode::CallEvent(c) => wf_call(c, len),
        EventNode::AliasEvent(a) => wf_span(a.span, len) && match a.lit_members {
            Option::None => true,
            Option::Some(ms) => wf_sigs(ms@, len),
        },
        EventNode::IfaceEvent(f) => wf_span(f.span, len) && wf_sigs(f.members@, len),
    }
}

pub open spec fn wf_member(m: MemberNode, len: int) -> bool {
    match m {
        MemberNode::CtorMember { span } => wf_span(span, len),
        MemberNode::MethodMember { span, key, .. } => wf_span(span, len) && wf_member_key(
            key,
            len,
        ),
        MemberNode::PrivateMethodMember { span, .. } => wf_span(span, len),
        MemberNode::PropMember { span, key, .. } => wf_span(span, len) && wf_member_key(key, len),
        MemberNode::PrivatePropMember { span, .. } => wf_span(span, len),
        MemberNode::StaticBlockMember { span } => wf_span(span, len),
        MemberNode::OtherMember { span } => wf_span(span, len),
    }
}

pub open spec fn wf_member_key(k: MemberKey, len: int) -> bool {
    match k {
        MemberKey::KeyComputed(sp) => wf_span(sp, len),
        _ => true,
    }
}

pub open spec fn wf_declarator(d: DeclaratorNode, len: int) -> bool {
    &&& wf_pat(d.pat, len)
    &&& match d.init {
        Option::None => true,
        Option::Some(ii) => wf_span(ii.span, len) && match ii.type_arg_spans {
            Option::None => true,
            Option::Some(ts) => wf_spans(ts@, len),
        },
    }
}

pub open spec fn wf_item(it: ModuleItemNode, len: int) -> bool {
    match it {
        ModuleItemNode::ImportItem(im) => wf_span(im.span, len) && forall|i: int|
            0 <= i < im.specifiers@.len() ==> wf_import_spec(#[trigger] im.specifiers@[i], len),
        ModuleItemNode::ExportDefaultDeclItem { span } => wf_span(span, len),
        ModuleItemNode::ExportDefaultExprItem { span, expr_span, .. } => wf_span(span, len)
            && wf_span(expr_span, len),
        ModuleItemNode::ExportNamedItem(en) => wf_span(en.span, len) && forall|i: int|
            0 <= i < en.specifiers@.len() ==> wf_export_spec(#[trigger] en.specifiers@[i], len),
        ModuleItemNode::ExportAllItem { span, .. } => wf_span(span, len),
        ModuleItemNode::ExportDeclFnItem { fn_span, .. } => wf_span(fn_span, len),
        ModuleItemNode::ExportDeclClassItem { class_span, .. } => wf_span(class_span, len),
        ModuleItemNode::ExportDeclOtherItem => true,
        ModuleItemNode::ModuleOtherItem => true,
        ModuleItemNode::VarDeclItem(v) => wf_span(v.span, len) && forall|i: int|
            0 <= i < v.decls@.len() ==> wf_declarator(#[trigger] v.decls@[i], len),
        ModuleItemNode::FnDeclItem(f) => wf_span(f.fn_span, len) && wf_opt_span(f.return_type, len)
            && wf_pats(f.params@, len),
        ModuleItemNode::ClassDeclItem(c) => wf_span(c.class_span, len) && wf_opt_span(
            c.super_span,
            len,
        ) && wf_spans(c.implement_spans@, len) && wf_spans(c.decorator_spans@, len) && forall|
            i: int,
        |
            0 <= i < c.members@.len() ==> wf_member(#[trigger] c.members@[i], len),
        ModuleItemNode::DeclOtherItem => true,
        ModuleItemNode::StmtItem { events } => forall|i: int|
            0 <= i < events@.len() ==> wf_event(#[trigger] events@[i], len),
    }
}

pub open spec fn wf_items(s: Seq<ModuleItemNode>, len: int) -> bool {
    forall|i: int| 0 <= i < s.len() ==> wf_item(#[trigger] s[i], len)
}

} // verus!
