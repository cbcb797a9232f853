use ts_lower::ast::{
    DeclKind, DeclaratorNode, ImportNode, ImportSpecNode, InitInfo, ModName, ModuleItemNode,
    ObjProp, PatKey, PatNode, VarDeclNode,
};
use ts_lower::items::lower_module_to_json;
use ts_lower::pos::RawSpan;

fn rs(lo: u32, hi: u32) -> RawSpan {
    RawSpan { lo, hi }
}

fn parse(out: &[u8]) -> serde_json::Value {
    serde_json::from_slice(out).expect("output must be valid JSON")
}

#[test]
fn empty_module_document() {
    let items: Vec<ModuleItemNode> = Vec::new();
    let src: Vec<u8> = b"".to_vec();
    let out = lower_module_to_json(&items, &src);
    assert_eq!(out, b"{\"body\":[]}".to_vec());
}

#[test]
fn let_declaration_record() {
    // let x = 1;
    let src = b"let x = 1;".to_vec();
    let items = vec![ModuleItemNode::VarDeclItem(VarDeclNode {
        span: rs(1, 11),
        kind: DeclKind::LetKind,
        decls: vec![DeclaratorNode {
            pat: PatNode::IdentPat { name: b"x".to_vec(), type_ann: None, span: rs(5, 6) },
            init: Some(InitInfo { span: rs(9, 10), callee_ident: None, type_arg_spans: None }),
        }],
    })];
    let out = lower_module_to_json(&items, &src);
    let v = parse(&out);
    let body = v["body"].as_array().unwrap();
    assert_eq!(body.len(), 1);
    let rec = &body[0];
    assert_eq!(rec["type"], "VariableDeclaration");
    assert_eq!(rec["decl_kind"], "let");
    assert_eq!(rec["name"], "x");
    assert_eq!(rec["names"], serde_json::Value::Array(vec!["x".into()]));
    assert_eq!(rec["inited"], true);
    assert_eq!(rec["init_text"], "1");
    assert_eq!(rec["init_callee_ident"], serde_json::Value::Null);
    assert_eq!(rec["start"], 0);
    assert_eq!(rec["end"], 11);
    assert_eq!(rec["loc"]["start"]["line"], 1);
    assert_eq!(rec["loc"]["start"]["column"], 0);
    assert_eq!(rec["loc"]["end"]["line"], 1);
    assert_eq!(rec["loc"]["end"]["column"], 10);
    assert_eq!(rec["loc"]["filename"], "input.ts");
    assert_eq!(rec["name_span"]["start"], 4);
    assert_eq!(rec["name_span"]["end"], 6);
    assert_eq!(rec["init_span"]["start"], 8);
    assert_eq!(rec["init_span"]["end"], 10);
    assert_eq!(rec["array_pattern"], serde_json::Value::Null);
    assert_eq!(rec["object_pattern"], serde_json::Value::Null);
}

#[test]
fn object_pattern_with_alias_and_default() {
    // const {a, b: c = 2} = obj;
    let src = b"const {a, b: c = 2} = obj;".to_vec();
    let items = vec![ModuleItemNode::VarDeclItem(VarDeclNode {
        span: rs(1, 27),
        kind: DeclKind::ConstKind,
        decls: vec![DeclaratorNode {
            pat: PatNode::ObjectPat {
                props: vec![
                    ObjProp::ShorthandProp { key: b"a".to_vec(), default_span: None },
                    ObjProp::KeyValueProp {
                        key: PatKey::IdentKey(b"b".to_vec()),
                        value: Box::new(PatNode::AssignPat {
                            left: Box::new(PatNode::IdentPat {
                                name: b"c".to_vec(),
                                type_ann: None,
                                span: rs(14, 15),
                            }),
                            right_span: rs(18, 19),
                            span: rs(14, 19),
                        }),
                    },
                ],
                type_ann: None,
                span: rs(7, 20),
            },
            init: Some(InitInfo { span: rs(23, 26), callee_ident: None, type_arg_spans: None }),
        }],
    })];
    let out = lower_module_to_json(&items, &src);
    let v = parse(&out);
    let rec = &v["body"][0];
    assert_eq!(rec["decl_kind"], "const");
    assert_eq!(rec["name"], "a");
    assert_eq!(
        rec["names"],
        serde_json::Value::Array(vec!["a".into(), "c".into()])
    );
    assert_eq!(rec["init_text"], "obj");
    let props = rec["object_pattern"]["properties"].as_array().unwrap();
    assert_eq!(props.len(), 2);
    assert_eq!(props[0]["key"], "a");
    assert_eq!(props[0]["alias"], "a");
    assert_eq!(props[0]["default_text"], serde_json::Value::Null);
    assert_eq!(props[1]["key"], "b");
    assert_eq!(props[1]["alias"], "c");
    assert_eq!(props[1]["default_text"], "2");
    assert_eq!(props[1]["nested"], serde_json::Value::Null);
}

#[test]
fn import_record_with_type_only_named_specifier() {
    // import type {A as B} from "m";
    let src = b"import type {A as B} from \"m\";".to_vec();
    let items = vec![ModuleItemNode::ImportItem(ImportNode {
        span: rs(1, 31),
        src_text: b"m".to_vec(),
        type_only: true,
        specifiers: vec![ImportSpecNode::NamedSpec {
            local: b"B".to_vec(),
            imported: Some(ModName::ModIdent(b"A".to_vec())),
            span: rs(14, 20),
        }],
    })];
    let out = lower_module_to_json(&items, &src);
    let v = parse(&out);
    let rec = &v["body"][0];
    assert_eq!(rec["type"], "ImportDeclaration");
    assert_eq!(rec["src"], "m");
    let specs = rec["specifiers"].as_array().unwrap();
    assert_eq!(specs.len(), 1);
    assert_eq!(specs[0]["kind"], "Named");
    assert_eq!(specs[0]["local"], "B");
    assert_eq!(specs[0]["imported_ident"], "A");
    assert_eq!(specs[0]["imported_str"], serde_json::Value::Null);
    assert_eq!(specs[0]["import_kind"], "type");
}

#[test]
fn lowering_is_deterministic() {
    let src = b"let x = 1;".to_vec();
    let items = vec![ModuleItemNode::VarDeclItem(VarDeclNode {
        span: rs(1, 11),
        kind: DeclKind::LetKind,
        decls: vec![DeclaratorNode {
            pat: PatNode::IdentPat { name: b"x".to_vec(), type_ann: None, span: rs(5, 6) },
            init: Some(InitInfo { span: rs(9, 10), callee_ident: None, type_arg_spans: None }),
        }],
    })];
    let out1 = lower_module_to_json(&items, &src);
    let out2 = lower_module_to_json(&items, &src);
    assert_eq!(out1, out2);
}

#[test]
fn multiline_source_positions() {
    // a line break before the declaration moves its line and column
    let src = b"//c\nlet y = 2;".to_vec();
    let items = vec![ModuleItemNode::VarDeclItem(VarDeclNode {
        span: rs(5, 15),
        kind: DeclKind::LetKind,
        decls: vec![DeclaratorNode {
            pat: PatNode::IdentPat { name: b"y".to_vec(), type_ann: None, span: rs(9, 10) },
            init: Some(InitInfo { span: rs(13, 14), callee_ident: None, type_arg_spans: None }),
        }],
    })];
    let out = lower_module_to_json(&items, &src);
    let v = parse(&out);
    let rec = &v["body"][0];
    assert_eq!(rec["start"], 4);
    assert_eq!(rec["loc"]["start"]["line"], 2);
    assert_eq!(rec["loc"]["start"]["column"], 0);
    assert_eq!(rec["name_span"]["loc_start"]["line"], 2);
    assert_eq!(rec["name_span"]["loc_start"]["column"], 4);
}
