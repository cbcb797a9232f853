use ts_lower::ast::{
    CallNode, ClassDeclNode, EventNode, FnDeclNode, MemberKey, MemberNode, MethodSort,
    ModuleItemNode, PatNode, SigKey, SigNode, TypeArgNode,
};
use ts_lower::items::lower_module_to_json;
use ts_lower::pos::RawSpan;

fn rs(lo: u32, hi: u32) -> RawSpan {
    RawSpan { lo, hi }
}

fn parse(out: &[u8]) -> serde_json::Value {
    serde_json::from_slice(out).expect("output must be valid JSON")
}

#[test]
fn top_level_call_is_captured() {
    // foo(1);
    let src = b"foo(1);".to_vec();
    let items = vec![ModuleItemNode::StmtItem {
        events: vec![EventNode::CallEvent(CallNode {
            span: rs(1, 7),
            callee_ident: Some(b"foo".to_vec()),
            arg_spans: vec![rs(5, 6)],
            type_args: None,
        })],
    }];
    let out = lower_module_to_json(&items, &src);
    let v = parse(&out);
    let body = v["body"].as_array().unwrap();
    assert_eq!(body.len(), 1);
    let rec = &body[0];
    assert_eq!(rec["type"], "CallExpression");
    assert_eq!(rec["callee_ident"], "foo");
    assert_eq!(rec["args"], serde_json::Value::Array(vec!["1".into()]));
    assert_eq!(rec["text"], "foo(1)");
    assert_eq!(rec["type_parameters"], serde_json::Value::Null);
    assert_eq!(rec["type_argument_text"], serde_json::Value::Null);
    assert_eq!(rec["type_arg_kinds"], serde_json::Value::Null);
}

#[test]
fn call_inside_function_body_stays_unreported() {
    // function f(){ foo(1); } yields one Function record and no Call record
    let src = b"function f(){ foo(1); }".to_vec();
    let items = vec![ModuleItemNode::FnDeclItem(FnDeclNode {
        name: b"f".to_vec(),
        fn_span: rs(1, 24),
        is_async: false,
        is_generator: false,
        params: Vec::new(),
        return_type: None,
    })];
    let out = lower_module_to_json(&items, &src);
    let v = parse(&out);
    let body = v["body"].as_array().unwrap();
    assert_eq!(body.len(), 1);
    assert_eq!(body[0]["type"], "FunctionDeclaration");
    assert_eq!(body[0]["name"], "f");
    assert_eq!(body[0]["text"], "function f(){ foo(1); }");
    assert_eq!(body[0]["async"], false);
    assert_eq!(body[0]["params"], serde_json::Value::Array(vec![]));
}

#[test]
fn generic_call_classifies_type_literal() {
    // useState<{a: number}>(0)
    let src = b"useState<{a: number}>(0);".to_vec();
    let items = vec![ModuleItemNode::StmtItem {
        events: vec![EventNode::CallEvent(CallNode {
            span: rs(1, 25),
            callee_ident: Some(b"useState".to_vec()),
            arg_spans: vec![rs(23, 24)],
            type_args: Some(vec![TypeArgNode::LitArg {
                span: rs(10, 21),
                members: vec![SigNode::PropSig {
                    span: rs(11, 20),
                    key: SigKey::SigIdent(b"a".to_vec()),
                    type_ann: Some(rs(14, 20)),
                    optional: false,
                }],
            }]),
        })],
    }];
    let out = lower_module_to_json(&items, &src);
    let v = parse(&out);
    let rec = &v["body"][0];
    assert_eq!(rec["type_arg_kinds"], serde_json::Value::Array(vec!["type_literal".into()]));
    assert_eq!(rec["type_ref_idents"], serde_json::Value::Array(vec!["".into()]));
    assert_eq!(rec["type_argument_text"], "<{a: number}>");
    let props = rec["type_literal_props"].as_array().unwrap();
    assert_eq!(props.len(), 1);
    let sig = &props[0][0];
    assert_eq!(sig["key"], "a");
    assert_eq!(sig["type_ann"], "number");
    assert_eq!(sig["optional"], false);
}

#[test]
fn generic_call_renders_qualified_reference() {
    // pick<NS.Thing, string>(v)
    let src = b"pick<NS.Thing, string>(v);".to_vec();
    let items = vec![ModuleItemNode::StmtItem {
        events: vec![EventNode::CallEvent(CallNode {
            span: rs(1, 26),
            callee_ident: Some(b"pick".to_vec()),
            arg_spans: vec![rs(24, 25)],
            type_args: Some(vec![
                TypeArgNode::RefArg {
                    span: rs(6, 14),
                    name: ts_lower::ast::RefName::DottedRef {
                        left: b"NS".to_vec(),
                        right: b"Thing".to_vec(),
                    },
                },
                TypeArgNode::OtherArg { span: rs(16, 22) },
            ]),
        })],
    }];
    let out = lower_module_to_json(&items, &src);
    let v = parse(&out);
    let rec = &v["body"][0];
    assert_eq!(
        rec["type_arg_kinds"],
        serde_json::Value::Array(vec!["type_ref".into(), "other".into()])
    );
    assert_eq!(
        rec["type_ref_idents"],
        serde_json::Value::Array(vec!["NS.Thing".into(), "".into()])
    );
    assert_eq!(rec["type_argument_text"], "<NS.Thing, string>");
    assert_eq!(
        rec["type_parameters"],
        serde_json::Value::Array(vec!["NS.Thing".into(), "string".into()])
    );
}

#[test]
fn class_members_are_classified() {
    // class K { constructor(){} get a(){} m(){} }
    let src = b"class K { constructor(){} get a(){} m(){} }".to_vec();
    let items = vec![ModuleItemNode::ClassDeclItem(ClassDeclNode {
        name: b"K".to_vec(),
        class_span: rs(1, 44),
        super_span: None,
        implement_spans: Vec::new(),
        decorator_spans: Vec::new(),
        members: vec![
            MemberNode::CtorMember { span: rs(11, 26) },
            MemberNode::MethodMember {
                span: rs(27, 36),
                key: MemberKey::KeyIdent(b"a".to_vec()),
                is_static: false,
                is_async: false,
                is_generator: false,
                sort: MethodSort::GetterMethod,
            },
            MemberNode::MethodMember {
                span: rs(37, 42),
                key: MemberKey::KeyIdent(b"m".to_vec()),
                is_static: false,
                is_async: false,
                is_generator: false,
                sort: MethodSort::PlainMethod,
            },
        ],
    })];
    let out = lower_module_to_json(&items, &src);
    let v = parse(&out);
    let rec = &v["body"][0];
    assert_eq!(rec["type"], "ClassDeclaration");
    assert_eq!(rec["name"], "K");
    assert_eq!(rec["super_class"], serde_json::Value::Null);
    let members = rec["members"].as_array().unwrap();
    assert_eq!(members[0]["kind"], "Constructor");
    assert_eq!(members[1]["kind"], "Getter");
    assert_eq!(members[1]["key"], "a");
    assert_eq!(members[2]["kind"], "Method");
    assert_eq!(members[2]["key"], "m");
    assert_eq!(members[2]["async"], false);
}

#[test]
fn interface_event_collects_property_signatures() {
    // { interface Q { n: number } } intercepted while walking a block
    let src = b"{ interface Q { n: number } }".to_vec();
    let items = vec![ModuleItemNode::StmtItem {
        events: vec![EventNode::IfaceEvent(ts_lower::ast::IfaceNode {
            span: rs(3, 28),
            id: b"Q".to_vec(),
            members: vec![SigNode::PropSig {
                span: rs(17, 26),
                key: SigKey::SigIdent(b"n".to_vec()),
                type_ann: Some(rs(20, 26)),
                optional: false,
            }],
        })],
    }];
    let out = lower_module_to_json(&items, &src);
    let v = parse(&out);
    let rec = &v["body"][0];
    assert_eq!(rec["type"], "TSInterfaceDeclaration");
    assert_eq!(rec["id"], "Q");
    assert_eq!(rec["members"][0]["key"], "n");
    assert_eq!(rec["members"][0]["type_ann"], "number");
}
