use ts_lower::ast::{
    AliasNode, EventNode, ExportNamedNode, ExportSpecNode, FnDeclNode, ModName, ModuleItemNode,
    PatNode,
};
use ts_lower::items::lower_module_to_json;
use ts_lower::pos::RawSpan;

fn rs(lo: u32, hi: u32) -> RawSpan {
    RawSpan { lo, hi }
}

fn parse(out: &[u8]) -> serde_json::Value {
    serde_json::from_slice(out).expect("output must be valid JSON")
}

#[test]
fn export_default_object_records_the_object_span() {
    // export default {a: 1};
    let src = b"export default {a: 1};".to_vec();
    let items = vec![ModuleItemNode::ExportDefaultExprItem {
        span: rs(1, 23),
        expr_span: rs(16, 22),
        expr_is_object: true,
    }];
    let out = lower_module_to_json(&items, &src);
    let v = parse(&out);
    let rec = &v["body"][0];
    assert_eq!(rec["type"], "ExportDefaultDeclaration");
    assert_eq!(rec["obj_span"]["start"], 15);
    assert_eq!(rec["obj_span"]["end"], 22);
}

#[test]
fn export_default_non_object_has_no_object_span() {
    // export default 1;
    let src = b"export default 1;".to_vec();
    let items = vec![ModuleItemNode::ExportDefaultExprItem {
        span: rs(1, 18),
        expr_span: rs(16, 17),
        expr_is_object: false,
    }];
    let out = lower_module_to_json(&items, &src);
    let v = parse(&out);
    assert_eq!(v["body"][0]["obj_span"], serde_json::Value::Null);
}

#[test]
fn default_as_named_export_specifier() {
    // export {x as default}; written through the default-specifier shape
    let src = b"export v from \"m\";".to_vec();
    let items = vec![ModuleItemNode::ExportNamedItem(ExportNamedNode {
        span: rs(1, 19),
        type_only: false,
        source: Some(b"m".to_vec()),
        specifiers: vec![ExportSpecNode::DefaultExportSpec {
            exported: b"v".to_vec(),
            span: rs(8, 9),
        }],
    })];
    let out = lower_module_to_json(&items, &src);
    let v = parse(&out);
    let spec = &v["body"][0]["specifiers"][0];
    assert_eq!(spec["kind"], "Named");
    assert_eq!(spec["local_ident"], serde_json::Value::Null);
    assert_eq!(spec["exported_ident"], "v");
    assert_eq!(spec["exported_str"], "default");
    assert_eq!(spec["export_kind"], serde_json::Value::Null);
    assert_eq!(v["body"][0]["source"], "m");
}

#[test]
fn namespace_export_specifier_records_alias() {
    // export * as ns from "m";
    let src = b"export * as ns from \"m\";".to_vec();
    let items = vec![ModuleItemNode::ExportNamedItem(ExportNamedNode {
        span: rs(1, 25),
        type_only: false,
        source: Some(b"m".to_vec()),
        specifiers: vec![ExportSpecNode::NamespaceExportSpec {
            name: ModName::ModIdent(b"ns".to_vec()),
            span: rs(8, 15),
        }],
    })];
    let out = lower_module_to_json(&items, &src);
    let v = parse(&out);
    let spec = &v["body"][0]["specifiers"][0];
    assert_eq!(spec["kind"], "NamespaceAlias");
    assert_eq!(spec["exported_ident"], "ns");
}

#[test]
fn function_parameters_capture_defaults_rest_and_annotations() {
    // function g(a: number, b = 1, ...rest) {}
    let src = b"function g(a: number, b = 1, ...rest) {}".to_vec();
    let items = vec![ModuleItemNode::FnDeclItem(FnDeclNode {
        name: b"g".to_vec(),
        fn_span: rs(1, 41),
        is_async: false,
        is_generator: false,
        params: vec![
            PatNode::IdentPat {
                name: b"a".to_vec(),
                type_ann: Some(rs(13, 21)),
                span: rs(12, 21),
            },
            PatNode::AssignPat {
                left: Box::new(PatNode::IdentPat {
                    name: b"b".to_vec(),
                    type_ann: None,
                    span: rs(23, 24),
                }),
                right_span: rs(27, 28),
                span: rs(23, 28),
            },
            PatNode::RestPat {
                arg: Box::new(PatNode::IdentPat {
                    name: b"rest".to_vec(),
                    type_ann: None,
                    span: rs(33, 37),
                }),
                span: rs(30, 37),
            },
        ],
        return_type: None,
    })];
    let out = lower_module_to_json(&items, &src);
    let v = parse(&out);
    let params = v["body"][0]["params"].as_array().unwrap();
    assert_eq!(params.len(), 3);
    assert_eq!(params[0]["name"], "a");
    assert_eq!(params[0]["type_ann_text"], ": number");
    assert_eq!(params[0]["is_rest"], false);
    assert_eq!(params[1]["name"], "b");
    assert_eq!(params[1]["default_text"], "1");
    assert_eq!(params[2]["name"], "rest");
    assert_eq!(params[2]["is_rest"], true);
    assert_eq!(params[2]["type_ann_text"], serde_json::Value::Null);
    assert_eq!(v["body"][0]["return_type"], serde_json::Value::Null);
}

#[test]
fn alias_without_object_literal_keeps_an_empty_member_list() {
    // { type A = string; } intercepted while walking a block
    let src = b"{ type A = string; }".to_vec();
    let items = vec![ModuleItemNode::StmtItem {
        events: vec![EventNode::AliasEvent(AliasNode {
            span: rs(3, 19),
            id: b"A".to_vec(),
            lit_members: None,
        })],
    }];
    let out = lower_module_to_json(&items, &src);
    let v = parse(&out);
    let rec = &v["body"][0];
    assert_eq!(rec["type"], "TSTypeAliasDeclaration");
    assert_eq!(rec["id"], "A");
    assert_eq!(rec["members"], serde_json::Value::Array(vec![]));
}
