use ts_lower::ast::{ExprKeyNode, ExprNode, ExprPropNode};
use ts_lower::expr::lower_expr_to_json;
use ts_lower::pos::RawSpan;

fn rs(lo: u32, hi: u32) -> RawSpan {
    RawSpan { lo, hi }
}

fn parse(out: &[u8]) -> serde_json::Value {
    serde_json::from_slice(out).expect("output must be valid JSON")
}

#[test]
fn unmodeled_expression_degrades_to_identifier() {
    // a template literal is not modeled: it lowers to an identifier whose
    // name is the verbatim source text
    let src = b"`ab${x}`".to_vec();
    let e = ExprNode::OtherExpr { span: rs(1, 9) };
    let out = lower_expr_to_json(&e, &src);
    let v = parse(&out);
    assert_eq!(v["expr"]["type"], "Identifier");
    assert_eq!(v["expr"]["name"], "`ab${x}`");
    assert_eq!(v["expr"]["start"], 0);
    assert_eq!(v["expr"]["end"], 9);
}

#[test]
fn object_literal_with_shorthand_and_method() {
    // ({q, m(){}})
    let src = b"({q, m(){}})".to_vec();
    let e = ExprNode::ObjectExpr {
        span: rs(2, 12),
        props: vec![
            ExprPropNode::ShorthandP { name: b"q".to_vec(), span: rs(3, 4) },
            ExprPropNode::MethodP {
                key: ExprKeyNode::KeyIdentE { name: b"m".to_vec(), span: rs(6, 7) },
                fn_span: rs(6, 11),
                is_async: false,
                is_generator: false,
            },
        ],
    };
    let out = lower_expr_to_json(&e, &src);
    let v = parse(&out);
    let props = v["expr"]["properties"].as_array().unwrap();
    assert_eq!(props.len(), 2);
    assert_eq!(props[0]["type"], "Property");
    assert_eq!(props[0]["kind"], "init");
    assert_eq!(props[0]["shorthand"], true);
    assert_eq!(props[0]["key"]["name"], "q");
    assert_eq!(props[0]["value"]["name"], "q");
    assert_eq!(props[1]["kind"], "method");
    assert_eq!(props[1]["method"], true);
    assert_eq!(props[1]["key"]["name"], "m");
    assert_eq!(props[1]["value"]["type"], "FunctionExpression");
    assert_eq!(props[1]["value"]["function_text"], "m(){}");
}

#[test]
fn array_holes_become_null_literals_at_the_array_position() {
    // [1, , true]
    let src = b"[1, , true]".to_vec();
    let e = ExprNode::ArrayExpr {
        span: rs(1, 12),
        elems: vec![
            Some(ExprNode::NumExpr { span: rs(2, 3), num_text: b"1.0".to_vec() }),
            None,
            Some(ExprNode::BoolExpr { span: rs(7, 11), value: true }),
        ],
    };
    let out = lower_expr_to_json(&e, &src);
    let v = parse(&out);
    let elems = v["expr"]["elements"].as_array().unwrap();
    assert_eq!(elems.len(), 3);
    assert_eq!(elems[0]["type"], "NumberLiteral");
    assert_eq!(elems[0]["value"], 1.0);
    assert_eq!(elems[1]["type"], "NullLiteral");
    assert_eq!(elems[1]["start"], 0);
    assert_eq!(elems[1]["end"], 12);
    assert_eq!(elems[2]["type"], "BooleanLiteral");
    assert_eq!(elems[2]["value"], true);
}

#[test]
fn string_values_are_escaped() {
    let src = b"0".to_vec();
    let e = ExprNode::StrExpr {
        span: rs(1, 2),
        value: b"a\"b\\c\nd\te\x01".to_vec(),
    };
    let out = lower_expr_to_json(&e, &src);
    let v = parse(&out);
    assert_eq!(v["expr"]["value"], "a\"b\\c\nd\te\u{1}");
    let text = String::from_utf8(out).unwrap();
    assert!(text.contains("\\\"") && text.contains("\\\\") && text.contains("\\n"));
    assert!(text.contains("\\u0001"));
}

#[test]
fn expression_lowering_is_deterministic() {
    let src = b"`x`".to_vec();
    let e1 = ExprNode::OtherExpr { span: rs(1, 4) };
    let e2 = ExprNode::OtherExpr { span: rs(1, 4) };
    assert_eq!(lower_expr_to_json(&e1, &src), lower_expr_to_json(&e2, &src));
}
