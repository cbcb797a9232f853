use ts_lower::ast::{ObjProp, PatKey, PatNode};
use ts_lower::pat::collect_pat_idents;
use ts_lower::pos::{line_col, map_pos, snippet, RawSpan};

fn rs(lo: u32, hi: u32) -> RawSpan {
    RawSpan { lo, hi }
}

#[test]
fn flatten_names_depth_first_left_to_right() {
    // [a, {b, c: d}, ...e]
    let pat = PatNode::ArrayPat {
        elems: vec![
            Some(PatNode::IdentPat { name: b"a".to_vec(), type_ann: None, span: rs(2, 3) }),
            Some(PatNode::ObjectPat {
                props: vec![
                    ObjProp::ShorthandProp { key: b"b".to_vec(), default_span: None },
                    ObjProp::KeyValueProp {
                        key: PatKey::IdentKey(b"c".to_vec()),
                        value: Box::new(PatNode::IdentPat {
                            name: b"d".to_vec(),
                            type_ann: None,
                            span: rs(12, 13),
                        }),
                    },
                ],
                type_ann: None,
                span: rs(5, 15),
            }),
            Some(PatNode::RestPat {
                arg: Box::new(PatNode::IdentPat {
                    name: b"e".to_vec(),
                    type_ann: None,
                    span: rs(20, 21),
                }),
                span: rs(17, 21),
            }),
        ],
        type_ann: None,
        span: rs(1, 22),
    };
    let mut names: Vec<Vec<u8>> = Vec::new();
    collect_pat_idents(&pat, &mut names);
    let got: Vec<String> = names.into_iter().map(|n| String::from_utf8(n).unwrap()).collect();
    assert_eq!(got, vec!["a", "b", "d", "e"]);
}

#[test]
fn structured_aliases_agree_with_flattened_names() {
    // {b, c: d} — the aliases the structured pattern embeds, in order,
    // are the flattened name list
    let props = vec![
        ObjProp::ShorthandProp { key: b"b".to_vec(), default_span: None },
        ObjProp::KeyValueProp {
            key: PatKey::IdentKey(b"c".to_vec()),
            value: Box::new(PatNode::IdentPat {
                name: b"d".to_vec(),
                type_ann: None,
                span: rs(7, 8),
            }),
        },
    ];
    let src = b"{b, c: d}".to_vec();
    let mut out: Vec<u8> = Vec::new();
    let none: Option<RawSpan> = None;
    ts_lower::pat::emit_obj_pat(&mut out, &props, &none, &src);
    let v: serde_json::Value = serde_json::from_slice(&out).unwrap();
    let aliases: Vec<String> = v["properties"]
        .as_array()
        .unwrap()
        .iter()
        .map(|p| p["alias"].as_str().unwrap().to_string())
        .collect();

    let pat = PatNode::ObjectPat { props, type_ann: None, span: rs(1, 10) };
    let mut names: Vec<Vec<u8>> = Vec::new();
    collect_pat_idents(&pat, &mut names);
    let flat: Vec<String> = names.into_iter().map(|n| String::from_utf8(n).unwrap()).collect();
    assert_eq!(aliases, flat);
}

#[test]
fn snippet_matches_byte_range_before_the_raw_end() {
    let src = b"let x = 10;".to_vec();
    let sp = rs(9, 11);
    let text = snippet(&src, sp);
    assert_eq!(text, b"10".to_vec());
    let p = map_pos(&src, sp);
    assert_eq!(p.start, 8);
    assert_eq!(p.end, 11);
    // the raw end offset sits one past the covered text
    assert_eq!(&src[p.start as usize..(p.end - 1) as usize], &text[..]);
}

#[test]
fn columns_count_utf16_units() {
    // a two-byte character takes one unit, a four-byte character two
    let mut src: Vec<u8> = Vec::new();
    src.extend_from_slice(&[0xC3, 0xA9]);
    src.extend_from_slice(&[0xF0, 0x9D, 0x84, 0x9E]);
    src.push(b'x');
    let (line, col) = line_col(&src, 6);
    assert_eq!(line, 1);
    assert_eq!(col, 3);
}

#[test]
fn line_breaks_split_on_crlf_and_lone_cr() {
    let src = b"a\r\nb".to_vec();
    assert_eq!(line_col(&src, 3), (2, 0));
    assert_eq!(line_col(&src, 2), (1, 2));
    let src2 = b"a\rb".to_vec();
    assert_eq!(line_col(&src2, 2), (2, 0));
    // a trailing line break starts no new line
    let src3 = b"a\n".to_vec();
    assert_eq!(line_col(&src3, 2), (1, 2));
}
