use vstd::prelude::*;

verus! {

use vstd::string::StringSliceAdditionalSpecFns;
use crate::pos::{RawSpan, NodePos, wf_span, fits_source, spec_pos, map_pos};
use crate::jout::{dec_of, push_lit, push_u32};

/// A line/column pair, as one endpoint of a location object.
pub open spec fn j_loc(line: u32, col: u32) -> Seq<u8> {
    "{\"line\":".spec_bytes() + dec_of(line as nat) + ",\"column\":".spec_bytes() + dec_of(
        col as nat,
    ) + "}".spec_bytes()
}

/// The position fields every record begins with: the byte range and the
/// location object with both endpoints and the fixed source name.
pub open spec fn j_node_fields(p: NodePos) -> Seq<u8> {
    "\"start\":".spec_bytes() + dec_of(p.start as nat) + ",\"end\":".spec_bytes() + dec_of(
        p.end as nat,
    ) + ",\"loc\":{\"start\":".spec_bytes() + j_loc(p.start_line, p.start_col)
        + ",\"end\":".spec_bytes() + j_loc(p.end_line, p.end_col)
        + ",\"filename\":\"input.ts\",\"identifierName\":null}".spec_bytes()
}

/// The position fields of a span mapped over the given source.
#[verifier::opaque]
pub open spec fn j_node(sp: RawSpan, src: Seq<u8>) -> Seq<u8> {
    j_node_fields(spec_pos(src, sp))
}

/// A standalone span object: byte range plus both endpoint locations.
pub open spec fn j_span_fields(p: NodePos) -> Seq<u8> {
    "{\"start\":".spec_bytes() + dec_of(p.start as nat) + ",\"end\":".spec_bytes() + dec_of(
        p.end as nat,
    ) + ",\"loc_start\":".spec_bytes() + j_loc(p.start_line, p.start_col)
        + ",\"loc_end\":".spec_bytes() + j_loc(p.end_line, p.end_col) + "}".spec_bytes()
}

/// A standalone span object for a span mapped over the given source.
#[verifier::opaque]
pub open spec fn j_span_obj(sp: RawSpan, src: Seq<u8>) -> Seq<u8> {
    j_span_fields(spec_pos(src, sp))
}

/// A standalone span object, or `null` for an absent span.
pub open spec fn j_opt_span_obj(o: Option<RawSpan>, src: Seq<u8>) -> Seq<u8> {
    match o {
        Option::None => "null".spec_bytes(),
        Option::Some(sp) => j_span_obj(sp, src),
    }
}

fn push_loc(out: &mut Vec<u8>, line: u32, col: u32)
    ensures
        final(out)@ == old(out)@ + j_loc(line, col),
{
    push_lit(out, "{\"line\":".as_bytes());
    push_u32(out, line);
    push_lit(out, ",\"column\":".as_bytes());
    push_u32(out, col);
    push_lit(out, "}".as_bytes());
    proof {
        assert(final(out)@ =~= old(out)@ + j_loc(line, col));
    }
}

/// Appends the position fields of a span: start and end byte plus the
/// location object of both endpoints.
pub fn push_node(out: &mut Vec<u8>, sp: RawSpan, src: &Vec<u8>)
    requires
        wf_span(sp, src@.len() as int),
        fits_source(src@.len() as int),
    ensures
        final(out)@ == old(out)@ + j_node(sp, src@),
{
    let p = map_pos(src, sp);
    push_lit(out, "\"start\":".as_bytes());
    push_u32(out, p.start);
    push_lit(out, ",\"end\":".as_bytes());
    push_u32(out, p.end);
    push_lit(out, ",\"loc\":{\"start\":".as_bytes());
    push_loc(out, p.start_line, p.start_col);
    push_lit(out, ",\"end\":".as_bytes());
    push_loc(out, p.end_line, p.end_col);
    push_lit(out, ",\"filename\":\"input.ts\",\"identifierName\":null}".as_bytes());
    proof {
        reveal(j_node);
        assert(final(out)@ =~= old(out)@ + j_node(sp, src@));
    }
}

/// Appends a standalone span object.
pub fn push_span_obj(out: &mut Vec<u8>, sp: RawSpan, src: &Vec<u8>)
    requires
        wf_span(sp, src@.len() as int),
        fits_source(src@.len() as int),
    ensures
        final(out)@ == old(out)@ + j_span_obj(sp, src@),
{
    let p = map_pos(src, sp);
    push_lit(out, "{\"start\":".as_bytes());
    push_u32(out, p.start);
    push_lit(out, ",\"end\":".as_bytes());
    push_u32(out, p.end);
    push_lit(out, ",\"loc_start\":".as_bytes());
    push_loc(out, p.start_line, p.start_col);
    push_lit(out, ",\"loc_end\":".as_bytes());
    push_loc(out, p.end_line, p.end_col);
    push_lit(out, "}".as_bytes());
    proof {
        reveal(j_span_obj);
        assert(final(out)@ =~= old(out)@ + j_span_obj(sp, src@));
    }
}

/// Appends a standalone span object, or `null` when the span is absent.
pub fn push_opt_span_obj(out: &mut Vec<u8>, o: &Option<RawSpan>, src: &Vec<u8>)
    requires
        crate::ast::wf_opt_span(*o, src@.len() as int),
        fits_source(src@.len() as int),
    ensures
        final(out)@ == old(out)@ + j_opt_span_obj(*o, src@),
{
    match o {
        Option::None => {
            push_lit(out, "null".as_bytes());
        },
        Option::Some(sp) => {
            push_span_obj(out, *sp, src);
        },
    }
}

} // verus!
