use vstd::prelude::*;

verus! {

/// Byte value of a line feed.
pub const LF: u8 = 10;

/// Byte value of a carriage return.
pub const CR: u8 = 13;

/// A raw byte span as the parser hands it over: `lo` and `hi` are offsets in
/// the parser's own address space, where the first byte of the source text
/// sits at offset 1 (offset 0 is reserved for synthetic nodes).
#[derive(Clone, Copy, Debug, PartialEq, Eq, Structural)]
pub struct RawSpan {
    pub lo: u32,
    pub hi: u32,
}

/// A position record for one syntax node: a byte range plus the 1-based line
/// and 0-based column of each endpoint. `start` is the 0-based offset of the
/// first byte; `end` keeps the parser's raw upper offset, which sits one past
/// the last byte's 0-based offset. Columns count UTF-16 code units from the
/// start of the line.
#[derive(Clone, Copy, Debug, PartialEq, Eq, Structural)]
pub struct NodePos {
    pub start: u32,
    pub end: u32,
    pub start_line: u32,
    pub start_col: u32,
    pub end_line: u32,
    pub end_col: u32,
}

/// A raw span is well formed over a source of `len` bytes when it lies inside
/// the parser's window for that source and is ordered.
pub open spec fn wf_span(sp: RawSpan, len: int) -> bool {
    &&& 1 <= sp.lo
    &&& sp.lo <= sp.hi
    &&& sp.hi <= len + 1
}

/// Sources must leave room for line and column counters in 32 bits.
pub open spec fn fits_source(len: int) -> bool {
    len < 0x8000_0000
}

/// The 0-based source offset of the first byte of a span: the raw offset
/// corrected for the parser's reserved leading offset; a raw offset of 0
/// (synthetic) is passed through unchanged.
pub open spec fn start_off(sp: RawSpan) -> int {
    if sp.lo > 0 {
        sp.lo - 1
    } else {
        sp.lo as int
    }
}

/// Offset `j` begins a line: either the start of the text, or the byte before
/// it ends a line break (`\n`, or a `\r` not followed by `\n`), provided some
/// text follows. A break that ends the text starts no new line.
pub open spec fn is_line_start(src: Seq<u8>, j: int) -> bool {
    ||| j == 0
    ||| (0 < j < src.len() && (src[j - 1] == LF || (src[j - 1] == CR && src[j] != LF)))
}

/// How many line starts lie in `1..=off`.
pub open spec fn breaks_before(src: Seq<u8>, off: int) -> int
    decreases off,
{
    if off <= 0 {
        0
    } else {
        breaks_before(src, off - 1) + if is_line_start(src, off) {
            1int
        } else {
            0int
        }
    }
}

/// The 1-based line number of the byte offset `off`.
pub open spec fn line_of(src: Seq<u8>, off: int) -> int {
    1 + breaks_before(src, off)
}

/// The offset at which the line holding `off` begins.
pub open spec fn line_start_of(src: Seq<u8>, off: int) -> int
    decreases off,
{
    if off <= 0 {
        0
    } else if is_line_start(src, off) {
        off
    } else {
        line_start_of(src, off - 1)
    }
}

/// How many UTF-16 code units a byte contributes: continuation bytes none,
/// lead bytes of four-byte sequences two (they encode astral code points,
/// which take a surrogate pair), every other byte one.
pub open spec fn unit_width(b: u8) -> int {
    if 128 <= b && b < 192 {
        0int
    } else if b >= 240 {
        2int
    } else {
        1int
    }
}

/// The UTF-16 code units contributed by a run of bytes.
pub open spec fn units_of(s: Seq<u8>) -> int
    decreases s.len(),
{
    if s.len() == 0 {
        0
    } else {
        units_of(s.drop_last()) + unit_width(s.last())
    }
}

/// The 0-based column of byte offset `off`, in UTF-16 code units from the
/// start of its line.
pub open spec fn col_of(src: Seq<u8>, off: int) -> int {
    units_of(src.subrange(line_start_of(src, off), off))
}

/// The position record of a span: corrected start byte, raw end byte, and the
/// line and column of each endpoint's corrected offset.
pub open spec fn spec_pos(src: Seq<u8>, sp: RawSpan) -> NodePos {
    NodePos {
        start: start_off(sp) as u32,
        end: sp.hi,
        start_line: line_of(src, start_off(sp)) as u32,
        start_col: col_of(src, start_off(sp)) as u32,
        end_line: line_of(src, sp.hi - 1) as u32,
        end_col: col_of(src, sp.hi - 1) as u32,
    }
}

/// The verbatim source text a span covers.
pub open spec fn snip(src: Seq<u8>, sp: RawSpan) -> Seq<u8> {
    src.subrange(start_off(sp), sp.hi - 1)
}

pub proof fn lemma_breaks_bounds(src: Seq<u8>, off: int)
    ensures
        0 <= breaks_before(src, off),
        breaks_before(src, off) <= (if off >= 0 {
            off
        } else {
            0
        }),
    decreases off,
{
    if off > 0 {
        lemma_breaks_bounds(src, off - 1);
    }
}

pub proof fn lemma_line_start_bounds(src: Seq<u8>, off: int)
    ensures
        0 <= line_start_of(src, off),
        line_start_of(src, off) <= (if off >= 0 {
            off
        } else {
            0
        }),
    decreases off,
{
    if off > 0 && !is_line_start(src, off) {
        lemma_line_start_bounds(src, off - 1);
    }
}

pub proof fn lemma_units_bounds(s: Seq<u8>)
    ensures
        0 <= units_of(s),
        units_of(s) <= 2 * s.len(),
    decreases s.len(),
{
    if s.len() > 0 {
        lemma_units_bounds(s.drop_last());
    }
}

pub proof fn lemma_col_bounds(src: Seq<u8>, off: int)
    requires
        0 <= off <= src.len(),
    ensures
        0 <= col_of(src, off) <= 2 * src.len(),
{
    lemma_line_start_bounds(src, off);
    lemma_units_bounds(src.subrange(line_start_of(src, off), off));
}

/// The line and column of the byte offset `off`, computed in one pass over
/// the text before it.
pub fn line_col(src: &Vec<u8>, off: u32) -> (r: (u32, u32))
    requires
        off <= src@.len(),
        fits_source(src@.len() as int),
    ensures
        r.0 == line_of(src@, off as int),
        r.1 == col_of(src@, off as int),
{
    let mut line: u32 = 1;
    let mut col: u32 = 0;
    let mut i: usize = 0;
    let ghost mut ls: int = 0;
    while i < off as usize
        invariant
            0 <= i <= off,
            off <= src@.len(),
            fits_source(src@.len() as int),
            line == line_of(src@, i as int),
            line <= i + 1,
            ls == line_start_of(src@, i as int),
            0 <= ls <= i,
            col == units_of(src@.subrange(ls, i as int)),
            col <= 2 * i,
        decreases off - i,
    {
        let b = src[i];
        let starts_new = i + 1 < src.len() && (b == LF || (b == CR && src[i + 1] != LF));
        proof {
            assert(starts_new == is_line_start(src@, i + 1));
        }
        if starts_new {
            line = line + 1;
            col = 0;
            proof {
                ls = i + 1;
                assert(src@.subrange(i + 1, i + 1) =~= Seq::<u8>::empty());
            }
        } else {
            let w: u32 = if 128 <= b && b < 192 {
                0
            } else if b >= 240 {
                2
            } else {
                1
            };
            proof {
                assert(src@.subrange(ls, i + 1).drop_last() =~= src@.subrange(ls, i as int));
                assert(src@.subrange(ls, i + 1).last() == src@[i as int]);
            }
            col = col + w;
        }
        i = i + 1;
    }
    (line, col)
}

/// The position record of a raw span over the given source text, per the
/// parser's conventions: start byte corrected by one, end byte unmodified,
/// endpoint lines and columns looked up at the corrected offsets.
pub fn map_pos(src: &Vec<u8>, sp: RawSpan) -> (r: NodePos)
    requires
        wf_span(sp, src@.len() as int),
        fits_source(src@.len() as int),
    ensures
        r == spec_pos(src@, sp),
{
    let start: u32 = if sp.lo > 0 {
        sp.lo - 1
    } else {
        sp.lo
    };
    let (sl, sc) = line_col(src, start);
    let (el, ec) = line_col(src, sp.hi - 1);
    proof {
        lemma_breaks_bounds(src@, start_off(sp));
        lemma_breaks_bounds(src@, sp.hi - 1);
        lemma_col_bounds(src@, start_off(sp));
        lemma_col_bounds(src@, sp.hi - 1);
    }
    NodePos { start, end: sp.hi, start_line: sl, start_col: sc, end_line: el, end_col: ec }
}

/// The verbatim source bytes a span covers.
pub fn snippet(src: &Vec<u8>, sp: RawSpan) -> (r: Vec<u8>)
    requires
        wf_span(sp, src@.len() as int),
    ensures
        r@ == snip(src@, sp),
{
    let lo: usize = (sp.lo - 1) as usize;
    let hi: usize = (sp.hi - 1) as usize;
    let mut r: Vec<u8> = Vec::new();
    let mut i: usize = lo;
    while i < hi
        invariant
            lo <= i <= hi,
            hi <= src@.len(),
            r@ == src@.subrange(lo as int, i as int),
        decreases hi - i,
    {
        r.push(src[i]);
        proof {
            assert(src@.subrange(lo as int, i + 1) =~= src@.subrange(lo as int, i as int).push(
                src@[i as int],
            ));
        }
        i = i + 1;
    }
    r
}

/// Law: a mapped position never puts its start byte after its end byte.
pub proof fn lemma_pos_ordered(src: Seq<u8>, sp: RawSpan)
    requires
        wf_span(sp, src.len() as int),
        fits_source(src.len() as int),
    ensures
        spec_pos(src, sp).start <= spec_pos(src, sp).end,
{
    lemma_breaks_bounds(src, start_off(sp));
    lemma_col_bounds(src, start_off(sp));
}

/// Law: mapping preserves containment. If one raw span lies inside another,
/// the mapped byte ranges nest the same way, and so do the endpoint lines.
pub proof fn lemma_pos_containment(src: Seq<u8>, inner: RawSpan, outer: RawSpan)
    requires
        wf_span(inner, src.len() as int),
        wf_span(outer, src.len() as int),
        fits_source(src.len() as int),
        outer.lo <= inner.lo,
        inner.hi <= outer.hi,
    ensures
        spec_pos(src, outer).start <= spec_pos(src, inner).start,
        spec_pos(src, inner).end <= spec_pos(src, outer).end,
{
    lemma_breaks_bounds(src, start_off(inner));
    lemma_breaks_bounds(src, start_off(outer));
    lemma_col_bounds(src, start_off(inner));
    lemma_col_bounds(src, start_off(outer));
}

/// Law: round trip. The verbatim text of a span is exactly the source slice
/// from the mapped start byte up to one before the mapped end byte — the end
/// byte keeps the parser's raw upper offset, one past the text it covers.
pub proof fn lemma_snippet_round_trip(src: Seq<u8>, sp: RawSpan)
    requires
        wf_span(sp, src.len() as int),
        fits_source(src.len() as int),
    ensures
        snip(src, sp) == src.subrange(
            spec_pos(src, sp).start as int,
            spec_pos(src, sp).end - 1,
        ),
{
    lemma_breaks_bounds(src, start_off(sp));
    lemma_col_bounds(src, start_off(sp));
}

} // verus!
