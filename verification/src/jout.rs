use vstd::prelude::*;

verus! {

use vstd::string::StringSliceAdditionalSpecFns;

/// The decimal digits of `n`, most significant first.
pub open spec fn dec_of(n: nat) -> Seq<u8>
    decreases n,
{
    if n < 10 {
        seq![(48 + n) as u8]
    } else {
        dec_of(n / 10) + seq![(48 + n % 10) as u8]
    }
}

/// The lower-case hex digit of a value below 16.
pub open spec fn hex_digit(n: int) -> u8 {
    if n < 10 {
        (48 + n) as u8
    } else {
        (87 + n) as u8
    }
}

/// How one byte of a string value is written inside a JSON string literal:
/// quote and backslash get a backslash; the control bytes with short escapes
/// use them; the other control bytes are written as `\u00XX`; everything
/// else, multi-byte UTF-8 included, is copied through.
pub open spec fn esc_byte(b: u8) -> Seq<u8> {
    if b == 34 {
        seq![92u8, 34u8]
    } else if b == 92 {
        seq![92u8, 92u8]
    } else if b == 8 {
        seq![92u8, 98u8]
    } else if b == 9 {
        seq![92u8, 116u8]
    } else if b == 10 {
        seq![92u8, 110u8]
    } else if b == 12 {
        seq![92u8, 102u8]
    } else if b == 13 {
        seq![92u8, 114u8]
    } else if b < 32 {
        seq![92u8, 117u8, 48u8, 48u8, hex_digit(b as int / 16), hex_digit(b as int % 16)]
    } else {
        seq![b]
    }
}

/// A whole byte string, escaped.
pub open spec fn esc_all(s: Seq<u8>) -> Seq<u8>
    decreases s.len(),
{
    if s.len() == 0 {
        Seq::empty()
    } else {
        esc_all(s.drop_last()) + esc_byte(s.last())
    }
}

/// A JSON string literal holding `s`.
#[verifier::opaque]
pub open spec fn jstr(s: Seq<u8>) -> Seq<u8> {
    seq![34u8] + esc_all(s) + seq![34u8]
}

/// The byte-sequence view of an optional byte string.
pub open spec fn opt_view(o: Option<Vec<u8>>) -> Option<Seq<u8>> {
    match o {
        Option::None => Option::None,
        Option::Some(v) => Option::Some(v@),
    }
}

/// A JSON string literal, or `null` for an absent value.
pub open spec fn jopt_str(o: Option<Seq<u8>>) -> Seq<u8> {
    match o {
        Option::None => "null".spec_bytes(),
        Option::Some(s) => jstr(s),
    }
}

/// `true` or `false`.
pub open spec fn jbool(b: bool) -> Seq<u8> {
    if b {
        "true".spec_bytes()
    } else {
        "false".spec_bytes()
    }
}

/// The pieces joined with commas, in order.
pub open spec fn join_comma(s: Seq<Seq<u8>>) -> Seq<u8>
    decreases s.len(),
{
    if s.len() == 0 {
        Seq::empty()
    } else {
        join_comma(s.drop_last()) + (if s.len() > 1 {
            ",".spec_bytes()
        } else {
            Seq::empty()
        }) + s.last()
    }
}

/// A JSON array of string literals.
#[verifier::opaque]
pub open spec fn jstr_arr(s: Seq<Seq<u8>>) -> Seq<u8> {
    "[".spec_bytes() + join_comma(s.map_values(|x: Seq<u8>| jstr(x))) + "]".spec_bytes()
}

/// Re-grouping one appended piece: emitting piece by piece builds the same
/// bytes as appending the whole run at once.
pub proof fn lemma_push_assoc(base: Seq<u8>, mid: Seq<u8>, tail: Seq<u8>)
    ensures
        base + mid + tail == base + (mid + tail),
{
    assert(base + mid + tail =~= base + (mid + tail));
}

/// Joining one more piece appends a comma exactly when pieces came before.
pub proof fn lemma_join_push(s: Seq<Seq<u8>>, x: Seq<u8>)
    ensures
        join_comma(s.push(x)) == join_comma(s) + (if s.len() > 0 {
            ",".spec_bytes()
        } else {
            Seq::<u8>::empty()
        }) + x,
{
    assert(s.push(x).drop_last() =~= s);
    assert(s.push(x).last() == x);
}

/// Appends a fixed fragment.
pub fn push_lit(out: &mut Vec<u8>, s: &[u8])
    ensures
        final(out)@ == old(out)@ + s@,
{
    let mut i: usize = 0;
    while i < s.len()
        invariant
            0 <= i <= s.len(),
            out@ == old(out)@ + s@.take(i as int),
        decreases s.len() - i,
    {
        out.push(s[i]);
        proof {
            assert(s@.take(i + 1) == s@.take(i as int).push(s@[i as int]));
        }
        i += 1;
    }
    proof {
        assert(s@.take(s@.len() as int) == s@);
    }
}

/// A fixed fragment as an owned byte string.
pub fn lit_vec(s: &[u8]) -> (r: Vec<u8>)
    ensures
        r@ == s@,
{
    let mut r: Vec<u8> = Vec::new();
    push_lit(&mut r, s);
    r
}

/// Appends the decimal digits of `n`.
pub fn push_u32(out: &mut Vec<u8>, n: u32)
    ensures
        final(out)@ == old(out)@ + dec_of(n as nat),
    decreases n,
{
    if n < 10 {
        out.push(48 + n as u8);
        proof {
            assert(old(out)@.push((48 + n) as u8) == old(out)@ + seq![(48 + n) as u8]);
        }
    } else {
        push_u32(out, n / 10);
        out.push(48 + (n % 10) as u8);
        proof {
            assert(old(out)@ + dec_of((n / 10) as nat) + seq![(48 + n % 10) as u8] == old(out)@
                + (dec_of((n / 10) as nat) + seq![(48 + n % 10) as u8]));
        }
    }
}

/// Appends the decimal digits of `n`.
pub fn push_usize(out: &mut Vec<u8>, n: usize)
    ensures
        final(out)@ == old(out)@ + dec_of(n as nat),
    decreases n,
{
    if n < 10 {
        out.push(48 + n as u8);
        proof {
            assert(old(out)@.push((48 + n) as u8) == old(out)@ + seq![(48 + n) as u8]);
        }
    } else {
        push_usize(out, n / 10);
        out.push(48 + (n % 10) as u8);
        proof {
            assert(old(out)@ + dec_of((n / 10) as nat) + seq![(48 + n % 10) as u8] == old(out)@
                + (dec_of((n / 10) as nat) + seq![(48 + n % 10) as u8]));
        }
    }
}

/// Appends one escaped byte of a JSON string value.
pub fn push_esc_byte(out: &mut Vec<u8>, b: u8)
    ensures
        final(out)@ == old(out)@ + esc_byte(b),
{
    if b == 34 {
        out.push(92);
        out.push(34);
    } else if b == 92 {
        out.push(92);
        out.push(92);
    } else if b == 8 {
        out.push(92);
        out.push(98);
    } else if b == 9 {
        out.push(92);
        out.push(116);
    } else if b == 10 {
        out.push(92);
        out.push(110);
    } else if b == 12 {
        out.push(92);
        out.push(102);
    } else if b == 13 {
        out.push(92);
        out.push(114);
    } else if b < 32 {
        out.push(92);
        out.push(117);
        out.push(48);
        out.push(48);
        let hi = b / 16;
        let lo = b % 16;
        out.push(if hi < 10 {
            48 + hi
        } else {
            87 + hi
        });
        out.push(if lo < 10 {
            48 + lo
        } else {
            87 + lo
        });
    } else {
        out.push(b);
    }
    proof {
        assert(final(out)@ =~= old(out)@ + esc_byte(b));
    }
}

/// Appends a JSON string literal holding the bytes of `s`.
pub fn push_jstr(out: &mut Vec<u8>, s: &Vec<u8>)
    ensures
        final(out)@ == old(out)@ + jstr(s@),
{
    out.push(34);
    let mut i: usize = 0;
    while i < s.len()
        invariant
            0 <= i <= s@.len(),
            out@ == old(out)@ + seq![34u8] + esc_all(s@.take(i as int)),
        decreases s@.len() - i,
    {
        proof {
            assert(s@.take(i + 1).drop_last() =~= s@.take(i as int));
            assert(s@.take(i + 1).last() == s@[i as int]);
        }
        push_esc_byte(out, s[i]);
        i += 1;
    }
    out.push(34);
    proof {
        reveal(jstr);
        assert(s@.take(s@.len() as int) == s@);
        assert(final(out)@ =~= old(out)@ + jstr(s@));
    }
}

/// Appends a JSON string literal, or `null` when the value is absent.
pub fn push_opt_jstr(out: &mut Vec<u8>, s: &Option<Vec<u8>>)
    ensures
        final(out)@ == old(out)@ + jopt_str(opt_view(*s)),
{
    match s {
        Option::None => {
            push_lit(out, "null".as_bytes());
        },
        Option::Some(v) => {
            push_jstr(out, v);
        },
    }
}

/// Appends `true` or `false`.
pub fn push_bool(out: &mut Vec<u8>, b: bool)
    ensures
        final(out)@ == old(out)@ + jbool(b),
{
    if b {
        push_lit(out, "true".as_bytes());
    } else {
        push_lit(out, "false".as_bytes());
    }
}

/// Appends a JSON array of string literals.
pub fn push_str_arr(out: &mut Vec<u8>, v: &Vec<Vec<u8>>)
    ensures
        final(out)@ == old(out)@ + jstr_arr(v.deep_view()),
{
    push_lit(out, "[".as_bytes());
    let mut i: usize = 0;
    while i < v.len()
        invariant
            0 <= i <= v@.len(),
            out@ == old(out)@ + "[".spec_bytes() + join_comma(
                v.deep_view().take(i as int).map_values(|x: Seq<u8>| jstr(x)),
            ),
        decreases v@.len() - i,
    {
        if i > 0 {
            push_lit(out, ",".as_bytes());
        }
        push_jstr(out, &v[i]);
        proof {
            let m = v.deep_view().map_values(|x: Seq<u8>| jstr(x));
            assert(v.deep_view()[i as int] == v@[i as int]@);
            assert(m.take(i + 1).drop_last() =~= m.take(i as int));
            assert(m.take(i + 1) =~= v.deep_view().take(i + 1).map_values(|x: Seq<u8>| jstr(x)));
            assert(m.take(i as int) =~= v.deep_view().take(i as int).map_values(
                |x: Seq<u8>| jstr(x),
            ));
            assert(out@ =~= old(out)@ + "[".spec_bytes() + join_comma(m.take(i + 1)));
        }
        i += 1;
    }
    push_lit(out, "]".as_bytes());
    proof {
        reveal(jstr_arr);
        assert(v.deep_view().take(v@.len() as int) == v.deep_view());
        assert(final(out)@ =~= old(out)@ + jstr_arr(v.deep_view()));
    }
}

} // verus!
