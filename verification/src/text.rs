use vstd::prelude::*;

use crate::types::{is_float_lit, is_float_lit_byte, is_ident_byte, is_ident_start, is_identifier};

verus! {

/// Appends a byte slice to a growing byte buffer.
pub fn push_bytes(out: &mut Vec<u8>, s: &[u8])
    ensures
        final(out)@ == old(out)@ + s@,
{
    let mut i: usize = 0;
    while i < s.len()
        invariant
            0 <= i <= s@.len(),
            out@ == old(out)@ + s@.subrange(0, i as int),
        decreases s@.len() - i,
    {
        out.push(s[i]);
        assert(out@ =~= old(out)@ + s@.subrange(0, i + 1 as int));
        i = i + 1;
    }
    assert(out@ =~= old(out)@ + s@);
}

/// The decimal digits of a nonnegative integer, most significant first.
pub open spec fn dec_digits(n: nat) -> Seq<u8>
    decreases n,
{
    if n < 10 {
        seq![(0x30 + n) as u8]
    } else {
        dec_digits(n / 10) + seq![(0x30 + n % 10) as u8]
    }
}

/// The decimal rendering of a signed integer: a minus sign for negative
/// values, then the digits of the magnitude.
pub open spec fn dec_int(i: int) -> Seq<u8> {
    if i < 0 {
        seq![0x2du8] + dec_digits((-i) as nat)
    } else {
        dec_digits(i as nat)
    }
}

/// Appends the decimal digits of `n`.
pub fn push_u64_dec(out: &mut Vec<u8>, n: u64)
    ensures
        final(out)@ == old(out)@ + dec_digits(n as nat),
    decreases n,
{
    if n >= 10 {
        push_u64_dec(out, n / 10);
    }
    out.push(0x30 + ((n % 10) as u8));
    assert(out@ =~= old(out)@ + dec_digits(n as nat));
}

/// Appends the decimal rendering of a signed 64-bit integer.
pub fn push_i64_dec(out: &mut Vec<u8>, i: i64)
    ensures
        final(out)@ == old(out)@ + dec_int(i as int),
{
    if i < 0 {
        out.push(0x2d);
        let m: u64 = (-(i as i128)) as u64;
        assert(m as nat == (-(i as int)) as nat);
        push_u64_dec(out, m);
        assert(out@ =~= old(out)@ + dec_int(i as int));
    } else {
        push_u64_dec(out, i as u64);
    }
}

/// How one payload byte stands inside a quoted SQL literal: quotes,
/// backslashes and line breaks are escaped with a backslash, every other
/// byte stands as itself.
pub open spec fn esc_byte(b: u8) -> Seq<u8> {
    if b == 0x27 {  // ' -> \'
        seq![0x5cu8, 0x27u8]
    } else if b == 0x5c {  // \ -> \\
        seq![0x5cu8, 0x5cu8]
    } else if b == 0x0a {  // line feed -> \n
        seq![0x5cu8, 0x6eu8]
    } else if b == 0x0d {  // carriage return -> \r
        seq![0x5cu8, 0x72u8]
    } else {
        seq![b]
    }
}

/// A payload escaped byte for byte.
pub open spec fn escaped_bytes(s: Seq<u8>) -> Seq<u8>
    decreases s.len(),
{
    if s.len() == 0 {
        Seq::empty()
    } else {
        esc_byte(s[0]) + escaped_bytes(s.drop_first())
    }
}

proof fn lemma_escaped_snoc(s: Seq<u8>, b: u8)
    ensures
        escaped_bytes(s.push(b)) == escaped_bytes(s) + esc_byte(b),
    decreases s.len(),
{
    let t = s.push(b);
    assert(t.len() == s.len() + 1);
    assert(t[0] == if s.len() == 0 {
        b
    } else {
        s[0]
    });
    if s.len() == 0 {
        assert(t.drop_first() =~= Seq::<u8>::empty());
        assert(escaped_bytes(t) == esc_byte(b) + escaped_bytes(Seq::<u8>::empty()));
        assert(escaped_bytes(t) =~= escaped_bytes(s) + esc_byte(b));
    } else {
        assert(t.drop_first() =~= s.drop_first().push(b));
        lemma_escaped_snoc(s.drop_first(), b);
        assert(escaped_bytes(t) == esc_byte(s[0]) + escaped_bytes(t.drop_first()));
        assert(escaped_bytes(t) =~= escaped_bytes(s) + esc_byte(b));
    }
}

/// Appends the payload `s` with its quotes, backslashes and line breaks
/// escaped.
pub fn push_escaped(out: &mut Vec<u8>, s: &[u8])
    ensures
        final(out)@ == old(out)@ + escaped_bytes(s@),
{
    let mut i: usize = 0;
    assert(s@.subrange(0, 0) =~= Seq::<u8>::empty());
    assert(escaped_bytes(s@.subrange(0, 0)) =~= Seq::<u8>::empty());
    while i < s.len()
        invariant
            0 <= i <= s@.len(),
            out@ == old(out)@ + escaped_bytes(s@.subrange(0, i as int)),
        decreases s@.len() - i,
    {
        let b = s[i];
        if b == 0x27 {
            out.push(0x5c);
            out.push(0x27);
        } else if b == 0x5c {
            out.push(0x5c);
            out.push(0x5c);
        } else if b == 0x0a {
            out.push(0x5c);
            out.push(0x6e);
        } else if b == 0x0d {
            out.push(0x5c);
            out.push(0x72);
        } else {
            out.push(b);
        }
        proof {
            lemma_escaped_snoc(s@.subrange(0, i as int), s@[i as int]);
            assert(s@.subrange(0, i + 1 as int) =~= s@.subrange(0, i as int).push(s@[i as int]));
            assert(out@ =~= old(out)@ + escaped_bytes(s@.subrange(0, i + 1 as int)));
        }
        i = i + 1;
    }
    assert(s@.subrange(0, s@.len() as int) =~= s@);
}

/// Reads an escaped payload back: a backslash must be followed by one of the
/// four escape codes, and a bare quote or a trailing backslash is refused.
pub open spec fn unescaped_bytes(s: Seq<u8>) -> Option<Seq<u8>>
    decreases s.len(),
{
    if s.len() == 0 {
        Some(Seq::empty())
    } else if s[0] == 0x5c {
        if s.len() >= 2 {
            let plain: Seq<u8> = if s[1] == 0x27 {
                seq![0x27u8]
            } else if s[1] == 0x5c {
                seq![0x5cu8]
            } else if s[1] == 0x6e {
                seq![0x0au8]
            } else if s[1] == 0x72 {
                seq![0x0du8]
            } else {
                Seq::empty()
            };
            if plain.len() == 1 {
                match unescaped_bytes(s.subrange(2, s.len() as int)) {
                    Some(t) => Some(plain + t),
                    None => None,
                }
            } else {
                None
            }
        } else {
            None
        }
    } else if s[0] == 0x27 {
        None
    } else {
        match unescaped_bytes(s.drop_first()) {
            Some(t) => Some(seq![s[0]] + t),
            None => None,
        }
    }
}

/// Escaping loses nothing: reading an escaped payload back yields exactly
/// the original bytes, and in particular escaped text never holds a bare
/// quote that could close the surrounding SQL literal early.
pub proof fn lemma_escape_roundtrip(s: Seq<u8>)
    ensures
        unescaped_bytes(escaped_bytes(s)) == Some(s),
    decreases s.len(),
{
    if s.len() == 0 {
    } else {
        let b = s[0];
        let e = escaped_bytes(s);
        let tail = escaped_bytes(s.drop_first());
        lemma_escape_roundtrip(s.drop_first());
        if b == 0x27 || b == 0x5c || b == 0x0a || b == 0x0d {
            assert(e =~= esc_byte(b) + tail);
            assert(e.len() >= 2);
            assert(e.subrange(2, e.len() as int) =~= tail);
            assert(seq![b] + s.drop_first() =~= s);
        } else {
            assert(e[0] == b);
            assert(e.drop_first() =~= tail);
            assert(seq![b] + s.drop_first() =~= s);
        }
    }
}

/// Whether `s` is a well-formed floating-point literal payload.
pub fn check_float_lit(s: &[u8]) -> (r: bool)
    ensures
        r == is_float_lit(s@),
{
    if s.len() == 0 {
        return false;
    }
    let mut i: usize = 0;
    while i < s.len()
        invariant
            0 <= i <= s@.len(),
            forall|j: int| 0 <= j < i ==> is_float_lit_byte(#[trigger] s@[j]),
        decreases s@.len() - i,
    {
        let b = s[i];
        if !((0x30 <= b && b <= 0x39) || b == 0x2d || b == 0x2e || b == 0x69 || b == 0x6e || b
            == 0x66 || b == 0x4e || b == 0x61) {
            assert(!is_float_lit_byte(s@[i as int]));
            return false;
        }
        i = i + 1;
    }
    true
}

/// Whether `s` is a plain identifier.
pub fn check_identifier(s: &[u8]) -> (r: bool)
    ensures
        r == is_identifier(s@),
{
    if s.len() == 0 {
        return false;
    }
    let b0 = s[0];
    if !((0x41 <= b0 && b0 <= 0x5a) || (0x61 <= b0 && b0 <= 0x7a) || b0 == 0x5f) {
        assert(!is_ident_start(s@[0]));
        return false;
    }
    let mut i: usize = 0;
    while i < s.len()
        invariant
            0 <= i <= s@.len(),
            forall|j: int| 0 <= j < i ==> is_ident_byte(#[trigger] s@[j]),
        decreases s@.len() - i,
    {
        let b = s[i];
        if !((0x41 <= b && b <= 0x5a) || (0x61 <= b && b <= 0x7a) || b == 0x5f || (0x30 <= b && b
            <= 0x39)) {
            assert(!is_ident_byte(s@[i as int]));
            return false;
        }
        i = i + 1;
    }
    true
}

} // verus!
