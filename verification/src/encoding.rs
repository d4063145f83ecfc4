//! Byte-level text utilities of the request builder: percent-encoding of
//! query values and stripping of leading path separators from KV keys.

use vstd::prelude::*;

verus! {

/// Bytes that pass through a query value unchanged: the unreserved
/// characters of RFC 3986. Every other byte — the query delimiters
/// `&`, `=`, `?`, `#`, space, controls, and everything non-ASCII — is
/// escaped, byte by byte.
pub open spec fn is_unreserved_byte(b: u8) -> bool {
    (('A' as u8) <= b && b <= ('Z' as u8)) || (('a' as u8) <= b && b <= ('z' as u8)) || (('0' as u8) <= b && b <= ('9' as u8)) || b == ('-' as u8)
        || b == ('_' as u8) || b == ('.' as u8) || b == ('~' as u8)
}

/// The upper-case hexadecimal digit of a value below 16.
pub open spec fn hex_digit(n: u8) -> u8
    recommends
        n < 16,
{
    if n < 10 {
        (('0' as u8) + n) as u8
    } else {
        (('A' as u8) + (n - 10)) as u8
    }
}

/// How a single byte appears in an encoded query value: itself when
/// unreserved, otherwise `%` followed by its two hexadecimal digits.
pub open spec fn encoded_byte(b: u8) -> Seq<u8> {
    if is_unreserved_byte(b) {
        seq![b]
    } else {
        seq![('%' as u8), hex_digit(b / 16), hex_digit(b % 16)]
    }
}

/// The percent-encoding of a whole byte string.
pub open spec fn percent_encoded(s: Seq<u8>) -> Seq<u8>
    decreases s.len(),
{
    if s.len() == 0 {
        Seq::empty()
    } else {
        percent_encoded(s.drop_last()) + encoded_byte(s.last())
    }
}

fn hex_digit_exec(n: u8) -> (d: u8)
    requires
        n < 16,
    ensures
        d == hex_digit(n),
{
    if n < 10 {
        ('0' as u8) + n
    } else {
        ('A' as u8) + (n - 10)
    }
}

/// Percent-encode a byte string for use as a query value.
pub fn percent_encode(s: &[u8]) -> (out: Vec<u8>)
    ensures
        out@ == percent_encoded(s@),
{
    let mut out: Vec<u8> = Vec::new();
    let mut i: usize = 0;
    while i < s.len()
        invariant
            i <= s.len(),
            out@ == percent_encoded(s@.take(i as int)),
        decreases s.len() - i,
    {
        let b = s[i];
        if (('A' as u8) <= b && b <= ('Z' as u8)) || (('a' as u8) <= b && b <= ('z' as u8)) || (('0' as u8) <= b && b <= ('9' as u8))
            || b == ('-' as u8) || b == ('_' as u8) || b == ('.' as u8) || b == ('~' as u8) {
            out.push(b);
        } else {
            out.push(('%' as u8));
            out.push(hex_digit_exec(b / 16));
            out.push(hex_digit_exec(b % 16));
        }
        proof {
            assert(s@.take(i + 1).drop_last() =~= s@.take(i as int));
            assert(s@.take(i + 1).last() == s@[i as int]);
            assert(out@ =~= percent_encoded(s@.take(i + 1)));
        }
        i += 1;
    }
    proof {
        assert(s@.take(s@.len() as int) =~= s@);
    }
    out
}

/// `s` with every leading `/` removed.
pub open spec fn without_leading_slashes(s: Seq<u8>) -> Seq<u8>
    decreases s.len(),
{
    if s.len() > 0 && s[0] == ('/' as u8) {
        without_leading_slashes(s.drop_first())
    } else {
        s
    }
}

/// Prepending one more `/` to a byte string never changes what the
/// stripped form is.
pub proof fn lemma_leading_slash_irrelevant(s: Seq<u8>)
    ensures
        without_leading_slashes(seq![('/' as u8)] + s) == without_leading_slashes(s),
{
    assert((seq![('/' as u8)] + s)[0] == ('/' as u8));
    assert((seq![('/' as u8)] + s).drop_first() =~= s);
}

/// Copy of `s` with every leading `/` removed.
pub fn strip_leading_slashes(s: &[u8]) -> (out: Vec<u8>)
    ensures
        out@ == without_leading_slashes(s@),
{
    let mut i: usize = 0;
    proof {
        assert(s@.skip(0) =~= s@);
    }
    while i < s.len() && s[i] == ('/' as u8)
        invariant
            i <= s.len(),
            without_leading_slashes(s@) == without_leading_slashes(s@.skip(i as int)),
        decreases s.len() - i,
    {
        proof {
            assert(s@.skip(i as int)[0] == s@[i as int]);
            assert(s@.skip(i as int).drop_first() =~= s@.skip(i + 1));
        }
        i += 1;
    }
    proof {
        assert(without_leading_slashes(s@.skip(i as int)) == s@.skip(i as int)) by {
            if i < s@.len() {
                assert(s@.skip(i as int)[0] == s@[i as int]);
            }
        }
    }
    let mut out: Vec<u8> = Vec::new();
    let mut j: usize = i;
    while j < s.len()
        invariant
            i <= j <= s.len(),
            out@ == s@.subrange(i as int, j as int),
        decreases s.len() - j,
    {
        out.push(s[j]);
        proof {
            assert(s@.subrange(i as int, j + 1) =~= s@.subrange(i as int, j as int).push(
                s@[j as int],
            ));
        }
        j += 1;
    }
    proof {
        assert(s@.subrange(i as int, s@.len() as int) =~= s@.skip(i as int));
    }
    out
}

} // verus!
