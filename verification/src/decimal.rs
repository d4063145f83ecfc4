//! Decimal rendering and parsing of unsigned 64-bit values: wait indexes
//! and durations are emitted as decimal parameters, and the consistency
//! index arrives as a decimal response header.

use vstd::prelude::*;

verus! {

/// Whether a byte is an ASCII decimal digit.
pub open spec fn is_digit(b: u8) -> bool {
    ('0' as u8) <= b && b <= ('9' as u8)
}

/// The numeric value of an ASCII digit.
pub open spec fn digit_value(b: u8) -> nat
    recommends
        is_digit(b),
{
    (b - ('0' as u8)) as nat
}

/// Whether every byte of `s` is an ASCII decimal digit.
pub open spec fn all_digits(s: Seq<u8>) -> bool {
    forall|i: int| 0 <= i < s.len() ==> is_digit(s[i])
}

/// The number a digit string denotes, most significant digit first.
pub open spec fn decimal_value(s: Seq<u8>) -> nat
    recommends
        all_digits(s),
    decreases s.len(),
{
    if s.len() == 0 {
        0
    } else {
        decimal_value(s.drop_last()) * 10 + digit_value(s.last())
    }
}

/// The canonical digit string of `n`: no leading zeros except for `0`
/// itself.
pub open spec fn decimal_digits(n: nat) -> Seq<u8>
    decreases n,
{
    if n < 10 {
        seq![(('0' as u8) + n) as u8]
    } else {
        decimal_digits(n / 10).push((('0' as u8) + n % 10) as u8)
    }
}

/// A longer digit string never denotes a smaller number: extending a
/// prefix of digits can only grow the value.
proof fn lemma_decimal_value_grows(s: Seq<u8>, i: int)
    requires
        0 <= i <= s.len(),
        all_digits(s),
    ensures
        decimal_value(s.take(i)) <= decimal_value(s),
    decreases s.len() - i,
{
    if i == s.len() {
        assert(s.take(i) =~= s);
    } else {
        let t = s.take(i + 1);
        assert(t.drop_last() =~= s.take(i));
        assert(decimal_value(s.take(i)) * 10 >= decimal_value(s.take(i))) by (nonlinear_arith);
        lemma_decimal_value_grows(s, i + 1);
    }
}

/// Rendering and parsing agree: the canonical digit string of `n` is a
/// nonempty string of digits that denotes `n` itself.
pub proof fn lemma_decimal_round_trip(n: nat)
    ensures
        decimal_digits(n).len() > 0,
        all_digits(decimal_digits(n)),
        decimal_value(decimal_digits(n)) == n,
    decreases n,
{
    if n < 10 {
        let s = decimal_digits(n);
        assert(s.drop_last() =~= Seq::<u8>::empty());
        assert(s.last() == (('0' as u8) + n) as u8);
        assert(decimal_value(s) == decimal_value(s.drop_last()) * 10 + digit_value(s.last()));
        assert(decimal_value(s.drop_last()) == 0);
        assert(digit_value(s.last()) == n);
    } else {
        lemma_decimal_round_trip(n / 10);
        let s = decimal_digits(n / 10);
        let d = (('0' as u8) + n % 10) as u8;
        assert(s.push(d).drop_last() =~= s);
        assert(s.push(d).last() == d);
        assert(n == (n / 10) * 10 + n % 10) by (nonlinear_arith);
        assert forall|i: int| 0 <= i < s.push(d).len() implies is_digit(#[trigger] s.push(d)[i]) by {
            if i < s.len() {
                assert(is_digit(s[i]));
            }
        }
    }
}

/// Render `n` as its decimal digit string.
pub fn u64_to_decimal(n: u64) -> (out: Vec<u8>)
    ensures
        out@ == decimal_digits(n as nat),
{
    let mut rev: Vec<u8> = Vec::new();
    let mut m: u64 = n;
    if m == 0 {
        let mut out: Vec<u8> = Vec::new();
        out.push('0' as u8);
        return out;
    }
    while m > 0
        invariant
            m > 0 ==> decimal_digits(n as nat) == decimal_digits(m as nat) + rev@.reverse(),
            m == 0 ==> decimal_digits(n as nat) == rev@.reverse(),
        decreases m,
    {
        let d: u8 = ('0' as u8) + (m % 10) as u8;
        proof {
            let ghost prev = rev@;
            assert(prev.push(d).reverse() =~= seq![d] + prev.reverse());
            if m >= 10 {
                assert(decimal_digits(m as nat) == decimal_digits((m as nat) / 10).push(d));
                assert(decimal_digits((m as nat) / 10) + prev.push(d).reverse() =~= decimal_digits(
                    m as nat,
                ) + prev.reverse());
            } else {
                assert(decimal_digits(m as nat) =~= seq![d]);
            }
        }
        rev.push(d);
        m = m / 10;
    }
    let mut out: Vec<u8> = Vec::new();
    let mut j: usize = rev.len();
    proof {
        assert(rev@.skip(rev@.len() as int).reverse() =~= out@);
    }
    while j > 0
        invariant
            j <= rev@.len(),
            out@ == rev@.skip(j as int).reverse(),
        decreases j,
    {
        j = j - 1;
        out.push(rev[j]);
        proof {
            assert(rev@.skip(j as int).reverse() =~= rev@.skip(j + 1).reverse().push(
                rev@[j as int],
            ));
        }
    }
    proof {
        assert(rev@.skip(0) =~= rev@);
    }
    out
}

/// Parse a digit string as an unsigned 64-bit number. `None` exactly when
/// the string is empty, holds a non-digit, or denotes a value too large.
pub fn parse_decimal_u64(s: &[u8]) -> (out: Option<u64>)
    ensures
        match out {
            Some(v) => s@.len() > 0 && all_digits(s@) && decimal_value(s@) == v as nat,
            None => s@.len() == 0 || !all_digits(s@) || decimal_value(s@) > u64::MAX,
        },
{
    if s.len() == 0 {
        return None;
    }
    let mut acc: u64 = 0;
    let mut i: usize = 0;
    proof {
        assert(s@.take(0) =~= Seq::<u8>::empty());
    }
    while i < s.len()
        invariant
            i <= s.len(),
            all_digits(s@.take(i as int)),
            acc as nat == decimal_value(s@.take(i as int)),
        decreases s.len() - i,
    {
        let b = s[i];
        if b < ('0' as u8) || b > ('9' as u8) {
            proof {
                assert(!is_digit(s@[i as int]));
            }
            return None;
        }
        let d: u8 = b - ('0' as u8);
        proof {
            assert(s@.take(i + 1).drop_last() =~= s@.take(i as int));
            assert(s@.take(i + 1).last() == s@[i as int]);
        }
        let next = match acc.checked_mul(10) {
            Some(t) => t.checked_add(d as u64),
            None => None,
        };
        match next {
            Some(v) => {
                acc = v;
            },
            None => {
                proof {
                    assert(decimal_value(s@.take(i + 1)) > u64::MAX);
                    if all_digits(s@) {
                        lemma_decimal_value_grows(s@, i + 1);
                    }
                }
                return None;
            },
        }
        i += 1;
    }
    proof {
        assert(s@.take(s@.len() as int) =~= s@);
    }
    Some(acc)
}

} // verus!
