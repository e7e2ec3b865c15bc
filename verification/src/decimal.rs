//! Decimal text for 64-bit integers.
//!
//! `format_i64` renders a value as an optional minus sign followed by its
//! decimal digits, and `parse_i64` accepts an optional sign followed by one
//! or more digits, rejecting everything else, including values that do not
//! fit in 64 bits. Both directions are specified against the same
//! mathematical description of decimal notation, which yields the formatter
//! round-trip law.

use vstd::prelude::*;
use vstd::arithmetic::div_mod::{lemma_fundamental_div_mod, lemma_mod_bound};

verus! {

/// The character for a single decimal digit value.
pub open spec fn digit_char(d: int) -> char {
    ((d + 48) as u8) as char
}

/// True for the characters '0' through '9'.
pub open spec fn is_digit(c: char) -> bool {
    48 <= c as int <= 57
}

/// The numeric value of a decimal digit character.
pub open spec fn digit_val(c: char) -> int {
    c as int - 48
}

/// The decimal digits of a non-negative value, most significant first,
/// without sign and without leading zeros (a single '0' for zero).
pub open spec fn dec_digits(n: nat) -> Seq<char>
    decreases n,
{
    if n < 10 {
        seq![digit_char(n as int)]
    } else {
        dec_digits(n / 10) + seq![digit_char((n % 10) as int)]
    }
}

/// The decimal notation of a value: a minus sign for negative values,
/// followed by the digits of its magnitude.
pub open spec fn dec_chars(v: int) -> Seq<char> {
    if v < 0 {
        seq!['-'] + dec_digits((-v) as nat)
    } else {
        dec_digits(v as nat)
    }
}

/// True when every character is a decimal digit.
pub open spec fn all_digits(s: Seq<char>) -> bool {
    forall|i: int| 0 <= i < s.len() ==> is_digit(s[i])
}

/// The value of a digit string, most significant digit first.
pub open spec fn digits_val(s: Seq<char>) -> int
    decreases s.len(),
{
    if s.len() == 0 {
        0
    } else {
        digits_val(s.drop_last()) * 10 + digit_val(s.last())
    }
}

/// True when the text opens with a sign character.
pub open spec fn has_sign(s: Seq<char>) -> bool {
    s.len() > 0 && (s[0] == '-' || s[0] == '+')
}

/// The value denoted by decimal text: an optional sign, then one or more
/// digits, with the result required to fit in an `i64`; anything else is
/// undefined. This matches what the standard integer parser accepts.
pub open spec fn spec_parse_i64(s: Seq<char>) -> Option<i64> {
    let neg = s.len() > 0 && s[0] == '-';
    let ds = if has_sign(s) {
        s.drop_first()
    } else {
        s
    };
    if ds.len() == 0 || !all_digits(ds) {
        None
    } else {
        let v = if neg {
            -digits_val(ds)
        } else {
            digits_val(ds)
        };
        if -0x8000_0000_0000_0000 <= v <= 0x7fff_ffff_ffff_ffff {
            Some(v as i64)
        } else {
            None
        }
    }
}

/// The digit character for a digit value.
fn digit_char_of(d: u64) -> (c: char)
    requires
        d < 10,
    ensures
        c == digit_char(d as int),
{
    (d as u8 + 48) as char
}

/// Appends the decimal digits of `n`, most significant first.
fn push_digits(n: u64, out: &mut Vec<char>)
    ensures
        final(out)@ == old(out)@ + dec_digits(n as nat),
    decreases n,
{
    if n < 10 {
        out.push(digit_char_of(n));
        assert(out@ =~= old(out)@ + dec_digits(n as nat));
    } else {
        assert(n / 10 < n && n / 10 >= 1) by (nonlinear_arith)
            requires
                n >= 10,
        ;
        push_digits(n / 10, out);
        out.push(digit_char_of(n % 10));
        assert(out@ =~= old(out)@ + dec_digits(n as nat));
    }
}

/// The decimal text of a value, as characters.
pub fn format_i64(v: i64) -> (r: Vec<char>)
    ensures
        r@ == dec_chars(v as int),
{
    let mut out: Vec<char> = Vec::new();
    if v < 0 {
        out.push('-');
        let mag: u64 = (-(v as i128)) as u64;
        push_digits(mag, &mut out);
        assert(out@ =~= dec_chars(v as int));
    } else {
        push_digits(v as u64, &mut out);
        assert(out@ =~= dec_chars(v as int));
    }
    out
}

/// A digit string is worth at least as much as any of its prefixes, and
/// never less than zero.
proof fn lemma_digits_val_prefix(s: Seq<char>, j: int)
    requires
        all_digits(s),
        0 <= j <= s.len(),
    ensures
        0 <= digits_val(s.take(j)) <= digits_val(s),
    decreases s.len(),
{
    if s.len() == 0 {
        assert(s.take(j) =~= s);
    } else {
        lemma_digits_val_prefix(s.drop_last(), if j > s.len() - 1 { s.len() - 1 } else { j });
        if j == s.len() {
            assert(s.take(j) =~= s);
            assert(digits_val(s.drop_last()) * 10 + digit_val(s.last()) >= digits_val(
                s.drop_last(),
            )) by (nonlinear_arith)
                requires
                    digits_val(s.drop_last()) >= 0,
                    digit_val(s.last()) >= 0,
            ;
        } else {
            assert(s.take(j) =~= s.drop_last().take(j));
            assert(digits_val(s.drop_last()) * 10 + digit_val(s.last()) >= digits_val(
                s.drop_last(),
            )) by (nonlinear_arith)
                requires
                    digits_val(s.drop_last()) >= 0,
                    digit_val(s.last()) >= 0,
            ;
        }
    }
}

/// Reading one more digit multiplies the value so far by ten and adds the
/// digit.
proof fn lemma_digits_val_step(s: Seq<char>, j: int)
    requires
        0 <= j < s.len(),
    ensures
        digits_val(s.take(j + 1)) == digits_val(s.take(j)) * 10 + digit_val(s[j]),
{
    assert(s.take(j + 1).drop_last() =~= s.take(j));
    assert(s.take(j + 1).last() == s[j]);
}

/// The decimal text of an `i64`, parsed back, yields the same value: the
/// formatter round-trip law on the digit level.
pub proof fn lemma_parse_format_round_trip(v: i64)
    ensures
        spec_parse_i64(dec_chars(v as int)) == Some(v),
{
    if v < 0 {
        let mag = (-(v as int)) as nat;
        lemma_dec_digits_value(mag);
        let s = dec_chars(v as int);
        assert(s[0] == '-');
        assert(s.drop_first() =~= dec_digits(mag));
        assert(mag <= 0x8000_0000_0000_0000);
    } else {
        let mag = v as nat;
        lemma_dec_digits_value(mag);
        let s = dec_chars(v as int);
        assert(s == dec_digits(mag));
        assert(is_digit(s[0]));
        assert(s[0] != '-' && s[0] != '+') by {
            assert(('-') as int == 45 && ('+') as int == 43);
        }
    }
}

/// The digits of a value denote that value, and are digits.
proof fn lemma_dec_digits_value(n: nat)
    ensures
        all_digits(dec_digits(n)),
        digits_val(dec_digits(n)) == n,
        dec_digits(n).len() >= 1,
    decreases n,
{
    if n < 10 {
        let s = dec_digits(n);
        assert(s.len() == 1);
        assert(s.drop_last() =~= Seq::<char>::empty());
        assert(digits_val(Seq::<char>::empty()) == 0);
        assert(s.last() == digit_char(n as int));
        assert(digit_val(digit_char(n as int)) == n);
        assert(digits_val(s) == digits_val(s.drop_last()) * 10 + digit_val(s.last()));
        assert(is_digit(s[0]));
    } else {
        lemma_dec_digits_value(n / 10);
        let s = dec_digits(n);
        let prefix = dec_digits(n / 10);
        assert(s.drop_last() =~= prefix);
        assert(s.last() == digit_char((n % 10) as int));
        lemma_mod_bound(n as int, 10);
        assert(digit_val(digit_char((n % 10) as int)) == n % 10);
        assert(digits_val(s) == (n / 10) * 10 + n % 10);
        lemma_fundamental_div_mod(n as int, 10);
        assert(forall|i: int| 0 <= i < s.len() ==> is_digit(#[trigger] s[i])) by {
            assert(forall|i: int|
                0 <= i < prefix.len() ==> is_digit(#[trigger] prefix[i]) && s[i] == prefix[i]);
            assert(is_digit(s[s.len() - 1]));
        }
    }
}

/// Decimal text is never empty: even zero has a digit.
pub proof fn lemma_dec_chars_nonempty(v: int)
    ensures
        dec_chars(v).len() >= 1,
{
    if v < 0 {
        lemma_dec_digits_value((-v) as nat);
    } else {
        lemma_dec_digits_value(v as nat);
    }
}

/// Parses decimal text into an `i64`, exactly as the specification says:
/// `None` on an empty digit list, a stray character, or a value that does
/// not fit.
pub fn parse_i64(s: &Vec<char>) -> (r: Option<i64>)
    ensures
        r == spec_parse_i64(s@),
{
    let len = s.len();
    let ghost whole = s@;
    let mut start: usize = 0;
    let mut neg = false;
    if len > 0 && (s[0] == '-' || s[0] == '+') {
        neg = s[0] == '-';
        start = 1;
    }
    let ghost ds = if has_sign(whole) {
        whole.drop_first()
    } else {
        whole
    };
    assert(ds.len() == len - start);
    assert(forall|k: int| 0 <= k < ds.len() ==> ds[k] == whole[k + start]);
    if start == len {
        return None;
    }
    let mut i: usize = start;
    let mut acc: u64 = 0;
    while i < len
        invariant
            start <= i <= len,
            len == whole.len(),
            s@ == whole,
            start == if has_sign(whole) {
                1int
            } else {
                0int
            },
            ds == if has_sign(whole) {
                whole.drop_first()
            } else {
                whole
            },
            ds.len() == len - start,
            forall|k: int| 0 <= k < ds.len() ==> ds[k] == whole[k + start],
            all_digits(ds.take(i - start)),
            acc == digits_val(ds.take(i - start)),
        decreases len - i,
    {
        let c = s[i];
        if c < '0' || c > '9' {
            assert(!is_digit(ds[i - start]));
            return None;
        }
        let d = (c as u8 - 48) as u64;
        proof {
            assert(c == ds[i - start]);
            assert('0' as int == 48 && '9' as int == 57);
            assert(48 <= c as int <= 57);
            assert(d == digit_val(ds[i - start]) && d <= 9);
        }
        if acc > (u64::MAX - d) / 10 {
            proof {
                lemma_digits_val_step(ds, i - start);
                assert(digits_val(ds.take(i - start + 1)) == acc * 10 + d);
                assert(acc * 10 + d > u64::MAX) by (nonlinear_arith)
                    requires
                        acc > (u64::MAX - d) / 10,
                        d <= 9,
                ;
                if all_digits(ds) {
                    lemma_digits_val_prefix(ds, i - start + 1);
                    assert(digits_val(ds) > u64::MAX as int);
                }
            }
            return None;
        }
        proof {
            lemma_digits_val_step(ds, i - start);
            assert(acc * 10 + d <= u64::MAX) by (nonlinear_arith)
                requires
                    acc <= (u64::MAX - d) / 10,
                    d <= 9,
            ;
            assert(all_digits(ds.take(i - start + 1)));
        }
        acc = acc * 10 + d;
        i = i + 1;
    }
    assert(ds.take(i - start) =~= ds);
    assert(all_digits(ds) && acc == digits_val(ds));
    if neg {
        if acc > 0x8000_0000_0000_0000u64 {
            None
        } else {
            Some((-(acc as i128)) as i64)
        }
    } else {
        if acc > 0x7fff_ffff_ffff_ffffu64 {
            None
        } else {
            Some(acc as i64)
        }
    }
}

} // verus!
