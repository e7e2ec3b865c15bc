//! Value formatting policy for an integer parameter.
//!
//! `value_to_string` is total: the decimal text of the value followed by the
//! configured unit suffix, always the same text for the same value.
//! `string_to_value` is partial and adversarial-input safe: a trailing unit
//! suffix is stripped when present, the remainder must parse as a decimal
//! 64-bit integer, and anything malformed yields `None` without panicking.

use vstd::prelude::*;

use crate::decimal::{dec_chars, lemma_parse_format_round_trip, spec_parse_i64};
use crate::decimal::{format_i64, lemma_dec_chars_nonempty, parse_i64};
use crate::text::{chars_to_string, str_chars};

verus! {

/// A formatter for plain integer values with a fixed unit suffix.
#[derive(Clone, Copy)]
pub struct IntFormatter {
    pub unit: &'static str,
}

impl IntFormatter {
    /// The unit suffix, as characters.
    pub open spec fn spec_unit(self) -> Seq<char> {
        self.unit@
    }

    /// The text for a plain value: its decimal notation, then the unit.
    pub open spec fn spec_value_to_string(self, value: int) -> Seq<char> {
        dec_chars(value) + self.unit@
    }

    /// The text with one trailing unit suffix removed, when it has one;
    /// otherwise the text itself.
    pub open spec fn spec_strip_unit(self, s: Seq<char>) -> Seq<char> {
        if self.unit@.len() <= s.len() && s.subrange(
            s.len() - self.unit@.len(),
            s.len() as int,
        ) == self.unit@ {
            s.take(s.len() - self.unit@.len())
        } else {
            s
        }
    }

    /// The value denoted by text: the decimal value of the text after an
    /// optional unit suffix; undefined for malformed text.
    pub open spec fn spec_string_to_value(self, s: Seq<char>) -> Option<i64> {
        spec_parse_i64(self.spec_strip_unit(s))
    }

    /// A formatter with the given unit suffix.
    pub fn new(unit: &'static str) -> (r: IntFormatter)
        ensures
            r.spec_unit() == unit@,
    {
        IntFormatter { unit }
    }

    /// The display text of a plain value. Total and stable: the same value
    /// always yields the same text.
    pub fn value_to_string(&self, value: i64) -> (r: String)
        ensures
            r@ == self.spec_value_to_string(value as int),
    {
        let mut chars = format_i64(value);
        let mut unit_chars = str_chars(self.unit);
        chars.append(&mut unit_chars);
        chars_to_string(&chars)
    }

    /// The plain value denoted by display text; `None` on any malformed
    /// input. Never panics: this boundary takes free text.
    pub fn string_to_value(&self, string: &str) -> (r: Option<i64>)
        ensures
            r == self.spec_string_to_value(string@),
    {
        let mut chars = str_chars(string);
        let unit_chars = str_chars(self.unit);
        let n = chars.len();
        let m = unit_chars.len();
        if m <= n {
            let mut matched = true;
            let mut k: usize = 0;
            while k < m
                invariant
                    0 <= k <= m <= n,
                    n == chars@.len(),
                    m == unit_chars@.len(),
                    matched ==> forall|j: int| 0 <= j < k ==> chars@[n - m + j] == unit_chars@[j],
                    !matched ==> exists|j: int|
                        0 <= j < m && chars@[n - m + j] != unit_chars@[j],
                decreases m - k,
            {
                if chars[n - m + k] != unit_chars[k] {
                    matched = false;
                }
                k = k + 1;
            }
            if matched {
                assert(chars@.subrange(n - m, n as int) =~= unit_chars@);
                chars.truncate(n - m);
                assert(chars@ =~= self.spec_strip_unit(string@));
            } else {
                assert(chars@.subrange(n - m, n as int) != unit_chars@) by {
                    let j = choose|j: int| 0 <= j < m && chars@[n - m + j] != unit_chars@[j];
                    assert(chars@.subrange(n - m, n as int)[j] != unit_chars@[j]);
                }
            }
        }
        parse_i64(&chars)
    }
}

/// Formatter round-trip law: the display text of any representable value
/// parses back to exactly that value, whatever the unit suffix.
pub proof fn lemma_formatter_round_trip(f: IntFormatter, value: i64)
    ensures
        f.spec_string_to_value(f.spec_value_to_string(value as int)) == Some(value),
{
    let printed = f.spec_value_to_string(value as int);
    lemma_dec_chars_nonempty(value as int);
    assert(printed.subrange(printed.len() - f.unit@.len(), printed.len() as int) =~= f.unit@);
    assert(printed.take(printed.len() - f.unit@.len()) =~= dec_chars(value as int));
    lemma_parse_format_round_trip(value);
}

} // verus!
