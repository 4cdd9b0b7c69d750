//! Monetary amounts, kept as the decimal text that travels on the wire.

use crate::text::{
    is_digit,
    leading_whitespace,
    spec_is_whitespace,
    spec_trim,
    trailing_whitespace,
};
use vstd::prelude::*;
use vstd::string::StrSliceExecFns;

verus! {

/// The number of decimal digits of `s` that follow one another from index `i`.
pub open spec fn digit_run(s: Seq<char>, i: int) -> int
    decreases s.len() - i,
{
    if 0 <= i < s.len() && is_digit(s[i]) {
        1 + digit_run(s, i + 1)
    } else {
        0
    }
}

/// Whether `c` is a plus or a minus sign.
pub open spec fn is_sign(c: char) -> bool {
    c == '+' || c == '-'
}

/// `c` with an upper-case ASCII letter made lower-case.
pub open spec fn ascii_lower(c: char) -> char {
    if 'A' <= c <= 'Z' {
        ((c as u32) + 32) as char
    } else {
        c
    }
}

/// Whether `s` spells `word`, whatever the case of its ASCII letters.
pub open spec fn spells(s: Seq<char>, word: Seq<char>) -> bool {
    &&& s.len() == word.len()
    &&& forall|i: int| 0 <= i < s.len() ==> ascii_lower(#[trigger] s[i]) == word[i]
}

/// Whether `s` names an infinity or a value that is not a number.
pub open spec fn is_special(s: Seq<char>) -> bool {
    spells(s, "inf"@) || spells(s, "infinity"@) || spells(s, "nan"@)
}

/// Where the number that starts at index `i` of `s` ends, if one starts there:
/// digits with at most one point among them, at least one digit in all, then
/// an optional exponent made of `e`, an optional sign and one or more digits.
pub open spec fn number_end(s: Seq<char>, i: int) -> Option<int> {
    let whole = digit_run(s, i);
    let p = i + whole;
    let has_point = 0 <= p < s.len() && s[p] == '.';
    let fraction = if has_point {
        digit_run(s, p + 1)
    } else {
        0
    };
    let q = if has_point {
        p + 1 + fraction
    } else {
        p
    };
    if whole + fraction == 0 {
        None
    } else if 0 <= q < s.len() && (s[q] == 'e' || s[q] == 'E') {
        let r = if q + 1 < s.len() && is_sign(s[q + 1]) {
            q + 2
        } else {
            q + 1
        };
        let exponent = digit_run(s, r);
        if exponent == 0 {
            None
        } else {
            Some(r + exponent)
        }
    } else {
        Some(q)
    }
}

/// Whether `s` is the text of a number: an optional sign, then either a
/// decimal number with an optional exponent, or `inf`, `infinity` or `nan` in
/// any case.
pub open spec fn is_number_text(s: Seq<char>) -> bool {
    let start: int = if s.len() > 0 && is_sign(s[0]) {
        1
    } else {
        0
    };
    is_special(s.subrange(start, s.len() as int)) || number_end(s, start) == Some(s.len() as int)
}

proof fn lemma_digit_run(s: Seq<char>, i: int)
    requires
        0 <= i <= s.len(),
    ensures
        0 <= digit_run(s, i) <= s.len() - i,
        forall|k: int| i <= k < i + digit_run(s, i) ==> is_digit(#[trigger] s[k]),
    decreases s.len() - i,
{
    if i < s.len() && is_digit(s[i]) {
        lemma_digit_run(s, i + 1);
    }
}

proof fn lemma_word_is_no_whitespace(s: Seq<char>, word: Seq<char>)
    requires
        spells(s, word),
        word.len() > 0,
        forall|i: int| 0 <= i < word.len() ==> 'a' <= #[trigger] word[i] <= 'z',
    ensures
        s.len() > 0,
        !spec_is_whitespace(s[0]),
        !spec_is_whitespace(s[s.len() - 1]),
{
    let last = s.len() - 1;
    assert('a' <= word[0] <= 'z');
    assert('a' <= word[last] <= 'z');
    assert(ascii_lower(s[0]) == word[0]);
    assert(ascii_lower(s[last]) == word[last]);
}

/// The text of a number has no white space at either end.
pub proof fn lemma_number_text_is_trimmed(s: Seq<char>)
    requires
        is_number_text(s),
    ensures
        s.len() > 0,
        spec_trim(s) == s,
{
    let n = s.len() as int;
    let start: int = if s.len() > 0 && is_sign(s[0]) {
        1
    } else {
        0
    };
    let rest = s.subrange(start, n);
    assert(n > 0 && !spec_is_whitespace(s[0]) && !spec_is_whitespace(s[n - 1])) by {
        if is_special(rest) {
            reveal_strlit("inf");
            reveal_strlit("infinity");
            reveal_strlit("nan");
            if spells(rest, "inf"@) {
                lemma_word_is_no_whitespace(rest, "inf"@);
            } else if spells(rest, "infinity"@) {
                lemma_word_is_no_whitespace(rest, "infinity"@);
            } else {
                lemma_word_is_no_whitespace(rest, "nan"@);
            }
            assert(rest[0] == s[start]);
            assert(rest[rest.len() - 1] == s[n - 1]);
        } else {
            lemma_digit_run(s, start);
            let whole = digit_run(s, start);
            let p = start + whole;
            let has_point = 0 <= p < s.len() && s[p] == '.';
            if has_point {
                lemma_digit_run(s, p + 1);
            }
            let fraction = if has_point {
                digit_run(s, p + 1)
            } else {
                0
            };
            let q = if has_point {
                p + 1 + fraction
            } else {
                p
            };
            if 0 <= q < s.len() && (s[q] == 'e' || s[q] == 'E') {
                let r = if q + 1 < s.len() && is_sign(s[q + 1]) {
                    q + 2
                } else {
                    q + 1
                };
                lemma_digit_run(s, r);
                assert(is_digit(s[n - 1]));
            } else if has_point && fraction == 0 {
                assert(s[n - 1] == '.');
            } else {
                assert(is_digit(s[n - 1]));
            }
            if start == 0 {
                if whole > 0 {
                    assert(is_digit(s[0]));
                } else {
                    assert(s[0] == '.');
                }
            }
        }
    }
    assert(leading_whitespace(s, 0) == 0);
    assert(trailing_whitespace(s, n) == 0);
    assert(s.subrange(0, n) =~= s);
}

/// An amount of money, as the text of a number.
#[derive(Debug, PartialEq, Eq)]
pub struct Amount {
    text: String,
}

impl View for Amount {
    type V = Seq<char>;

    closed spec fn view(&self) -> Seq<char> {
        self.text@
    }
}

fn lower(c: char) -> (r: char)
    ensures
        r == ascii_lower(c),
{
    if 'A' <= c && c <= 'Z' {
        let n: u32 = c as u32 + 32;
        assert(n as char as u32 == n);
        n as u8 as char
    } else {
        c
    }
}

fn spells_word(s: &str, from: usize, word: &str) -> (r: bool)
    requires
        from <= s@.len(),
    ensures
        r == spells(s@.subrange(from as int, s@.len() as int), word@),
{
    let n = s.unicode_len();
    let m = word.unicode_len();
    if n - from != m {
        return false;
    }
    let ghost rest = s@.subrange(from as int, n as int);
    let mut i: usize = 0;
    while i < m
        invariant
            n == s@.len(),
            m == word@.len(),
            from <= n,
            n - from == m,
            i <= m,
            rest == s@.subrange(from as int, n as int),
            forall|j: int| 0 <= j < i ==> ascii_lower(#[trigger] rest[j]) == word@[j],
        decreases m - i,
    {
        if lower(s.get_char(from + i)) != word.get_char(i) {
            assert(ascii_lower(rest[i as int]) != word@[i as int]);
            return false;
        }
        i = i + 1;
    }
    true
}

fn count_digits(s: &str, from: usize) -> (r: usize)
    requires
        from <= s@.len(),
    ensures
        r == digit_run(s@, from as int),
        from + r <= s@.len(),
{
    let n = s.unicode_len();
    let mut i: usize = from;
    while i < n && '0' <= s.get_char(i) && s.get_char(i) <= '9'
        invariant
            n == s@.len(),
            from <= i <= n,
            digit_run(s@, from as int) == (i - from) + digit_run(s@, i as int),
        decreases n - i,
    {
        i = i + 1;
    }
    i - from
}

fn scan_number(s: &str, from: usize) -> (r: Option<usize>)
    requires
        from <= s@.len(),
    ensures
        match r {
            Some(end) => number_end(s@, from as int) == Some(end as int) && end <= s@.len(),
            None => number_end(s@, from as int) is None,
        },
{
    let n = s.unicode_len();
    let whole = count_digits(s, from);
    let p = from + whole;
    let has_point = p < n && s.get_char(p) == '.';
    let fraction = if has_point {
        count_digits(s, p + 1)
    } else {
        0
    };
    let q = if has_point {
        p + 1 + fraction
    } else {
        p
    };
    if whole == 0 && fraction == 0 {
        return None;
    }
    if q < n && (s.get_char(q) == 'e' || s.get_char(q) == 'E') {
        let r = if q + 1 < n && (s.get_char(q + 1) == '+' || s.get_char(q + 1) == '-') {
            q + 2
        } else {
            q + 1
        };
        let exponent = count_digits(s, r);
        if exponent == 0 {
            None
        } else {
            Some(r + exponent)
        }
    } else {
        Some(q)
    }
}

/// Whether `s` is the text of a number.
pub fn is_number(s: &str) -> (r: bool)
    ensures
        r == is_number_text(s@),
{
    let n = s.unicode_len();
    let start: usize = if n > 0 && (s.get_char(0) == '+' || s.get_char(0) == '-') {
        1
    } else {
        0
    };
    if spells_word(s, start, "inf") || spells_word(s, start, "infinity") || spells_word(
        s,
        start,
        "nan",
    ) {
        return true;
    }
    match scan_number(s, start) {
        Some(end) => end == n,
        None => false,
    }
}

impl Amount {
    #[verifier::type_invariant]
    closed spec fn well_formed(&self) -> bool {
        is_number_text(self.text@)
    }

    /// The amount that `text` spells, if it is the text of a number.
    pub fn parse(text: &str) -> (r: Option<Amount>)
        ensures
            match r {
                Some(a) => is_number_text(text@) && a@ == text@,
                None => !is_number_text(text@),
            },
    {
        if is_number(text) {
            Some(Amount { text: text.to_owned() })
        } else {
            None
        }
    }

    /// The text of the amount.
    pub fn as_str(&self) -> (r: &str)
        ensures
            r@ == self@,
            is_number_text(r@),
    {
        proof {
            use_type_invariant(self);
        }
        self.text.as_str()
    }

}

impl Clone for Amount {
    fn clone(&self) -> (r: Amount)
        ensures
            r@ == self@,
    {
        proof {
            use_type_invariant(self);
        }
        Amount { text: self.text.clone() }
    }
}

} // verus!
