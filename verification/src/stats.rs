//! Parsing of the external store's statistics text.
//!
//! The store reports its statistics as lines of the shape `name:value`.
//! `parse_info_field` finds the first line carrying a given name prefix and
//! reads its decimal value: the characters after the prefix up to the next
//! separator.  A missing line, a non-numeric value or one beyond the 64-bit
//! range reads as nothing.

use vstd::prelude::*;
use vstd::string::StrSliceExecFns;
use crate::strutil::{starts_with_seq, str_starts_with};

verus! {

/// Number of characters before the first line break, or all of them.
pub open spec fn line_len(s: Seq<char>) -> nat
    decreases s.len(),
{
    if s.len() == 0 {
        0
    } else if s[0] == '\n' {
        0
    } else {
        1 + line_len(s.drop_first())
    }
}

/// `line_len` points at the first line break: nothing before it is one, and
/// the character there, if any, is one.
proof fn lemma_line_len_char(s: Seq<char>)
    ensures
        line_len(s) <= s.len(),
        forall|j: int| 0 <= j < line_len(s) ==> s[j] != '\n',
        line_len(s) < s.len() ==> s[line_len(s) as int] == '\n',
    decreases s.len(),
{
    if s.len() > 0 && s[0] != '\n' {
        lemma_line_len_char(s.drop_first());
        assert(forall|j: int| 1 <= j < line_len(s) ==> s.drop_first()[j - 1] == s[j]);
    }
}

/// Any cut with the same character pattern is `line_len`.
proof fn lemma_line_len_unique(s: Seq<char>, k: int)
    requires
        0 <= k <= s.len(),
        forall|j: int| 0 <= j < k ==> s[j] != '\n',
        k < s.len() ==> s[k] == '\n',
    ensures
        k == line_len(s),
{
    lemma_line_len_char(s);
}

/// Number of characters before the first value separator (`:` or carriage
/// return), or all of them.
pub open spec fn value_len(s: Seq<char>) -> nat
    decreases s.len(),
{
    if s.len() == 0 {
        0
    } else if s[0] == ':' || s[0] == '\r' {
        0
    } else {
        1 + value_len(s.drop_first())
    }
}

/// `value_len` points at the first separator.
proof fn lemma_value_len_char(s: Seq<char>)
    ensures
        value_len(s) <= s.len(),
        forall|j: int| 0 <= j < value_len(s) ==> s[j] != ':' && s[j] != '\r',
        value_len(s) < s.len() ==> (s[value_len(s) as int] == ':' || s[value_len(s) as int]
            == '\r'),
    decreases s.len(),
{
    if s.len() > 0 && !(s[0] == ':' || s[0] == '\r') {
        lemma_value_len_char(s.drop_first());
        assert(forall|j: int| 1 <= j < value_len(s) ==> s.drop_first()[j - 1] == s[j]);
    }
}

/// Any cut with the same character pattern is `value_len`.
proof fn lemma_value_len_unique(s: Seq<char>, k: int)
    requires
        0 <= k <= s.len(),
        forall|j: int| 0 <= j < k ==> s[j] != ':' && s[j] != '\r',
        k < s.len() ==> (s[k] == ':' || s[k] == '\r'),
    ensures
        k == value_len(s),
{
    lemma_value_len_char(s);
}

/// The character is a decimal digit.
pub open spec fn is_digit(c: char) -> bool {
    '0' <= c && c <= '9'
}

/// Value of one decimal digit.
pub open spec fn digit_val(c: char) -> int {
    c as int - '0' as int
}

/// A non-empty sequence of decimal digits.
pub open spec fn is_digit_seq(s: Seq<char>) -> bool {
    s.len() > 0 && forall|i: int| 0 <= i < s.len() ==> is_digit(#[trigger] s[i])
}

/// Value of a decimal digit sequence, most significant digit first.
pub open spec fn dec_value(s: Seq<char>) -> int
    decreases s.len(),
{
    if s.len() == 0 {
        0
    } else {
        dec_value(s.drop_last()) * 10 + digit_val(s.last())
    }
}

/// The value of a digit sequence is never negative.
proof fn lemma_dec_value_nonneg(s: Seq<char>)
    requires
        forall|i: int| 0 <= i < s.len() ==> is_digit(#[trigger] s[i]),
    ensures
        dec_value(s) >= 0,
    decreases s.len(),
{
    if s.len() > 0 {
        lemma_dec_value_nonneg(s.drop_last());
    }
}

/// Reading more digits never shrinks the value: every prefix reads at most
/// the whole.
proof fn lemma_dec_value_prefix_le(s: Seq<char>, i: int)
    requires
        forall|j: int| 0 <= j < s.len() ==> is_digit(#[trigger] s[j]),
        0 <= i <= s.len(),
    ensures
        dec_value(s.take(i)) <= dec_value(s),
    decreases s.len(),
{
    if i == s.len() {
        assert(s.take(i) =~= s);
    } else {
        let dl = s.drop_last();
        assert(dl.take(i) =~= s.take(i));
        lemma_dec_value_prefix_le(dl, i);
        lemma_dec_value_nonneg(dl);
    }
}

/// Read a decimal 64-bit value from the whole of `s`.
pub fn parse_u64(s: &str) -> (r: Option<u64>)
    ensures
        (match r {
            Some(v) => is_digit_seq(s@) && v == dec_value(s@),
            None => !is_digit_seq(s@) || dec_value(s@) > u64::MAX,
        }),
{
    let n = s.unicode_len();
    if n == 0 {
        return None;
    }
    let mut acc: u64 = 0;
    let mut i: usize = 0;
    while i < n
        invariant
            n == s@.len(),
            0 < n,
            i <= n,
            forall|j: int| 0 <= j < i ==> is_digit(#[trigger] s@[j]),
            acc == dec_value(s@.take(i as int)),
        decreases n - i,
    {
        let c = s.get_char(i);
        if c < '0' || c > '9' {
            assert(!is_digit(s@[i as int]));
            return None;
        }
        let d: u32 = (c as u32) - ('0' as u32);
        proof {
            assert(s@.take(i + 1).drop_last() =~= s@.take(i as int));
            assert(s@.take(i + 1).last() == s@[i as int]);
            assert(d == digit_val(s@[i as int]));
        }
        let wide: u128 = (acc as u128) * 10 + (d as u128);
        if wide > u64::MAX as u128 {
            proof {
                assert(dec_value(s@.take(i + 1)) == wide);
                if is_digit_seq(s@) {
                    lemma_dec_value_prefix_le(s@, i + 1);
                }
            }
            return None;
        }
        acc = wide as u64;
        i = i + 1;
    }
    proof {
        assert(s@.take(n as int) =~= s@);
    }
    Some(acc)
}

/// The decimal value at the head of a line's remainder: the characters up
/// to the first separator, read as a 64-bit decimal number.
pub open spec fn line_value_spec(rest: Seq<char>) -> Option<int> {
    let seg = rest.take(value_len(rest) as int);
    if is_digit_seq(seg) && dec_value(seg) <= u64::MAX as int {
        Some(dec_value(seg))
    } else {
        None
    }
}

/// Value of the first line of `s` that starts with `prefix`: the decimal
/// number after the prefix, up to the line's first separator.  Nothing when
/// no line matches or the first matching line carries no such number.
pub open spec fn info_field_spec(s: Seq<char>, prefix: Seq<char>) -> Option<int>
    decreases s.len(),
{
    let ll = line_len(s);
    let line = s.take(ll as int);
    if starts_with_seq(line, prefix) {
        line_value_spec(line.skip(prefix.len() as int))
    } else if ll >= s.len() {
        None
    } else {
        info_field_spec(s.skip(ll as int + 1), prefix)
    }
}

/// Number of characters of `s` before its first line break.
fn line_length(s: &str) -> (r: usize)
    ensures
        r == line_len(s@),
{
    let n = s.unicode_len();
    let mut i: usize = 0;
    while i < n && s.get_char(i) != '\n'
        invariant
            n == s@.len(),
            i <= n,
            forall|j: int| 0 <= j < i ==> s@[j] != '\n',
        decreases n - i,
    {
        i = i + 1;
    }
    proof {
        lemma_line_len_unique(s@, i as int);
    }
    i
}

/// Number of characters of `s` before its first value separator.
fn value_length(s: &str) -> (r: usize)
    ensures
        r == value_len(s@),
{
    let n = s.unicode_len();
    let mut i: usize = 0;
    while i < n && s.get_char(i) != ':' && s.get_char(i) != '\r'
        invariant
            n == s@.len(),
            i <= n,
            forall|j: int| 0 <= j < i ==> s@[j] != ':' && s@[j] != '\r',
        decreases n - i,
    {
        i = i + 1;
    }
    proof {
        lemma_value_len_unique(s@, i as int);
    }
    i
}

/// Read the decimal value at the head of a line's remainder.
fn parse_line_value(rest: &str) -> (r: Option<u64>)
    ensures
        (match r {
            Some(v) => line_value_spec(rest@) == Some(v as int),
            None => line_value_spec(rest@) is None,
        }),
{
    let vl = value_length(rest);
    proof {
        lemma_value_len_char(rest@);
    }
    let seg = rest.substring_char(0, vl);
    parse_u64(seg)
}

/// Find the first line of the statistics text that starts with `prefix`
/// and read its decimal value.
pub fn parse_info_field(info: &str, prefix: &str) -> (r: Option<u64>)
    ensures
        (match r {
            Some(v) => info_field_spec(info@, prefix@) == Some(v as int),
            None => info_field_spec(info@, prefix@) is None,
        }),
    decreases info@.len(),
{
    let n = info.unicode_len();
    let ll = line_length(info);
    proof {
        lemma_line_len_char(info@);
    }
    let line = info.substring_char(0, ll);
    if str_starts_with(line, prefix) {
        let pl = prefix.unicode_len();
        let rest = line.substring_char(pl, ll);
        proof {
            assert(rest@ =~= line@.skip(pl as int));
        }
        parse_line_value(rest)
    } else if ll >= n {
        None
    } else {
        let tail = info.substring_char(ll + 1, n);
        proof {
            assert(tail@ =~= info@.skip(ll + 1));
        }
        parse_info_field(tail, prefix)
    }
}

} // verus!
