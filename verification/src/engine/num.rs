//! Decimal rendering and parsing of the integers the grammar carries:
//! the bodies of `limit(...)` clauses and integer values in conditions.

use vstd::prelude::*;

use crate::engine::lexer::is_digit_char;

verus! {

/// The decimal digit character for `d`.
pub open spec fn spec_digit_char(d: int) -> char {
    if d == 0 {
        '0'
    } else if d == 1 {
        '1'
    } else if d == 2 {
        '2'
    } else if d == 3 {
        '3'
    } else if d == 4 {
        '4'
    } else if d == 5 {
        '5'
    } else if d == 6 {
        '6'
    } else if d == 7 {
        '7'
    } else if d == 8 {
        '8'
    } else {
        '9'
    }
}

/// The decimal digits of a non-negative integer, most significant
/// first, with no leading zeros (zero itself is the single digit `0`).
pub open spec fn spec_nat_str(n: int) -> Seq<char>
    decreases n,
    when n >= 0
{
    if n < 10 {
        seq![spec_digit_char(n)]
    } else {
        spec_nat_str(n / 10).push(spec_digit_char(n % 10))
    }
}

/// The decimal rendering of an integer: a minus sign for negative
/// values, then the digits.
pub open spec fn spec_int_str(v: int) -> Seq<char> {
    if v < 0 {
        seq!['-'] + spec_nat_str(-v)
    } else {
        spec_nat_str(v)
    }
}

/// The numeric value of a digit string, most significant digit first.
pub open spec fn spec_digits_val(s: Seq<char>) -> int
    decreases s.len(),
{
    if s.len() == 0 {
        0
    } else {
        spec_digits_val(s.drop_last()) * 10 + (s.last() as u32 - 0x30)
    }
}

/// Whether `s` is a non-empty run of ASCII digits.
pub open spec fn all_digits(s: Seq<char>) -> bool {
    s.len() > 0 && (forall|i: int| 0 <= i < s.len() ==> is_digit_char(#[trigger] s[i]))
}

/// The value of a digit string is never negative.
pub proof fn lemma_digits_val_nonneg(s: Seq<char>)
    requires
        forall|i: int| 0 <= i < s.len() ==> is_digit_char(#[trigger] s[i]),
    ensures
        spec_digits_val(s) >= 0,
    decreases s.len(),
{
    if s.len() > 0 {
        lemma_digits_val_nonneg(s.drop_last());
    }
}

/// The decimal digit character for `d`.
fn digit_char(d: u64) -> (c: char)
    requires
        d < 10,
    ensures
        c == spec_digit_char(d as int),
{
    if d == 0 {
        '0'
    } else if d == 1 {
        '1'
    } else if d == 2 {
        '2'
    } else if d == 3 {
        '3'
    } else if d == 4 {
        '4'
    } else if d == 5 {
        '5'
    } else if d == 6 {
        '6'
    } else if d == 7 {
        '7'
    } else if d == 8 {
        '8'
    } else {
        '9'
    }
}

/// Relies on String::push: appends the given character to the end of
/// the string.
#[verifier::external_body]
pub(crate) fn push_str_char(s: &mut String, c: char)
    ensures
        final(s)@ == old(s)@.push(c),
{
    s.push(c)
}

/// The decimal digits of `n`, most significant first.
pub fn u64_to_string(n: u64) -> (s: String)
    ensures
        s@ == spec_nat_str(n as int),
    decreases n,
{
    if n < 10 {
        let mut s = String::new();
        push_str_char(&mut s, digit_char(n));
        assert(s@ =~= seq![spec_digit_char(n as int)]);
        s
    } else {
        let mut s = u64_to_string(n / 10);
        push_str_char(&mut s, digit_char(n % 10));
        s
    }
}

/// The decimal rendering of `v`, as `i64::to_string` produces it.
pub fn i64_to_string(v: i64) -> (s: String)
    ensures
        s@ == spec_int_str(v as int),
{
    if v < 0 {
        let magnitude: u64 = (-(v as i128)) as u64;
        let mut s = String::from_str("-");
        let digits = u64_to_string(magnitude);
        s.append(digits.as_str());
        proof {
            reveal_strlit("-");
        }
        assert(s@ =~= seq!['-'] + spec_nat_str(magnitude as int));
        s
    } else {
        u64_to_string(v as u64)
    }
}

/// Appending one digit multiplies the value by ten and adds the digit.
proof fn lemma_digits_val_step(s: Seq<char>, k: int)
    requires
        0 <= k < s.len(),
    ensures
        spec_digits_val(s.subrange(0, k + 1)) == spec_digits_val(s.subrange(0, k)) * 10 + (
        s[k] as u32 - 0x30),
{
    let t = s.subrange(0, k + 1);
    assert(t.drop_last() =~= s.subrange(0, k));
    assert(t.last() == s[k]);
}

/// The numeric value of the digit run `s`, when `s` is all digits and
/// the value fits in `i64`; `None` otherwise.
pub fn digits_to_i64(s: &Vec<char>) -> (r: Option<i64>)
    ensures
        match r {
            Some(v) => all_digits(s@) && v as int == spec_digits_val(s@),
            None => !(all_digits(s@) && spec_digits_val(s@) <= i64::MAX),
        },
{
    if s.len() == 0 {
        return None;
    }
    let mut acc: u64 = 0;
    let mut i: usize = 0;
    while i < s.len()
        invariant
            0 < s@.len(),
            0 <= i <= s@.len(),
            acc as int == spec_digits_val(s@.subrange(0, i as int)),
            acc <= i64::MAX,
            forall|k: int| 0 <= k < i ==> is_digit_char(#[trigger] s@[k]),
        decreases s@.len() - i,
    {
        let c = s[i];
        let u = c as u32;
        if !(0x30 <= u && u <= 0x39) {
            return None;
        }
        let d = (u - 0x30) as u64;
        proof {
            lemma_digits_val_step(s@, i as int);
        }
        if acc > 922_337_203_685_477_580u64 || (acc == 922_337_203_685_477_580u64 && d > 7) {
            // the value has outgrown i64: every further digit keeps it too large
            proof {
                if all_digits(s@) {
                    lemma_digits_prefix_bound(s@, i as int + 1);
                }
            }
            return None;
        }
        acc = acc * 10 + d;
        i = i + 1;
    }
    proof {
        assert(s@.subrange(0, s@.len() as int) =~= s@);
    }
    Some(acc as i64)
}

/// A digit string is worth at least its prefix value times the right
/// power of ten; in particular, once a prefix exceeds `i64::MAX`, the
/// whole string does.
proof fn lemma_digits_prefix_bound(s: Seq<char>, k: int)
    requires
        0 <= k <= s.len(),
        spec_digits_val(s.subrange(0, k)) >= 0,
        forall|i: int| k <= i < s.len() ==> is_digit_char(#[trigger] s[i]),
    ensures
        spec_digits_val(s) >= spec_digits_val(s.subrange(0, k)),
    decreases s.len() - k,
{
    if k < s.len() {
        lemma_digits_val_step(s, k);
        assert(is_digit_char(s[k]));
        assert(spec_digits_val(s.subrange(0, k + 1)) >= spec_digits_val(s.subrange(0, k)));
        lemma_digits_prefix_bound(s, k + 1);
    } else {
        assert(s.subrange(0, k) =~= s);
    }
}

} // verus!
