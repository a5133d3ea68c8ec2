//! The string-splitting parser: an earlier, simpler front end that
//! splits the expression on dots, takes the first part as the table,
//! and reads each further part as `method(condition)`. Unlike the
//! token pipeline it rejects a duplicated method with a typed error.

use vstd::prelude::*;

use crate::engine::lexer::{is_ws_char, is_whitespace_char, str_to_chars};
use crate::engine::num::{all_digits, digits_to_i64, i64_to_string, push_str_char, spec_digits_val, spec_int_str};
use crate::engine::querygen::{Query, QueryV, spec_query_empty};

verus! {

/// A typed failure of the string-splitting parser.
#[derive(Debug, PartialEq)]
pub enum ParseError {
    InvalidSObject,
    InvalidOption,
    InvalidLimitOption(String),
    Empty,
    DuplicatedMethod(String),
}

/// The specification-level image of a [`ParseError`].
pub ghost enum LegacyErrV {
    InvalidSObject,
    InvalidOption,
    InvalidLimitOption(Seq<char>),
    Empty,
    DuplicatedMethod(Seq<char>),
}

impl View for ParseError {
    type V = LegacyErrV;

    open spec fn view(&self) -> LegacyErrV {
        match self {
            ParseError::InvalidSObject => LegacyErrV::InvalidSObject,
            ParseError::InvalidOption => LegacyErrV::InvalidOption,
            ParseError::InvalidLimitOption(s) => LegacyErrV::InvalidLimitOption(s@),
            ParseError::Empty => LegacyErrV::Empty,
            ParseError::DuplicatedMethod(s) => LegacyErrV::DuplicatedMethod(s@),
        }
    }
}

impl ParseError {
    /// A human-readable description of the error.
    pub fn describe(&self) -> (r: String)
        ensures
            r@ == match self@ {
                LegacyErrV::InvalidSObject => "ParseError: invalid sobject"@,
                LegacyErrV::InvalidOption => "ParseError: invalid option"@,
                LegacyErrV::InvalidLimitOption(s) => "ParseError: limit option need to integer: "@
                    + s,
                LegacyErrV::Empty => "ParseError: empty option"@,
                LegacyErrV::DuplicatedMethod(s) => "ParseError: method `"@ + s
                    + "` is duplicated"@,
            },
    {
        match self {
            ParseError::InvalidSObject => String::from_str("ParseError: invalid sobject"),
            ParseError::InvalidOption => String::from_str("ParseError: invalid option"),
            ParseError::InvalidLimitOption(s) => {
                let mut r = String::from_str("ParseError: limit option need to integer: ");
                r.append(s.as_str());
                r
            },
            ParseError::Empty => String::from_str("ParseError: empty option"),
            ParseError::DuplicatedMethod(s) => {
                let mut r = String::from_str("ParseError: method `");
                r.append(s.as_str());
                r.append("` is duplicated");
                r
            },
        }
    }
}

/// One of the six methods this parser understands; used to notice a
/// duplicated method in one expression. `groupby` writes the same
/// accumulator slot as `select` but counts as its own method.
#[derive(Debug, Clone, Copy, PartialEq, Eq, Hash, Structural)]
pub enum MethodCondition {
    Select,
    Group,
    Where,
    Order,
    Limit,
    Open,
}

/// The position of the first occurrence of `c` at or after `i`, or the
/// length of `s` when there is none.
pub open spec fn find_char(s: Seq<char>, c: char, i: int) -> int
    decreases s.len() - i,
    when 0 <= i <= s.len()
{
    if i < s.len() {
        if s[i] == c {
            i
        } else {
            find_char(s, c, i + 1)
        }
    } else {
        i
    }
}

/// `find_char` stays within `[i, s.len()]`, and there is no earlier
/// occurrence.
pub proof fn lemma_find_char_bounds(s: Seq<char>, c: char, i: int)
    requires
        0 <= i <= s.len(),
    ensures
        i <= find_char(s, c, i) <= s.len(),
        find_char(s, c, i) < s.len() ==> s[find_char(s, c, i)] == c,
        forall|k: int| i <= k < find_char(s, c, i) ==> s[k] != c,
    decreases s.len() - i,
{
    if i < s.len() && s[i] != c {
        lemma_find_char_bounds(s, c, i + 1);
    }
}

/// The end of the leading whitespace run starting at `i`.
pub open spec fn ws_run(s: Seq<char>, i: int) -> int
    decreases s.len() - i,
    when 0 <= i <= s.len()
{
    if i < s.len() && is_ws_char(s[i]) {
        ws_run(s, i + 1)
    } else {
        i
    }
}

/// The start of the trailing whitespace run ending at `j`.
pub open spec fn ws_run_back(s: Seq<char>, j: int) -> int
    decreases j,
    when 0 <= j <= s.len()
{
    if j > 0 && is_ws_char(s[j - 1]) {
        ws_run_back(s, j - 1)
    } else {
        j
    }
}

/// `s` without its leading and trailing whitespace; a string of
/// whitespace alone trims to the empty string.
pub open spec fn spec_trim(s: Seq<char>) -> Seq<char> {
    let a = ws_run(s, 0);
    let e = ws_run_back(s, s.len() as int);
    if a <= e {
        s.subrange(a, e)
    } else {
        Seq::empty()
    }
}

/// `ws_run` stays within `[i, s.len()]`.
proof fn lemma_ws_run_bounds(s: Seq<char>, i: int)
    requires
        0 <= i <= s.len(),
    ensures
        i <= ws_run(s, i) <= s.len(),
    decreases s.len() - i,
{
    if i < s.len() && is_ws_char(s[i]) {
        lemma_ws_run_bounds(s, i + 1);
    }
}

/// `ws_run_back` stays within `[0, j]`.
proof fn lemma_ws_run_back_bounds(s: Seq<char>, j: int)
    requires
        0 <= j <= s.len(),
    ensures
        0 <= ws_run_back(s, j) <= j,
    decreases j,
{
    if j > 0 && is_ws_char(s[j - 1]) {
        lemma_ws_run_back_bounds(s, j - 1);
    }
}

/// The characters of `cs` between `a` and `b`, as a string.
pub(crate) fn chars_substring(cs: &Vec<char>, a: usize, b: usize) -> (r: String)
    requires
        a <= b <= cs@.len(),
    ensures
        r@ == cs@.subrange(a as int, b as int),
{
    let mut r = String::new();
    let mut i: usize = a;
    assert(r@ =~= cs@.subrange(a as int, a as int));
    while i < b
        invariant
            a <= i <= b <= cs@.len(),
            r@ == cs@.subrange(a as int, i as int),
        decreases b - i,
    {
        push_str_char(&mut r, cs[i]);
        i = i + 1;
        assert(r@ =~= cs@.subrange(a as int, i as int));
    }
    r
}

/// `s` without its leading and trailing whitespace.
pub(crate) fn trim_str(s: &str) -> (r: String)
    ensures
        r@ == spec_trim(s@),
{
    let cs = str_to_chars(s);
    let n = cs.len();
    let mut a: usize = 0;
    while a < n && is_whitespace_char(cs[a])
        invariant
            cs@ == s@,
            n == cs@.len(),
            0 <= a <= n,
            ws_run(s@, 0) == ws_run(s@, a as int),
        decreases n - a,
    {
        a = a + 1;
    }
    let mut e: usize = n;
    while e > 0 && is_whitespace_char(cs[e - 1])
        invariant
            cs@ == s@,
            n == cs@.len(),
            0 <= e <= n,
            ws_run_back(s@, n as int) == ws_run_back(s@, e as int),
        decreases e,
    {
        e = e - 1;
    }
    if a <= e {
        chars_substring(&cs, a, e)
    } else {
        String::new()
    }
}

/// `s` split on dots, as `str::split('.')` does it: a dot at either
/// end or two dots in a row contribute empty parts, and the split pays
/// no attention to parentheses.
pub open spec fn spec_split_from(s: Seq<char>, i: int) -> Seq<Seq<char>>
    decreases s.len() - i,
    when 0 <= i <= s.len()
    via spec_split_from_decreases
{
    let j = find_char(s, '.', i);
    if j >= s.len() {
        seq![s.subrange(i, s.len() as int)]
    } else {
        seq![s.subrange(i, j)] + spec_split_from(s, j + 1)
    }
}

#[via_fn]
proof fn spec_split_from_decreases(s: Seq<char>, i: int) {
    if 0 <= i <= s.len() {
        lemma_find_char_bounds(s, '.', i);
    }
}

/// `s` split on dots.
pub open spec fn spec_split_dots(s: Seq<char>) -> Seq<Seq<char>> {
    spec_split_from(s, 0)
}

/// Split `s` on dots, materialized.
fn split_dots(s: &str) -> (r: Vec<String>)
    ensures
        r.deep_view() == spec_split_dots(s@),
        r@.len() >= 1,
{
    let cs = str_to_chars(s);
    let n = cs.len();
    let mut parts: Vec<String> = Vec::new();
    let mut i: usize = 0;
    assert(parts.deep_view() =~= Seq::<Seq<char>>::empty());
    loop
        invariant
            cs@ == s@,
            n == cs@.len(),
            0 <= i <= n,
            spec_split_dots(s@) == parts.deep_view() + spec_split_from(s@, i as int),
        decreases n - i,
    {
        let ghost pre_parts = parts.deep_view();
        let ghost pre_i = i as int;
        let mut j: usize = i;
        while j < n && cs[j] != '.'
            invariant
                cs@ == s@,
                n == cs@.len(),
                pre_i <= j <= n,
                find_char(s@, '.', pre_i) == find_char(s@, '.', j as int),
            decreases n - j,
        {
            j = j + 1;
        }
        let seg = chars_substring(&cs, i, j);
        parts.push(seg);
        proof {
            assert(parts.deep_view() =~= pre_parts.push(s@.subrange(pre_i, j as int)));
        }
        if j < n {
            i = j + 1;
            proof {
                assert(pre_parts + spec_split_from(s@, pre_i) =~= parts.deep_view()
                    + spec_split_from(s@, i as int));
            }
        } else {
            proof {
                assert(spec_split_from(s@, pre_i) =~= seq![s@.subrange(pre_i, n as int)]);
                assert(spec_split_dots(s@) =~= parts.deep_view());
            }
            return parts;
        }
    }
}

/// The depth scan of one `method(condition)` part: walk the
/// characters keeping a parenthesis depth; the first opening
/// parenthesis ends the method name, and the closing parenthesis that
/// brings the depth back to zero ends the condition.
pub open spec fn smc_scan(s: Seq<char>, i: int, depth: int, m: Option<int>) -> (
    Option<int>,
    Option<(int, int)>,
)
    decreases s.len() - i,
    when 0 <= i <= s.len()
{
    if i >= s.len() {
        (m, None)
    } else if s[i] == '(' {
        if depth + 1 == 1 {
            smc_scan(s, i + 1, depth + 1, Some(i))
        } else {
            smc_scan(s, i + 1, depth + 1, m)
        }
    } else if s[i] == ')' {
        if depth - 1 == 0 {
            (
                m,
                Some(
                    (
                        match m {
                            Some(k) => k + 1,
                            None => 1,
                        },
                        i,
                    ),
                ),
            )
        } else {
            smc_scan(s, i + 1, depth - 1, m)
        }
    } else {
        smc_scan(s, i + 1, depth, m)
    }
}

/// The method name and condition of one part: the text before the
/// first opening parenthesis, and the text inside the outermost
/// parenthesis pair, both trimmed; empty when the scan finds no
/// complete pair.
pub open spec fn spec_smc(part: Seq<char>) -> (Seq<char>, Seq<char>) {
    let (m, c) = smc_scan(part, 0, 0, None);
    let method = match m {
        Some(k) => if 0 <= k <= part.len() {
            part.subrange(0, k)
        } else {
            Seq::empty()
        },
        None => Seq::empty(),
    };
    let condition = match c {
        Some(range) => if 0 <= range.0 <= range.1 <= part.len() {
            part.subrange(range.0, range.1)
        } else {
            Seq::empty()
        },
        None => Seq::empty(),
    };
    (spec_trim(method), spec_trim(condition))
}

/// Split one part into its method name and its condition text.
pub fn split_method_condition(part: &str) -> (r: (String, String))
    ensures
        (r.0@, r.1@) == spec_smc(part@),
{
    let cs = str_to_chars(part);
    let n = cs.len();
    let mut i: usize = 0;
    let mut depth: i128 = 0;
    let mut method_end: Option<usize> = None;
    loop
        invariant
            cs@ == part@,
            n == cs@.len(),
            0 <= i <= n,
            -(i as int) <= depth <= i as int,
            match method_end {
                Some(k) => 0 <= k < i,
                None => true,
            },
            smc_scan(part@, 0, 0, None) == smc_scan(
                part@,
                i as int,
                depth as int,
                match method_end {
                    Some(k) => Some(k as int),
                    None => None,
                },
            ),
        decreases n - i,
    {
        if i >= n {
            let method = match method_end {
                Some(k) => chars_substring(&cs, 0, k),
                None => String::new(),
            };
            let t_method = trim_str(method.as_str());
            let t_condition = trim_str("");
            proof {
                reveal_strlit("");
            }
            return (t_method, t_condition);
        }
        let c = cs[i];
        if c == '(' {
            depth = depth + 1;
            if depth == 1 {
                method_end = Some(i);
            }
        } else if c == ')' {
            depth = depth - 1;
            if depth == 0 {
                let (mk, cond_a): (usize, usize) = match method_end {
                    Some(k) => (k, k + 1),
                    None => (0, 1),
                };
                let method = match method_end {
                    Some(k) => chars_substring(&cs, 0, k),
                    None => String::new(),
                };
                let condition = if cond_a <= i {
                    chars_substring(&cs, cond_a, i)
                } else {
                    String::new()
                };
                let t_method = trim_str(method.as_str());
                let t_condition = trim_str(condition.as_str());
                proof {
                    reveal_strlit("");
                }
                return (t_method, t_condition);
            }
        }
        i = i + 1;
    }
}

/// Exact equality of two strings.
fn str_eq(a: &str, b: &str) -> (r: bool)
    ensures
        r == (a@ == b@),
{
    let n = a.unicode_len();
    if n != b.unicode_len() {
        proof {
            assert(a@.len() != b@.len());
        }
        return false;
    }
    let mut i: usize = 0;
    while i < n
        invariant
            n == a@.len() == b@.len(),
            0 <= i <= n,
            forall|k: int| 0 <= k < i ==> a@[k] == b@[k],
        decreases n - i,
    {
        if a.get_char(i) != b.get_char(i) {
            return false;
        }
        i = i + 1;
    }
    proof {
        assert(a@ =~= b@);
    }
    true
}

/// The select condition, taken as it stands.
pub fn parse_select(condition: &str) -> (r: String)
    ensures
        r@ == condition@,
{
    String::from_str(condition)
}

/// The where condition, taken as it stands.
pub fn parse_where(condition: &str) -> (r: String)
    ensures
        r@ == condition@,
{
    String::from_str(condition)
}

/// The value of `s` read as `i32::from_str` reads it: an optional
/// sign, then at least one digit, and a value within `i32`.
pub open spec fn spec_parse_i32(s: Seq<char>) -> Option<int> {
    if s.len() == 0 {
        None
    } else {
        let neg = s[0] == '-';
        let rest = if s[0] == '-' || s[0] == '+' {
            s.drop_first()
        } else {
            s
        };
        if !all_digits(rest) {
            None
        } else {
            let v = spec_digits_val(rest);
            if neg {
                if v <= 0x8000_0000 {
                    Some(-v)
                } else {
                    None
                }
            } else {
                if v <= 0x7FFF_FFFF {
                    Some(v)
                } else {
                    None
                }
            }
        }
    }
}

/// The limit condition: it must be a non-empty decimal integer within
/// `i32`, and is kept as its canonical decimal text.
pub fn parse_limit(condition: &str) -> (r: Result<String, ParseError>)
    ensures
        match r {
            Ok(s) => condition@.len() > 0 && match spec_parse_i32(condition@) {
                Some(v) => s@ == spec_int_str(v),
                None => false,
            },
            Err(e) => match e@ {
                LegacyErrV::Empty => condition@.len() == 0,
                LegacyErrV::InvalidLimitOption(lit) => lit == condition@ && condition@.len() > 0
                    && spec_parse_i32(condition@) is None,
                _ => false,
            },
        },
{
    if condition.is_empty() {
        return Err(ParseError::Empty);
    }
    let cs = str_to_chars(condition);
    let first = cs[0];
    let neg = first == '-';
    let start: usize = if first == '-' || first == '+' {
        1
    } else {
        0
    };
    let mut rest: Vec<char> = Vec::new();
    let mut i: usize = start;
    assert(rest@ =~= cs@.subrange(start as int, start as int));
    while i < cs.len()
        invariant
            start <= i <= cs@.len(),
            rest@ == cs@.subrange(start as int, i as int),
        decreases cs@.len() - i,
    {
        rest.push(cs[i]);
        i = i + 1;
        assert(rest@ =~= cs@.subrange(start as int, i as int));
    }
    proof {
        if start == 0 {
            assert(rest@ =~= condition@);
        } else {
            assert(rest@ =~= condition@.drop_first());
        }
    }
    match digits_to_i64(&rest) {
        Some(v) => {
            proof {
                crate::engine::num::lemma_digits_val_nonneg(rest@);
            }
            if neg {
                if v <= 0x8000_0000i64 {
                    Ok(i64_to_string(-v))
                } else {
                    Err(ParseError::InvalidLimitOption(String::from_str(condition)))
                }
            } else {
                if v <= 0x7FFF_FFFFi64 {
                    Ok(i64_to_string(v))
                } else {
                    Err(ParseError::InvalidLimitOption(String::from_str(condition)))
                }
            }
        },
        None => Err(ParseError::InvalidLimitOption(String::from_str(condition))),
    }
}

/// One round of the method loop: the update of the accumulator and the
/// set of methods already seen by the part at `i`, and the rounds
/// after it. A duplicated method is noticed only after its effect has
/// been applied; the error then discards the whole accumulator.
pub open spec fn spec_legacy_loop(
    parts: Seq<Seq<char>>,
    i: int,
    q: QueryV,
    used: Set<MethodCondition>,
) -> Result<QueryV, LegacyErrV>
    decreases parts.len() - i,
    when 0 <= i <= parts.len()
{
    if i >= parts.len() {
        Ok(q)
    } else {
        let smc = spec_smc(spec_trim(parts[i]));
        let method = smc.0;
        let condition = smc.1;
        if method == "select"@ {
            let q2 = QueryV { select: Some(condition), ..q };
            if used.contains(MethodCondition::Select) {
                Err(LegacyErrV::DuplicatedMethod(method))
            } else {
                spec_legacy_loop(parts, i + 1, q2, used.insert(MethodCondition::Select))
            }
        } else if method == "groupby"@ {
            let q2 = QueryV { select: Some(condition), ..q };
            if used.contains(MethodCondition::Group) {
                Err(LegacyErrV::DuplicatedMethod(method))
            } else {
                spec_legacy_loop(parts, i + 1, q2, used.insert(MethodCondition::Group))
            }
        } else if method == "where"@ {
            let q2 = QueryV { where_clause: Some(condition), ..q };
            if used.contains(MethodCondition::Where) {
                Err(LegacyErrV::DuplicatedMethod(method))
            } else {
                spec_legacy_loop(parts, i + 1, q2, used.insert(MethodCondition::Where))
            }
        } else if method == "orderby"@ {
            let q2 = QueryV { orderby: Some(condition), ..q };
            if used.contains(MethodCondition::Order) {
                Err(LegacyErrV::DuplicatedMethod(method))
            } else {
                spec_legacy_loop(parts, i + 1, q2, used.insert(MethodCondition::Order))
            }
        } else if method == "limit"@ {
            if condition.len() == 0 {
                Err(LegacyErrV::Empty)
            } else {
                match spec_parse_i32(condition) {
                    Some(v) => {
                        let q2 = QueryV { limit: Some(spec_int_str(v)), ..q };
                        if used.contains(MethodCondition::Limit) {
                            Err(LegacyErrV::DuplicatedMethod(method))
                        } else {
                            spec_legacy_loop(parts, i + 1, q2, used.insert(MethodCondition::Limit))
                        }
                    },
                    None => Err(LegacyErrV::InvalidLimitOption(condition)),
                }
            }
        } else if method == "open"@ {
            let q2 = QueryV { open_browser: true, ..q };
            if used.contains(MethodCondition::Open) {
                Err(LegacyErrV::DuplicatedMethod(method))
            } else {
                spec_legacy_loop(parts, i + 1, q2, used.insert(MethodCondition::Open))
            }
        } else {
            Err(LegacyErrV::InvalidOption)
        }
    }
}

/// The whole string-splitting parse: the first dot-separated part is
/// the table (it may not contain an opening parenthesis), and each
/// further part is one of the methods `select`, `groupby`, `where`,
/// `orderby`, `limit`, `open` applied to the accumulator.
pub open spec fn spec_parse_query(s: Seq<char>) -> Result<QueryV, LegacyErrV> {
    let parts = spec_split_dots(s);
    if find_char(parts[0], '(', 0) < parts[0].len() {
        Err(LegacyErrV::InvalidSObject)
    } else {
        spec_legacy_loop(
            parts,
            1,
            QueryV { from: parts[0], ..spec_query_empty() },
            Set::empty(),
        )
    }
}

/// Whether `s` holds an opening parenthesis.
fn contains_lparen(s: &str) -> (r: bool)
    ensures
        r == (find_char(s@, '(', 0) < s@.len()),
{
    let cs = str_to_chars(s);
    let n = cs.len();
    let mut i: usize = 0;
    while i < n
        invariant
            cs@ == s@,
            n == cs@.len(),
            0 <= i <= n,
            find_char(s@, '(', 0) == find_char(s@, '(', i as int),
        decreases n - i,
    {
        if cs[i] == '(' {
            return true;
        }
        i = i + 1;
    }
    false
}

/// Parse a fluent expression by splitting on dots, filling the query
/// accumulator part by part; a duplicated method, an unknown method, a
/// parenthesis in the table part, or a bad limit is a typed error.
pub fn parse(expr: &str) -> (r: Result<Query, ParseError>)
    ensures
        match r {
            Ok(q) => spec_parse_query(expr@) == Ok::<_, LegacyErrV>(q@),
            Err(e) => spec_parse_query(expr@) == Err::<QueryV, _>(e@),
        },
{
    let mut query = Query::default();
    let mut used_select = false;
    let mut used_group = false;
    let mut used_where = false;
    let mut used_order = false;
    let mut used_limit = false;
    let mut used_open = false;
    let ghost mut used: Set<MethodCondition> = Set::empty();

    let parts = split_dots(expr);
    if contains_lparen(parts[0].as_str()) {
        return Err(ParseError::InvalidSObject);
    }
    query.from = parts[0].clone();

    let mut i: usize = 1;
    while i < parts.len()
        invariant
            1 <= i <= parts@.len(),
            parts.deep_view() == spec_split_dots(expr@),
            used_select == used.contains(MethodCondition::Select),
            used_group == used.contains(MethodCondition::Group),
            used_where == used.contains(MethodCondition::Where),
            used_order == used.contains(MethodCondition::Order),
            used_limit == used.contains(MethodCondition::Limit),
            used_open == used.contains(MethodCondition::Open),
            spec_parse_query(expr@) == spec_legacy_loop(
                parts.deep_view(),
                i as int,
                query@,
                used,
            ),
        decreases parts@.len() - i,
    {
        let part = trim_str(parts[i].as_str());
        let smc = split_method_condition(part.as_str());
        let method = smc.0;
        let condition = smc.1;

        if str_eq(method.as_str(), "select") {
            query.select = Some(parse_select(condition.as_str()));
            if used_select {
                return Err(ParseError::DuplicatedMethod(method));
            }
            used_select = true;
            proof {
                used = used.insert(MethodCondition::Select);
            }
        } else if str_eq(method.as_str(), "groupby") {
            // groupby renders its fields into the same slot as select
            query.select = Some(parse_select(condition.as_str()));
            if used_group {
                return Err(ParseError::DuplicatedMethod(method));
            }
            used_group = true;
            proof {
                used = used.insert(MethodCondition::Group);
            }
        } else if str_eq(method.as_str(), "where") {
            query.where_clause = Some(parse_where(condition.as_str()));
            if used_where {
                return Err(ParseError::DuplicatedMethod(method));
            }
            used_where = true;
            proof {
                used = used.insert(MethodCondition::Where);
            }
        } else if str_eq(method.as_str(), "orderby") {
            query.orderby = Some(condition);
            if used_order {
                return Err(ParseError::DuplicatedMethod(method));
            }
            used_order = true;
            proof {
                used = used.insert(MethodCondition::Order);
            }
        } else if str_eq(method.as_str(), "limit") {
            match parse_limit(condition.as_str()) {
                Ok(limit) => {
                    query.limit = Some(limit);
                },
                Err(e) => {
                    return Err(e);
                },
            }
            if used_limit {
                return Err(ParseError::DuplicatedMethod(method));
            }
            used_limit = true;
            proof {
                used = used.insert(MethodCondition::Limit);
            }
        } else if str_eq(method.as_str(), "open") {
            query.open_browser = true;
            if used_open {
                return Err(ParseError::DuplicatedMethod(method));
            }
            used_open = true;
            proof {
                used = used.insert(MethodCondition::Open);
            }
        } else {
            return Err(ParseError::InvalidOption);
        }
        i = i + 1;
    }

    Ok(query)
}

} // verus!
