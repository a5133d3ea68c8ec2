//! The tokenizer: one line of input text to an ordered token sequence
//! terminated by an end-of-input token.
//!
//! The function [`spec_lex`] is the specification of the whole scan;
//! [`tokenize`] is proved to return exactly its result. Whitespace is
//! skipped; two-character operators take one character of lookahead; a
//! quoted literal runs to the next quote (or to the end of input when
//! unterminated); digit and identifier runs are maximal; identifiers are
//! classified against a fixed, case-insensitive keyword table. A method
//! keyword must be preceded by a dot token, which is removed from the
//! sequence; otherwise the scan stops with a typed [`LexError`].

use vstd::prelude::*;

use crate::engine::token::{Token, TokenKind, TokenV, is_query_kind};

verus! {

/// A lexical sequencing violation: a method keyword appeared without a
/// dot immediately before it. The payload is the keyword's literal text.
#[derive(Debug, PartialEq)]
pub enum LexError {
    MethodWithoutDot(String),
}

/// The specification-level image of a [`LexError`].
pub ghost enum LexErrV {
    MethodWithoutDot(Seq<char>),
}

impl View for LexError {
    type V = LexErrV;

    open spec fn view(&self) -> LexErrV {
        match self {
            LexError::MethodWithoutDot(lit) => LexErrV::MethodWithoutDot(lit@),
        }
    }
}

impl LexError {
    /// A human-readable description of the violation.
    pub fn describe(&self) -> (r: String)
        ensures
            r@ == "Syntax error: the word before the query method must be a dot"@,
    {
        String::from_str("Syntax error: the word before the query method must be a dot")
    }
}

/// Whether `c` has the Unicode `White_Space` property.
pub open spec fn is_ws_char(c: char) -> bool {
    ||| c as u32 == 0x09
    ||| c as u32 == 0x0A
    ||| c as u32 == 0x0B
    ||| c as u32 == 0x0C
    ||| c as u32 == 0x0D
    ||| c as u32 == 0x20
    ||| c as u32 == 0x85
    ||| c as u32 == 0xA0
    ||| c as u32 == 0x1680
    ||| (0x2000 <= c as u32 && c as u32 <= 0x200A)
    ||| c as u32 == 0x2028
    ||| c as u32 == 0x2029
    ||| c as u32 == 0x202F
    ||| c as u32 == 0x205F
    ||| c as u32 == 0x3000
}

/// Whether `c` is an ASCII decimal digit.
pub open spec fn is_digit_char(c: char) -> bool {
    0x30 <= c as u32 && c as u32 <= 0x39
}

/// Whether a character beyond ASCII has the Unicode `Alphabetic`
/// property; the name stands for what `char::is_alphabetic` returns
/// there, which depends on the character alone.
pub uninterp spec fn unicode_alpha(c: char) -> bool;

/// Whether `c` is alphabetic: an ASCII letter, or a non-ASCII character
/// with the Unicode `Alphabetic` property.
pub open spec fn is_alpha_char(c: char) -> bool {
    ||| (0x41 <= c as u32 && c as u32 <= 0x5A)
    ||| (0x61 <= c as u32 && c as u32 <= 0x7A)
    ||| (c as u32 > 0x7F && unicode_alpha(c))
}

/// Whether `c` may start an identifier: alphabetic or an underscore.
pub open spec fn is_literal_char(c: char) -> bool {
    is_alpha_char(c) || c == '_'
}

/// Relies on char::is_alphabetic: ASCII letters are exactly the ASCII
/// alphabetic characters, and beyond ASCII the result is a function of
/// the character alone, named `unicode_alpha`.
#[verifier::external_body]
fn alpha_char(c: char) -> (r: bool)
    ensures
        r == is_alpha_char(c),
        c as u32 > 0x7F ==> r == unicode_alpha(c),
{
    c.is_alphabetic()
}

/// Relies on String::push: appends the given character to the end of
/// the string.
#[verifier::external_body]
fn push_char(s: &mut String, c: char)
    ensures
        final(s)@ == old(s)@.push(c),
{
    s.push(c)
}

/// Whether `c` has the Unicode `White_Space` property.
pub(crate) fn is_whitespace_char(c: char) -> (r: bool)
    ensures
        r == is_ws_char(c),
{
    let u = c as u32;
    u == 0x09 || u == 0x0A || u == 0x0B || u == 0x0C || u == 0x0D || u == 0x20 || u == 0x85
        || u == 0xA0 || u == 0x1680 || (0x2000 <= u && u <= 0x200A) || u == 0x2028 || u == 0x2029
        || u == 0x202F || u == 0x205F || u == 0x3000
}

/// Whether `c` is an ASCII decimal digit.
fn is_digit(c: char) -> (r: bool)
    ensures
        r == is_digit_char(c),
{
    let u = c as u32;
    0x30 <= u && u <= 0x39
}

/// Whether `c` may start or continue an identifier (underscores count,
/// digits are accepted only in continuation and are tested separately).
pub fn is_literal(c: char) -> (r: bool)
    ensures
        r == is_literal_char(c),
{
    alpha_char(c) || c == '_'
}

/// A one-character string.
fn char_to_string(c: char) -> (s: String)
    ensures
        s@ == seq![c],
{
    let mut s = String::new();
    push_char(&mut s, c);
    assert(s@ =~= seq![c]);
    s
}

/// The characters of `s`, materialized.
pub(crate) fn str_to_chars(s: &str) -> (v: Vec<char>)
    ensures
        v@ == s@,
{
    let n = s.unicode_len();
    let mut v: Vec<char> = Vec::new();
    let mut i: usize = 0;
    while i < n
        invariant
            n == s@.len(),
            i <= n,
            v@ == s@.subrange(0, i as int),
        decreases n - i,
    {
        v.push(s.get_char(i));
        i = i + 1;
        assert(v@ =~= s@.subrange(0, i as int));
    }
    assert(v@ =~= s@);
    v
}

/// The end of the maximal run of ASCII digits starting at `i`.
pub open spec fn digits_end(s: Seq<char>, i: int) -> int
    decreases s.len() - i,
    when 0 <= i <= s.len()
{
    if i < s.len() && is_digit_char(s[i]) {
        digits_end(s, i + 1)
    } else {
        i
    }
}

/// The end of the maximal run of identifier characters or digits
/// starting at `i`.
pub open spec fn literal_end(s: Seq<char>, i: int) -> int
    decreases s.len() - i,
    when 0 <= i <= s.len()
{
    if i < s.len() && (is_literal_char(s[i]) || is_digit_char(s[i])) {
        literal_end(s, i + 1)
    } else {
        i
    }
}

/// The position of the first quote character at or after `i`, or the
/// length of `s` when there is none.
pub open spec fn quote_end(s: Seq<char>, i: int) -> int
    decreases s.len() - i,
    when 0 <= i <= s.len()
{
    if i < s.len() {
        if s[i] == '\'' {
            i
        } else {
            quote_end(s, i + 1)
        }
    } else {
        i
    }
}

/// `digits_end` stays within `[i, s.len()]`.
pub proof fn lemma_digits_end_bounds(s: Seq<char>, i: int)
    requires
        0 <= i <= s.len(),
    ensures
        i <= digits_end(s, i) <= s.len(),
    decreases s.len() - i,
{
    if i < s.len() && is_digit_char(s[i]) {
        lemma_digits_end_bounds(s, i + 1);
    }
}

/// `literal_end` stays within `[i, s.len()]`.
pub proof fn lemma_literal_end_bounds(s: Seq<char>, i: int)
    requires
        0 <= i <= s.len(),
    ensures
        i <= literal_end(s, i) <= s.len(),
    decreases s.len() - i,
{
    if i < s.len() && (is_literal_char(s[i]) || is_digit_char(s[i])) {
        lemma_literal_end_bounds(s, i + 1);
    }
}

/// `quote_end` stays within `[i, s.len()]`.
pub proof fn lemma_quote_end_bounds(s: Seq<char>, i: int)
    requires
        0 <= i <= s.len(),
    ensures
        i <= quote_end(s, i) <= s.len(),
    decreases s.len() - i,
{
    if i < s.len() && s[i] != '\'' {
        lemma_quote_end_bounds(s, i + 1);
    }
}

/// Case-insensitive match of one character against a lowercase keyword
/// character: equal as they stand, or equal after lowering an ASCII
/// capital.
pub open spec fn eq_lower_char(c: char, k: char) -> bool {
    ||| c == k
    ||| (0x41 <= c as u32 && c as u32 <= 0x5A && c as u32 + 0x20 == k as u32)
}

/// Case-insensitive equality of `s` against the lowercase keyword `kw`.
pub open spec fn match_kw(s: Seq<char>, kw: Seq<char>) -> bool {
    s.len() == kw.len() && (forall|i: int| 0 <= i < s.len() ==> eq_lower_char(s[i], #[trigger] kw[i]))
}

/// Case-insensitive equality of `s` against the lowercase keyword `kw`.
fn match_keyword(s: &String, kw: &str) -> (r: bool)
    ensures
        r == match_kw(s@, kw@),
{
    let n = s.as_str().unicode_len();
    if n != kw.unicode_len() {
        return false;
    }
    let mut i: usize = 0;
    while i < n
        invariant
            n == s@.len() == kw@.len(),
            i <= n,
            forall|j: int| 0 <= j < i ==> eq_lower_char(s@[j], #[trigger] kw@[j]),
        decreases n - i,
    {
        let c = s.as_str().get_char(i);
        let k = kw.get_char(i);
        let cu = c as u32;
        if !(c == k || (0x41 <= cu && cu <= 0x5A && cu + 0x20 == k as u32)) {
            return false;
        }
        i = i + 1;
    }
    true
}

/// The kind an identifier-shaped literal is classified as: one of the
/// fixed keywords, case-insensitively, or a plain identifier.
pub open spec fn keyword_kind(lit: Seq<char>) -> TokenKind {
    if match_kw(lit, "select"@) {
        TokenKind::Select
    } else if match_kw(lit, "where"@) {
        TokenKind::Where
    } else if match_kw(lit, "orderby"@) {
        TokenKind::Orderby
    } else if match_kw(lit, "groupby"@) {
        TokenKind::Groupby
    } else if match_kw(lit, "limit"@) {
        TokenKind::Limit
    } else if match_kw(lit, "open"@) {
        TokenKind::Open
    } else if match_kw(lit, "and"@) {
        TokenKind::And
    } else if match_kw(lit, "or"@) {
        TokenKind::Or
    } else if match_kw(lit, "like"@) {
        TokenKind::Like
    } else if match_kw(lit, "asc"@) {
        TokenKind::Asc
    } else if match_kw(lit, "desc"@) {
        TokenKind::Desc
    } else if match_kw(lit, "true"@) {
        TokenKind::True
    } else if match_kw(lit, "false"@) {
        TokenKind::False
    } else if match_kw(lit, "null"@) {
        TokenKind::Null
    } else {
        TokenKind::Identifire
    }
}

/// Classify an identifier-shaped literal against the keyword table,
/// keeping its text.
pub fn search_keywords(literal: &String) -> (t: Token)
    ensures
        t@.kind == keyword_kind(literal@),
        t@.literal == literal@,
{
    let kind = if match_keyword(literal, "select") {
        TokenKind::Select
    } else if match_keyword(literal, "where") {
        TokenKind::Where
    } else if match_keyword(literal, "orderby") {
        TokenKind::Orderby
    } else if match_keyword(literal, "groupby") {
        TokenKind::Groupby
    } else if match_keyword(literal, "limit") {
        TokenKind::Limit
    } else if match_keyword(literal, "open") {
        TokenKind::Open
    } else if match_keyword(literal, "and") {
        TokenKind::And
    } else if match_keyword(literal, "or") {
        TokenKind::Or
    } else if match_keyword(literal, "like") {
        TokenKind::Like
    } else if match_keyword(literal, "asc") {
        TokenKind::Asc
    } else if match_keyword(literal, "desc") {
        TokenKind::Desc
    } else if match_keyword(literal, "true") {
        TokenKind::True
    } else if match_keyword(literal, "false") {
        TokenKind::False
    } else if match_keyword(literal, "null") {
        TokenKind::Null
    } else {
        TokenKind::Identifire
    };
    Token::new(kind, literal.clone())
}

/// One token-view, assembled.
pub open spec fn tv(kind: TokenKind, literal: Seq<char>) -> TokenV {
    TokenV { kind, literal }
}

/// The whole scan, specified: the tokens of `s` from position `i`
/// onward, given the tokens `acc` already emitted. Each step consumes
/// at least one character; the scan ends by appending the end-of-input
/// token, or stops with an error when a method keyword is not preceded
/// by a dot token (the dot itself is consumed by the keyword).
pub open spec fn spec_lex(s: Seq<char>, i: int, acc: Seq<TokenV>) -> Result<Seq<TokenV>, LexErrV>
    decreases s.len() - i,
    when 0 <= i <= s.len()
    via spec_lex_decreases
{
    if i >= s.len() {
        Ok(acc.push(tv(TokenKind::Eof, ""@)))
    } else {
        let c = s[i];
        if is_ws_char(c) {
            spec_lex(s, i + 1, acc)
        } else if c == '=' {
            spec_lex(s, i + 1, acc.push(tv(TokenKind::Eq, "="@)))
        } else if c == '+' {
            spec_lex(s, i + 1, acc.push(tv(TokenKind::Plus, "+"@)))
        } else if c == '-' {
            spec_lex(s, i + 1, acc.push(tv(TokenKind::Minus, "-"@)))
        } else if c == '>' {
            if i + 1 < s.len() && s[i + 1] == '=' {
                spec_lex(s, i + 2, acc.push(tv(TokenKind::GreaterEq, ">="@)))
            } else {
                spec_lex(s, i + 1, acc.push(tv(TokenKind::Greater, ">"@)))
            }
        } else if c == '<' {
            if i + 1 < s.len() && s[i + 1] == '=' {
                spec_lex(s, i + 2, acc.push(tv(TokenKind::LessEq, "<="@)))
            } else {
                spec_lex(s, i + 1, acc.push(tv(TokenKind::Less, "<"@)))
            }
        } else if c == ',' {
            spec_lex(s, i + 1, acc.push(tv(TokenKind::Comma, ","@)))
        } else if c == '.' {
            spec_lex(s, i + 1, acc.push(tv(TokenKind::Dot, "."@)))
        } else if c == '(' {
            spec_lex(s, i + 1, acc.push(tv(TokenKind::Lparen, "("@)))
        } else if c == ')' {
            spec_lex(s, i + 1, acc.push(tv(TokenKind::Rparen, ")"@)))
        } else if c == '!' {
            if i + 1 < s.len() && s[i + 1] == '=' {
                spec_lex(s, i + 2, acc.push(tv(TokenKind::NotEq, "!="@)))
            } else {
                spec_lex(s, i + 1, acc.push(tv(TokenKind::Illegal, "!"@)))
            }
        } else if c == '\'' {
            let j = quote_end(s, i + 1);
            let next = if j < s.len() {
                j + 1
            } else {
                j
            };
            spec_lex(s, next, acc.push(tv(TokenKind::StringObject, s.subrange(i + 1, j))))
        } else if is_digit_char(c) {
            let j = digits_end(s, i + 1);
            spec_lex(s, j, acc.push(tv(TokenKind::Integer, s.subrange(i, j))))
        } else if is_literal_char(c) {
            let j = literal_end(s, i + 1);
            let lit = s.subrange(i, j);
            let k = keyword_kind(lit);
            if is_query_kind(k) {
                if acc.len() > 0 && acc.last().kind == TokenKind::Dot {
                    spec_lex(s, j, acc.drop_last().push(tv(k, lit)))
                } else {
                    Err(LexErrV::MethodWithoutDot(lit))
                }
            } else {
                spec_lex(s, j, acc.push(tv(k, lit)))
            }
        } else {
            spec_lex(s, i + 1, acc.push(tv(TokenKind::Illegal, seq![c])))
        }
    }
}

#[via_fn]
proof fn spec_lex_decreases(s: Seq<char>, i: int, acc: Seq<TokenV>) {
    if 0 <= i < s.len() {
        lemma_quote_end_bounds(s, i + 1);
        lemma_digits_end_bounds(s, i + 1);
        lemma_literal_end_bounds(s, i + 1);
    }
}

/// Scan one line of input into its token sequence, ending with the
/// end-of-input token; a method keyword not preceded by a dot stops the
/// scan with a typed error.
pub fn tokenize(input: &str) -> (r: Result<Vec<Token>, LexError>)
    ensures
        match r {
            Ok(tokens) => spec_lex(input@, 0, Seq::empty()) == Ok::<_, LexErrV>(
                tokens.deep_view(),
            ),
            Err(e) => spec_lex(input@, 0, Seq::empty()) == Err::<Seq<TokenV>, _>(e@),
        },
{
    let cs = str_to_chars(input);
    let mut tokens: Vec<Token> = Vec::new();
    let mut i: usize = 0;
    assert(tokens.deep_view() =~= Seq::<TokenV>::empty());

    while i < cs.len()
        invariant
            cs@ == input@,
            i <= cs@.len(),
            spec_lex(input@, i as int, tokens.deep_view()) == spec_lex(
                input@,
                0,
                Seq::<TokenV>::empty(),
            ),
        decreases cs@.len() - i,
    {
        let ghost pre_toks = tokens.deep_view();
        let ghost pre_i = i as int;
        let c = cs[i];
        i = i + 1;
        if is_whitespace_char(c) {
            continue;
        }
        if c == '=' {
            tokens.push(Token::new(TokenKind::Eq, String::from_str("=")));
            assert(tokens.deep_view() =~= pre_toks.push(tv(TokenKind::Eq, "="@)));
        } else if c == '+' {
            tokens.push(Token::new(TokenKind::Plus, String::from_str("+")));
            assert(tokens.deep_view() =~= pre_toks.push(tv(TokenKind::Plus, "+"@)));
        } else if c == '-' {
            tokens.push(Token::new(TokenKind::Minus, String::from_str("-")));
            assert(tokens.deep_view() =~= pre_toks.push(tv(TokenKind::Minus, "-"@)));
        } else if c == '>' {
            if i < cs.len() && cs[i] == '=' {
                tokens.push(Token::new(TokenKind::GreaterEq, String::from_str(">=")));
                i = i + 1;
                assert(tokens.deep_view() =~= pre_toks.push(tv(TokenKind::GreaterEq, ">="@)));
            } else {
                tokens.push(Token::new(TokenKind::Greater, String::from_str(">")));
                assert(tokens.deep_view() =~= pre_toks.push(tv(TokenKind::Greater, ">"@)));
            }
        } else if c == '<' {
            if i < cs.len() && cs[i] == '=' {
                tokens.push(Token::new(TokenKind::LessEq, String::from_str("<=")));
                i = i + 1;
                assert(tokens.deep_view() =~= pre_toks.push(tv(TokenKind::LessEq, "<="@)));
            } else {
                tokens.push(Token::new(TokenKind::Less, String::from_str("<")));
                assert(tokens.deep_view() =~= pre_toks.push(tv(TokenKind::Less, "<"@)));
            }
        } else if c == ',' {
            tokens.push(Token::new(TokenKind::Comma, String::from_str(",")));
            assert(tokens.deep_view() =~= pre_toks.push(tv(TokenKind::Comma, ","@)));
        } else if c == '.' {
            tokens.push(Token::new(TokenKind::Dot, String::from_str(".")));
            assert(tokens.deep_view() =~= pre_toks.push(tv(TokenKind::Dot, "."@)));
        } else if c == '(' {
            tokens.push(Token::new(TokenKind::Lparen, String::from_str("(")));
            assert(tokens.deep_view() =~= pre_toks.push(tv(TokenKind::Lparen, "("@)));
        } else if c == ')' {
            tokens.push(Token::new(TokenKind::Rparen, String::from_str(")")));
            assert(tokens.deep_view() =~= pre_toks.push(tv(TokenKind::Rparen, ")"@)));
        } else if c == '!' {
            if i < cs.len() && cs[i] == '=' {
                tokens.push(Token::new(TokenKind::NotEq, String::from_str("!=")));
                i = i + 1;
                assert(tokens.deep_view() =~= pre_toks.push(tv(TokenKind::NotEq, "!="@)));
            } else {
                tokens.push(Token::new(TokenKind::Illegal, String::from_str("!")));
                assert(tokens.deep_view() =~= pre_toks.push(tv(TokenKind::Illegal, "!"@)));
            }
        } else if c == '\'' {
            proof {
                lemma_quote_end_bounds(input@, pre_i + 1);
            }
            let string_obj = consume_string_object(&cs, &mut i);
            tokens.push(Token::new(TokenKind::StringObject, string_obj));
            assert(tokens.deep_view() =~= pre_toks.push(
                tv(TokenKind::StringObject, input@.subrange(pre_i + 1, quote_end(input@, pre_i + 1))),
            ));
        } else if is_digit(c) {
            let num = consume_integer(&cs, &mut i, c);
            proof {
                lemma_digits_end_bounds(input@, pre_i + 1);
                assert(num@ =~= input@.subrange(pre_i, i as int));
            }
            tokens.push(Token::new(TokenKind::Integer, num));
            assert(tokens.deep_view() =~= pre_toks.push(
                tv(TokenKind::Integer, input@.subrange(pre_i, digits_end(input@, pre_i + 1))),
            ));
        } else if is_literal(c) {
            let literal = consume_literal(&cs, &mut i, c);
            proof {
                lemma_literal_end_bounds(input@, pre_i + 1);
                assert(literal@ =~= input@.subrange(pre_i, i as int));
            }
            let token = search_keywords(&literal);
            if token.is_query_method() {
                match tokens.pop() {
                    // the word before a query method must be a dot, and
                    // the keyword takes its place in the sequence
                    Some(prev) => {
                        if !prev.is_dot() {
                            return Err(LexError::MethodWithoutDot(literal));
                        }
                        proof {
                            assert(tokens.deep_view() =~= pre_toks.drop_last());
                        }
                    },
                    None => {
                        return Err(LexError::MethodWithoutDot(literal));
                    },
                }
            }
            let ghost mid_toks = tokens.deep_view();
            tokens.push(token);
            proof {
                assert(tokens.deep_view() =~= mid_toks.push(token@));
            }
        } else {
            tokens.push(Token::new(TokenKind::Illegal, char_to_string(c)));
            assert(tokens.deep_view() =~= pre_toks.push(tv(TokenKind::Illegal, seq![c])));
        }
        proof {
            assert(spec_lex(input@, pre_i, pre_toks) == spec_lex(
                input@,
                i as int,
                tokens.deep_view(),
            ));
        }
    }
    let ghost done_toks = tokens.deep_view();
    tokens.push(Token::new(TokenKind::Eof, String::from_str("")));
    proof {
        assert(tokens.deep_view() =~= done_toks.push(tv(TokenKind::Eof, ""@)));
    }
    Ok(tokens)
}

/// Consume the maximal digit run that continues `current_c`, advancing
/// the cursor to its end.
pub fn consume_integer(input: &Vec<char>, pos: &mut usize, current_c: char) -> (num: String)
    requires
        *old(pos) <= input@.len(),
    ensures
        *final(pos) == digits_end(input@, *old(pos) as int),
        num@ == seq![current_c] + input@.subrange(*old(pos) as int, *final(pos) as int),
{
    let ghost start = *pos as int;
    let mut num = char_to_string(current_c);
    while *pos < input.len() && is_digit(input[*pos])
        invariant
            0 <= start <= *pos <= input@.len(),
            num@ == seq![current_c] + input@.subrange(start, *pos as int),
            digits_end(input@, start) == digits_end(input@, *pos as int),
        decreases input@.len() - *pos,
    {
        push_char(&mut num, input[*pos]);
        *pos = *pos + 1;
        assert(num@ =~= seq![current_c] + input@.subrange(start, *pos as int));
    }
    num
}

/// Consume the maximal identifier run that continues `current_c`,
/// advancing the cursor to its end.
pub fn consume_literal(input: &Vec<char>, pos: &mut usize, current_c: char) -> (literal: String)
    requires
        *old(pos) <= input@.len(),
    ensures
        *final(pos) == literal_end(input@, *old(pos) as int),
        literal@ == seq![current_c] + input@.subrange(*old(pos) as int, *final(pos) as int),
{
    let ghost start = *pos as int;
    let mut literal = char_to_string(current_c);
    while *pos < input.len() && (is_literal(input[*pos]) || is_digit(input[*pos]))
        invariant
            0 <= start <= *pos <= input@.len(),
            literal@ == seq![current_c] + input@.subrange(start, *pos as int),
            literal_end(input@, start) == literal_end(input@, *pos as int),
        decreases input@.len() - *pos,
    {
        push_char(&mut literal, input[*pos]);
        *pos = *pos + 1;
        assert(literal@ =~= seq![current_c] + input@.subrange(start, *pos as int));
    }
    literal
}

/// Consume a quoted literal: everything up to (not including) the next
/// quote; the quote itself is consumed, and an unterminated literal
/// runs to the end of input.
pub fn consume_string_object(input: &Vec<char>, pos: &mut usize) -> (string_obj: String)
    requires
        *old(pos) <= input@.len(),
    ensures
        ({
            let j = quote_end(input@, *old(pos) as int);
            &&& *final(pos) == if j < input@.len() {
                j + 1
            } else {
                j
            }
            &&& string_obj@ == input@.subrange(*old(pos) as int, j)
        }),
{
    let ghost start = *pos as int;
    let mut string_obj = String::new();
    while *pos < input.len()
        invariant
            start == *old(pos),
            0 <= start <= *pos <= input@.len(),
            string_obj@ == input@.subrange(start, *pos as int),
            quote_end(input@, start) == quote_end(input@, *pos as int),
            forall|k: int| start <= k < *pos ==> input@[k] != '\'',
        decreases input@.len() - *pos,
    {
        let c = input[*pos];
        *pos = *pos + 1;
        if c == '\'' {
            proof {
                lemma_quote_end_bounds(input@, start);
            }
            return string_obj;
        }
        push_char(&mut string_obj, c);
        assert(string_obj@ =~= input@.subrange(start, *pos as int));
    }
    string_obj
}

} // verus!
