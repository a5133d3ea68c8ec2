//! The recursive-descent parser: single-token lookahead over a
//! materialized token array, building the AST and issuing typed errors.
//!
//! Each `spec_parse_*` function is the specification of one production;
//! each exec method of [`Parser`] is proved to return exactly its
//! result and to leave the cursor exactly where the specification says.
//! The `AND`/`OR` chaining is deliberately right-associative and free
//! of precedence: every infix operator takes the whole remainder of
//! the expression as its right operand.

use vstd::prelude::*;

use crate::engine::ast::{
    Condition, ExprV, Expression, FieldLiteral, FieldV, GroupByStatement, InfixExpression,
    IntegerLiteral, IntegerV, OperatorLiteral, OperatorV, OrderByOptionLiteral, OrderByOptionV,
    OrderByStatement, OpenStatement, LimitStatement, PrefixExpression, Program, SelectStatement,
    Statement, StmtV, Table, Value, WhereStatement,
};
use crate::engine::num::{all_digits, digits_to_i64, spec_digits_val};
use crate::engine::token::{Token, TokenKind, TokenV, is_condition_op_kind, is_query_kind};

verus! {

/// A typed parse error: a required token was absent, a method position
/// held an unrecognized keyword, or the input ended mid-production.
#[derive(Debug, PartialEq)]
pub enum ParseError {
    UnexpectedToken(String, String),
    InvalidMethod(String),
    Eof,
}

/// The specification-level image of a [`ParseError`].
pub ghost enum ParseErrV {
    UnexpectedToken(Seq<char>, Seq<char>),
    InvalidMethod(Seq<char>),
    Eof,
}

impl View for ParseError {
    type V = ParseErrV;

    open spec fn view(&self) -> ParseErrV {
        match self {
            ParseError::UnexpectedToken(expected, got) => ParseErrV::UnexpectedToken(
                expected@,
                got@,
            ),
            ParseError::InvalidMethod(m) => ParseErrV::InvalidMethod(m@),
            ParseError::Eof => ParseErrV::Eof,
        }
    }
}

impl ParseError {
    /// A human-readable description of the error.
    pub fn describe(&self) -> (r: String)
        ensures
            r@ == match self@ {
                ParseErrV::UnexpectedToken(expected, got) => "Unexpected token: expected "@
                    + expected + ". got '"@ + got + "'"@,
                ParseErrV::InvalidMethod(m) => "Invalid method: "@ + m,
                ParseErrV::Eof => "Unexpected EOF"@,
            },
    {
        match self {
            ParseError::UnexpectedToken(expected, got) => {
                let mut s = String::from_str("Unexpected token: expected ");
                s.append(expected.as_str());
                s.append(". got '");
                s.append(got.as_str());
                s.append("'");
                s
            },
            ParseError::InvalidMethod(m) => {
                let mut s = String::from_str("Invalid method: ");
                s.append(m.as_str());
                s
            },
            ParseError::Eof => String::from_str("Unexpected EOF"),
        }
    }
}

/// The specification-level image of a [`Parser`]: the token sequence,
/// the cursor into it, and the token most recently consumed.
pub ghost struct ParserV {
    pub toks: Seq<TokenV>,
    pub pos: int,
    pub cur: TokenV,
}

/// The cursor stays within the token sequence.
pub open spec fn pv_wf(p: ParserV) -> bool {
    0 <= p.pos <= p.toks.len()
}

/// The token under the cursor, if any.
pub open spec fn spec_peek(p: ParserV) -> Option<TokenV> {
    if 0 <= p.pos < p.toks.len() {
        Some(p.toks[p.pos])
    } else {
        None
    }
}

/// Consume one token: the consumed token becomes the current one and
/// the cursor advances; at the end nothing changes.
pub open spec fn spec_next(p: ParserV) -> ParserV {
    if 0 <= p.pos < p.toks.len() {
        ParserV { toks: p.toks, pos: p.pos + 1, cur: p.toks[p.pos] }
    } else {
        p
    }
}

/// `expect_peek`: demand a token of kind `kind` under the cursor and
/// consume it; otherwise report what was found, or that input ended.
pub open spec fn spec_expect_peek(p: ParserV, kind: TokenKind) -> (Result<(), ParseErrV>, ParserV) {
    match spec_peek(p) {
        Some(t) => if t.kind == kind {
            (Ok(()), spec_next(p))
        } else {
            (Err(ParseErrV::UnexpectedToken(kind.spec_str(), t.literal)), p)
        },
        None => (Err(ParseErrV::Eof), p),
    }
}

/// `field := Identifier ["." Identifier]`: the current token starts the
/// field; one further `.Identifier` pair may extend its name.
pub open spec fn spec_parse_field(p: ParserV) -> (Result<FieldV, ParseErrV>, ParserV) {
    let token = p.cur;
    if spec_peek(p) matches Some(d) && spec_peek(p)->0.kind == TokenKind::Dot {
        let p1 = spec_next(p);
        match spec_peek(p1) {
            Some(t) => if t.kind == TokenKind::Identifire {
                let p2 = spec_next(p1);
                (Ok(FieldV { token, name: token.literal + "."@ + t.literal }), p2)
            } else {
                (
                    Err(ParseErrV::UnexpectedToken(TokenKind::Identifire.spec_str(), t.literal)),
                    p1,
                )
            },
            None => (Err(ParseErrV::Eof), p1),
        }
    } else {
        (Ok(FieldV { token, name: token.literal }), p)
    }
}

/// `operator := "=" | "!=" | ">" | ">=" | "<" | "<=" | "LIKE"`: the
/// seven condition operators and nothing else; in particular the
/// keyword operators `AND` and `OR` are not condition operators.
pub open spec fn spec_parse_operator(p: ParserV) -> (Result<OperatorV, ParseErrV>, ParserV) {
    match spec_peek(p) {
        Some(t) => if is_condition_op_kind(t.kind) {
            (Ok(OperatorV { token: t, value: t.literal }), spec_next(p))
        } else {
            (
                Err(
                    ParseErrV::UnexpectedToken(
                        "Operator(=, !=, >, >=, <, <=, LIKE)"@,
                        t.literal,
                    ),
                ),
                p,
            )
        },
        None => (Err(ParseErrV::Eof), p),
    }
}

/// An integer literal: the consumed token must be an integer token
/// whose digits fit in `i64`.
pub open spec fn spec_parse_integer(p: ParserV) -> (Result<IntegerV, ParseErrV>, ParserV) {
    match spec_peek(p) {
        Some(t) => {
            let p1 = spec_next(p);
            if t.kind == TokenKind::Integer && all_digits(t.literal) && spec_digits_val(t.literal)
                <= i64::MAX {
                (Ok(IntegerV { token: t, value: spec_digits_val(t.literal) as i64 }), p1)
            } else {
                (Err(ParseErrV::UnexpectedToken(TokenKind::Integer.spec_str(), t.literal)), p1)
            }
        },
        None => (Err(ParseErrV::Eof), p),
    }
}

/// `value := ["+"|"-"] (Integer | StringObject | TRUE | FALSE | NULL)`:
/// a bare value keeps its lexical text; a single sign makes a prefix
/// node over one bare value.
pub open spec fn spec_parse_value(p: ParserV) -> (Result<ExprV, ParseErrV>, ParserV) {
    match spec_peek(p) {
        Some(t) => match t.kind {
            TokenKind::Plus | TokenKind::Minus => spec_parse_prefix(p),
            TokenKind::StringObject | TokenKind::Integer | TokenKind::True | TokenKind::False
                | TokenKind::Null => (
                (Ok(ExprV::Val { token: t, value: t.literal }), spec_next(p))
            ),
            _ => (Err(ParseErrV::UnexpectedToken(""@, t.literal)), p),
        },
        None => (Err(ParseErrV::Eof), p),
    }
}

/// A signed value: the sign token, then exactly one bare value token;
/// a second sign is not accepted.
pub open spec fn spec_parse_prefix(p: ParserV) -> (Result<ExprV, ParseErrV>, ParserV) {
    match spec_peek(p) {
        Some(t) => {
            let p1 = spec_next(p);
            match spec_peek(p1) {
                Some(u) => if u.kind == TokenKind::StringObject || u.kind == TokenKind::Integer
                    || u.kind == TokenKind::True || u.kind == TokenKind::False || u.kind
                    == TokenKind::Null {
                    (
                        Ok(
                            ExprV::Prefix {
                                token: t,
                                operator: t.literal,
                                right: Box::new(ExprV::Val { token: u, value: u.literal }),
                            },
                        ),
                        spec_next(p1),
                    )
                } else {
                    (Err(ParseErrV::UnexpectedToken(""@, u.literal)), p1)
                },
                None => (Err(ParseErrV::Eof), p1),
            }
        },
        None => (Err(ParseErrV::Eof), p),
    }
}

/// The value/prefix productions keep the cursor inside the sequence
/// and never move it backward.
pub proof fn lemma_value_props(p: ParserV)
    requires
        pv_wf(p),
    ensures
        pv_wf(spec_parse_value(p).1),
        spec_parse_value(p).1.pos >= p.pos,
        spec_parse_value(p).1.toks == p.toks,
        pv_wf(spec_parse_prefix(p).1),
        spec_parse_prefix(p).1.pos >= p.pos,
        spec_parse_prefix(p).1.toks == p.toks,
{
}

/// `condition := field operator value`.
pub open spec fn spec_parse_condition(p: ParserV) -> (Result<ExprV, ParseErrV>, ParserV) {
    match spec_peek(p) {
        Some(t) => {
            let p1 = spec_next(p);
            let (rf, p2) = spec_parse_field(p1);
            match rf {
                Ok(field) => {
                    let (ro, p3) = spec_parse_operator(p2);
                    match ro {
                        Ok(operator) => {
                            let (rv, p4) = spec_parse_value(p3);
                            match rv {
                                Ok(value) => (
                                    (
                                        Ok(
                                            ExprV::Cond {
                                                token: t,
                                                field,
                                                operator,
                                                value: Box::new(value),
                                            },
                                        ),
                                        p4,
                                    )
                                ),
                                Err(e) => (Err(e), p4),
                            }
                        },
                        Err(e) => (Err(e), p3),
                    }
                },
                Err(e) => (Err(e), p2),
            }
        },
        None => (Err(ParseErrV::Eof), p),
    }
}

/// `where_expr := atom (("AND"|"OR") where_expr)?`: an atom is a
/// condition or a parenthesized where-expression, and an infix
/// operator takes the entire remainder as its right operand.
pub open spec fn spec_parse_where_exprs(p: ParserV) -> (Result<ExprV, ParseErrV>, ParserV)
    decreases p.toks.len() - p.pos, 2int,
    when pv_wf(p)
{
    let (rl, p1) = match spec_peek(p) {
        Some(t) => match t.kind {
            TokenKind::Identifire => spec_parse_condition(p),
            TokenKind::Lparen => spec_parse_grouped(p),
            _ => (Err(ParseErrV::UnexpectedToken("where clause"@, p.cur.literal)), p),
        },
        None => (Err(ParseErrV::UnexpectedToken("where clause"@, p.cur.literal)), p),
    };
    match rl {
        // parsing an atom never rewrites the token sequence and never
        // moves the cursor backward (`lemma_where_props`); the guard
        // only makes that evident to the termination checker
        Ok(left) => if pv_wf(p1) && p1.toks == p.toks && p1.pos >= p.pos {
            spec_where_tail(p1, left)
        } else {
            (Ok(left), p1)
        },
        Err(e) => (Err(e), p1),
    }
}

/// What follows a parsed atom: an `AND`/`OR` continues the chain, a
/// closing parenthesis or end-of-input finishes it, anything else is an
/// error.
pub open spec fn spec_where_tail(p: ParserV, left: ExprV) -> (Result<ExprV, ParseErrV>, ParserV)
    decreases p.toks.len() - p.pos, 1int,
    when pv_wf(p)
{
    match spec_peek(p) {
        Some(t) => match t.kind {
            TokenKind::And | TokenKind::Or => spec_parse_infix(p, left),
            TokenKind::Rparen | TokenKind::Eof => (Ok(left), p),
            _ => (Err(ParseErrV::UnexpectedToken("where clause"@, p.cur.literal)), p),
        },
        None => (Ok(left), p),
    }
}

/// `infix := ("AND"|"OR") where_expr`: the operator token, then the
/// whole remainder as its right operand.
pub open spec fn spec_parse_infix(p: ParserV, left: ExprV) -> (Result<ExprV, ParseErrV>, ParserV)
    decreases p.toks.len() - p.pos, 0int,
    when pv_wf(p)
{
    match spec_peek(p) {
        Some(t) => {
            let p1 = spec_next(p);
            let (r, p2) = spec_parse_where_exprs(p1);
            match r {
                Ok(right) => (
                    (
                        Ok(
                            ExprV::Infix {
                                token: t,
                                left: Box::new(left),
                                operator: t.literal,
                                right: Box::new(right),
                            },
                        ),
                        p2,
                    )
                ),
                Err(e) => (Err(e), p2),
            }
        },
        None => (Err(ParseErrV::Eof), p),
    }
}

/// `grouped := "(" where_expr ")"`: the inner expression is returned
/// as it stands; the parentheses contribute no node of their own.
pub open spec fn spec_parse_grouped(p: ParserV) -> (Result<ExprV, ParseErrV>, ParserV)
    decreases p.toks.len() - p.pos, 0int,
    when pv_wf(p)
{
    if spec_peek(p) matches Some(t) {
        let p1 = spec_next(p);
        let (r, p2) = spec_parse_where_exprs(p1);
        match r {
            Ok(exp) => {
                if pv_wf(p2) {
                    let (rr, p3) = spec_expect_peek(p2, TokenKind::Rparen);
                    match rr {
                        Ok(_) => (Ok(exp), p3),
                        Err(e) => (Err(e), p3),
                    }
                } else {
                    (Ok(exp), p2)
                }
            },
            Err(e) => (Err(e), p2),
        }
    } else {
        (Err(ParseErrV::Eof), p)
    }
}

/// The where-expression productions keep the cursor inside the
/// sequence, never move it backward, and a successful parse stops only
/// at a closing parenthesis or at end-of-input.
pub proof fn lemma_where_props(p: ParserV, left: ExprV)
    requires
        pv_wf(p),
    ensures
        ({
            let (r, p2) = spec_parse_where_exprs(p);
            &&& pv_wf(p2)
            &&& p2.pos >= p.pos
            &&& p2.toks == p.toks
            &&& (r matches Ok(_) ==> match spec_peek(p2) {
                Some(t) => t.kind == TokenKind::Rparen || t.kind == TokenKind::Eof,
                None => true,
            })
        }),
        ({
            let (r, p2) = spec_where_tail(p, left);
            &&& pv_wf(p2)
            &&& p2.pos >= p.pos
            &&& p2.toks == p.toks
            &&& (r matches Ok(_) ==> match spec_peek(p2) {
                Some(t) => t.kind == TokenKind::Rparen || t.kind == TokenKind::Eof,
                None => true,
            })
        }),
        ({
            let (r, p2) = spec_parse_infix(p, left);
            &&& pv_wf(p2)
            &&& (spec_peek(p) is Some ==> p2.pos > p.pos)
            &&& p2.pos >= p.pos
            &&& p2.toks == p.toks
            &&& (r matches Ok(_) ==> match spec_peek(p2) {
                Some(t) => t.kind == TokenKind::Rparen || t.kind == TokenKind::Eof,
                None => true,
            })
        }),
        ({
            let (r, p2) = spec_parse_grouped(p);
            &&& pv_wf(p2)
            &&& (spec_peek(p) is Some ==> p2.pos > p.pos)
            &&& p2.pos >= p.pos
            &&& p2.toks == p.toks
        }),
    decreases p.toks.len() - p.pos, 3int,
{
    // the atom of a where-expression: a condition moves the cursor
    // forward through non-recursive productions, a grouped expression
    // recurses one token further in
    match spec_peek(p) {
        Some(t) => {
            let p1 = spec_next(p);
            if t.kind == TokenKind::Identifire {
                lemma_value_props(spec_parse_operator(spec_parse_field(p1).1).1);
            }
            lemma_where_props(p1, left);
            let (rg, pg) = spec_parse_where_exprs(p1);
            match rg {
                Ok(e) => lemma_where_props(pg, e),
                Err(_) => (),
            }
        },
        None => (),
    }
    let (rl, p1) = match spec_peek(p) {
        Some(t) => match t.kind {
            TokenKind::Identifire => spec_parse_condition(p),
            TokenKind::Lparen => spec_parse_grouped(p),
            _ => (Err(ParseErrV::UnexpectedToken("where clause"@, p.cur.literal)), p),
        },
        None => (Err(ParseErrV::UnexpectedToken("where clause"@, p.cur.literal)), p),
    };
    match rl {
        Ok(l) => {
            if pv_wf(p1) && p1.toks == p.toks && p1.pos >= p.pos {
                lemma_where_tail_props(p1, l);
            }
        },
        Err(_) => (),
    }
}

/// Helper for [`lemma_where_props`]: the tail and infix cases, one
/// recursion level down.
proof fn lemma_where_tail_props(p: ParserV, left: ExprV)
    requires
        pv_wf(p),
    ensures
        ({
            let (r, p2) = spec_where_tail(p, left);
            &&& pv_wf(p2)
            &&& p2.pos >= p.pos
            &&& p2.toks == p.toks
            &&& (r matches Ok(_) ==> match spec_peek(p2) {
                Some(t) => t.kind == TokenKind::Rparen || t.kind == TokenKind::Eof,
                None => true,
            })
        }),
        ({
            let (r, p2) = spec_parse_infix(p, left);
            &&& pv_wf(p2)
            &&& (spec_peek(p) is Some ==> p2.pos > p.pos)
            &&& p2.pos >= p.pos
            &&& p2.toks == p.toks
            &&& (r matches Ok(_) ==> match spec_peek(p2) {
                Some(t) => t.kind == TokenKind::Rparen || t.kind == TokenKind::Eof,
                None => true,
            })
        }),
    decreases p.toks.len() - p.pos, 2int,
{
    match spec_peek(p) {
        Some(_) => {
            let p1 = spec_next(p);
            lemma_where_props(p1, left);
            let (ri, pi) = spec_parse_where_exprs(p1);
            match ri {
                Ok(e) => lemma_where_props(pi, e),
                Err(_) => (),
            }
        },
        None => (),
    }
}


/// `field ("," field)* ")"`-body: the fields of a select or groupby
/// statement. The opening parenthesis has been consumed; the loop
/// starts by consuming the first field's leading token.
pub open spec fn spec_parse_fields(p: ParserV) -> (Result<Seq<FieldV>, ParseErrV>, ParserV) {
    spec_fields_loop(spec_next(p), Seq::empty())
}

/// One round of the field list: stop at a closing parenthesis, else a
/// field, then either the closing parenthesis or a comma and the next
/// field's leading token.
pub open spec fn spec_fields_loop(p: ParserV, acc: Seq<FieldV>) -> (
    Result<Seq<FieldV>, ParseErrV>,
    ParserV,
)
    decreases p.toks.len() - p.pos,
    when pv_wf(p)
{
    if p.cur.kind == TokenKind::Rparen {
        (Ok(acc), p)
    } else {
        let (rf, p1) = spec_parse_field(p);
        match rf {
            Ok(field) => if spec_peek(p1) matches Some(t) && spec_peek(p1)->0.kind
                == TokenKind::Rparen {
                (Ok(acc.push(field)), p1)
            } else {
                match spec_peek(p1) {
                    Some(t) => if t.kind == TokenKind::Comma {
                        spec_fields_loop(spec_next(spec_next(p1)), acc.push(field))
                    } else {
                        (
                            Err(ParseErrV::UnexpectedToken(TokenKind::Comma.spec_str(), t.literal)),
                            p1,
                        )
                    },
                    None => (Err(ParseErrV::Eof), p1),
                }
            },
            Err(e) => (Err(e), p1),
        }
    }
}

/// The field list keeps the cursor inside the token sequence and never
/// moves it backward.
pub proof fn lemma_fields_loop_props(p: ParserV, acc: Seq<FieldV>)
    requires
        pv_wf(p),
    ensures
        pv_wf(spec_fields_loop(p, acc).1),
        spec_fields_loop(p, acc).1.pos >= p.pos,
        spec_fields_loop(p, acc).1.toks == p.toks,
    decreases p.toks.len() - p.pos,
{
    if p.cur.kind != TokenKind::Rparen {
        let (rf, p1) = spec_parse_field(p);
        match rf {
            Ok(field) => {
                match spec_peek(p1) {
                    Some(t) => {
                        if t.kind != TokenKind::Rparen && t.kind == TokenKind::Comma {
                            lemma_fields_loop_props(spec_next(spec_next(p1)), acc.push(field));
                        }
                    },
                    None => (),
                }
            },
            Err(_) => (),
        }
    }
}

/// `order_opt ("," order_opt)* ")"`-body: the options of an orderby
/// statement; `DESC` appends a literal suffix to the field name, `ASC`
/// is recognized but contributes nothing.
pub open spec fn spec_parse_orderby_options(p: ParserV) -> (
    Result<Seq<OrderByOptionV>, ParseErrV>,
    ParserV,
) {
    spec_options_loop(spec_next(p), Seq::empty())
}

/// One round of the option list.
pub open spec fn spec_options_loop(p: ParserV, acc: Seq<OrderByOptionV>) -> (
    Result<Seq<OrderByOptionV>, ParseErrV>,
    ParserV,
)
    decreases p.toks.len() - p.pos,
    when pv_wf(p)
{
    if p.cur.kind == TokenKind::Rparen {
        (Ok(acc), p)
    } else {
        let (rf, p1) = spec_parse_field(p);
        match rf {
            Ok(field) => {
                let stepped = spec_peek(p1) matches Some(t) && (spec_peek(p1)->0.kind
                    == TokenKind::Asc || spec_peek(p1)->0.kind == TokenKind::Desc);
                let name = if spec_peek(p1) matches Some(t) && spec_peek(p1)->0.kind
                    == TokenKind::Desc {
                    field.name + " "@ + spec_peek(p1)->0.literal
                } else {
                    field.name
                };
                let p2 = if stepped {
                    spec_next(p1)
                } else {
                    p1
                };
                let option = OrderByOptionV { token: field.token, name };
                if spec_peek(p2) matches Some(t) && spec_peek(p2)->0.kind == TokenKind::Rparen {
                    (Ok(acc.push(option)), p2)
                } else {
                    match spec_peek(p2) {
                        Some(t) => if t.kind == TokenKind::Comma {
                            spec_options_loop(spec_next(spec_next(p2)), acc.push(option))
                        } else {
                            (
                                Err(
                                    ParseErrV::UnexpectedToken(
                                        TokenKind::Comma.spec_str(),
                                        t.literal,
                                    ),
                                ),
                                p2,
                            )
                        },
                        None => (Err(ParseErrV::Eof), p2),
                    }
                }
            },
            Err(e) => (Err(e), p1),
        }
    }
}

/// The option list keeps the cursor inside the token sequence and
/// never moves it backward.
pub proof fn lemma_options_loop_props(p: ParserV, acc: Seq<OrderByOptionV>)
    requires
        pv_wf(p),
    ensures
        pv_wf(spec_options_loop(p, acc).1),
        spec_options_loop(p, acc).1.pos >= p.pos,
        spec_options_loop(p, acc).1.toks == p.toks,
    decreases p.toks.len() - p.pos,
{
    if p.cur.kind != TokenKind::Rparen {
        let (rf, p1) = spec_parse_field(p);
        match rf {
            Ok(field) => {
                let stepped = spec_peek(p1) matches Some(t) && (spec_peek(p1)->0.kind
                    == TokenKind::Asc || spec_peek(p1)->0.kind == TokenKind::Desc);
                let name = if spec_peek(p1) matches Some(t) && spec_peek(p1)->0.kind
                    == TokenKind::Desc {
                    field.name + " "@ + spec_peek(p1)->0.literal
                } else {
                    field.name
                };
                let p2 = if stepped {
                    spec_next(p1)
                } else {
                    p1
                };
                let option = OrderByOptionV { token: field.token, name };
                if !(spec_peek(p2) matches Some(t) && spec_peek(p2)->0.kind == TokenKind::Rparen) {
                    match spec_peek(p2) {
                        Some(t) => {
                            if t.kind == TokenKind::Comma {
                                lemma_options_loop_props(
                                    spec_next(spec_next(p2)),
                                    acc.push(option),
                                );
                            }
                        },
                        None => (),
                    }
                }
            },
            Err(_) => (),
        }
    }
}

/// `("select"|"groupby") "(" field ("," field)* ")"`.
pub open spec fn spec_parse_select_groupby(p: ParserV) -> (Result<StmtV, ParseErrV>, ParserV) {
    match spec_peek(p) {
        Some(token) => {
            let p1 = spec_next(p);
            let (rl, p2) = spec_expect_peek(p1, TokenKind::Lparen);
            match rl {
                Ok(_) => {
                    let (rf, p3) = spec_parse_fields(p2);
                    match rf {
                        Ok(fields) => {
                            let (rr, p4) = spec_expect_peek(p3, TokenKind::Rparen);
                            match rr {
                                Ok(_) => (
                                    (
                                        Ok(
                                            if token.kind == TokenKind::Select {
                                                StmtV::Select { token, fields }
                                            } else {
                                                StmtV::GroupBy { token, fields }
                                            },
                                        ),
                                        p4,
                                    )
                                ),
                                Err(e) => (Err(e), p4),
                            }
                        },
                        Err(e) => (Err(e), p3),
                    }
                },
                Err(e) => (Err(e), p2),
            }
        },
        None => (Err(ParseErrV::Eof), p),
    }
}

/// `"where" "(" where_expr ")"`.
pub open spec fn spec_parse_where_statement(p: ParserV) -> (Result<StmtV, ParseErrV>, ParserV) {
    match spec_peek(p) {
        Some(token) => {
            let p1 = spec_next(p);
            let (rl, p2) = spec_expect_peek(p1, TokenKind::Lparen);
            match rl {
                Ok(_) => {
                    let (re, p3) = spec_parse_where_exprs(p2);
                    match re {
                        Ok(expression) => {
                            let (rr, p4) = spec_expect_peek(p3, TokenKind::Rparen);
                            match rr {
                                Ok(_) => (Ok(StmtV::Where { token, expression }), p4),
                                Err(e) => (Err(e), p4),
                            }
                        },
                        Err(e) => (Err(e), p3),
                    }
                },
                Err(e) => (Err(e), p2),
            }
        },
        None => (Err(ParseErrV::Eof), p),
    }
}

/// `"orderby" "(" order_opt ("," order_opt)* ")"`.
pub open spec fn spec_parse_orderby_statement(p: ParserV) -> (Result<StmtV, ParseErrV>, ParserV) {
    match spec_peek(p) {
        Some(token) => {
            let p1 = spec_next(p);
            let (rl, p2) = spec_expect_peek(p1, TokenKind::Lparen);
            match rl {
                Ok(_) => {
                    let (ro, p3) = spec_parse_orderby_options(p2);
                    match ro {
                        Ok(options) => {
                            let (rr, p4) = spec_expect_peek(p3, TokenKind::Rparen);
                            match rr {
                                Ok(_) => (Ok(StmtV::OrderBy { token, options }), p4),
                                Err(e) => (Err(e), p4),
                            }
                        },
                        Err(e) => (Err(e), p3),
                    }
                },
                Err(e) => (Err(e), p2),
            }
        },
        None => (Err(ParseErrV::Eof), p),
    }
}

/// `"limit" "(" Integer ")"`.
pub open spec fn spec_parse_limit_statement(p: ParserV) -> (Result<StmtV, ParseErrV>, ParserV) {
    match spec_peek(p) {
        Some(token) => {
            let p1 = spec_next(p);
            let (rl, p2) = spec_expect_peek(p1, TokenKind::Lparen);
            match rl {
                Ok(_) => {
                    let (ri, p3) = spec_parse_integer(p2);
                    match ri {
                        Ok(limit) => {
                            let (rr, p4) = spec_expect_peek(p3, TokenKind::Rparen);
                            match rr {
                                Ok(_) => (Ok(StmtV::Limit { token, limit }), p4),
                                Err(e) => (Err(e), p4),
                            }
                        },
                        Err(e) => (Err(e), p3),
                    }
                },
                Err(e) => (Err(e), p2),
            }
        },
        None => (Err(ParseErrV::Eof), p),
    }
}

/// `"open" "(" ")"`.
pub open spec fn spec_parse_open_statement(p: ParserV) -> (Result<StmtV, ParseErrV>, ParserV) {
    match spec_peek(p) {
        Some(token) => {
            let p1 = spec_next(p);
            let (rl, p2) = spec_expect_peek(p1, TokenKind::Lparen);
            match rl {
                Ok(_) => {
                    let (rr, p3) = spec_expect_peek(p2, TokenKind::Rparen);
                    match rr {
                        Ok(_) => (Ok(StmtV::Open { token }), p3),
                        Err(e) => (Err(e), p3),
                    }
                },
                Err(e) => (Err(e), p2),
            }
        },
        None => (Err(ParseErrV::Eof), p),
    }
}

/// `method_stmt`: dispatch on the method keyword under the cursor.
pub open spec fn spec_parse_statement(p: ParserV) -> (Result<StmtV, ParseErrV>, ParserV) {
    match spec_peek(p) {
        Some(t) => match t.kind {
            TokenKind::Select | TokenKind::Groupby => spec_parse_select_groupby(p),
            TokenKind::Where => spec_parse_where_statement(p),
            TokenKind::Orderby => spec_parse_orderby_statement(p),
            TokenKind::Limit => spec_parse_limit_statement(p),
            TokenKind::Open => spec_parse_open_statement(p),
            _ => (Err(ParseErrV::InvalidMethod(t.literal)), p),
        },
        None => (Err(ParseErrV::Eof), p),
    }
}

/// A method statement keeps the cursor inside the token sequence, and
/// a successful parse always moves it forward.
pub proof fn lemma_statement_props(p: ParserV)
    requires
        pv_wf(p),
    ensures
        ({
            let (r, p1) = spec_parse_statement(p);
            &&& pv_wf(p1)
            &&& p1.pos >= p.pos
            &&& p1.toks == p.toks
            &&& (r matches Ok(_) ==> p1.pos > p.pos)
        }),
{
    match spec_peek(p) {
        Some(t) => {
            let p1 = spec_next(p);
            let p2 = spec_expect_peek(p1, TokenKind::Lparen).1;
            lemma_fields_loop_props(spec_next(p2), Seq::empty());
            lemma_options_loop_props(spec_next(p2), Seq::empty());
            lemma_where_props(p2, ExprV::Boolean { token: t, value: true });
        },
        None => (),
    }
}

/// `table := Identifier`, which must be followed by end-of-input or a
/// method keyword.
pub open spec fn spec_parse_table(p: ParserV) -> (Result<StmtV, ParseErrV>, ParserV) {
    let p1 = spec_next(p);
    if p1.cur.kind != TokenKind::Identifire {
        (Err(ParseErrV::UnexpectedToken("SObject Name"@, p1.cur.literal)), p1)
    } else {
        match spec_peek(p1) {
            Some(t) => if is_query_kind(t.kind) || t.kind == TokenKind::Eof {
                (Ok(StmtV::Table { token: p1.cur, table_name: p1.cur.literal }), p1)
            } else {
                (
                    Err(
                        ParseErrV::UnexpectedToken(
                            "query method after SObject Name"@,
                            t.literal,
                        ),
                    ),
                    p1,
                )
            },
            None => (Ok(StmtV::Table { token: p1.cur, table_name: p1.cur.literal }), p1),
        }
    }
}

/// `method_stmt* EOF`: the statements after the table, one per method
/// keyword, until the end-of-input token.
pub open spec fn spec_parse_stmts(p: ParserV, acc: Seq<StmtV>) -> (
    Result<Seq<StmtV>, ParseErrV>,
    ParserV,
)
    decreases p.toks.len() - p.pos,
    when pv_wf(p)
    via spec_parse_stmts_decreases
{
    match spec_peek(p) {
        None => (Ok(acc), p),
        Some(t) => {
            if t.kind == TokenKind::Eof {
                (Ok(acc), p)
            } else if is_query_kind(t.kind) {
                let (rs, p1) = spec_parse_statement(p);
                match rs {
                    Ok(st) => spec_parse_stmts(p1, acc.push(st)),
                    Err(e) => (Err(e), p1),
                }
            } else {
                (Err(ParseErrV::InvalidMethod(t.literal)), p)
            }
        },
    }
}

#[via_fn]
proof fn spec_parse_stmts_decreases(p: ParserV, acc: Seq<StmtV>) {
    if pv_wf(p) {
        lemma_statement_props(p);
    }
}

/// `program := table method_stmt* EOF`.
pub open spec fn spec_parse_program(p: ParserV) -> (Result<Seq<StmtV>, ParseErrV>, ParserV) {
    let (rt, p1) = spec_parse_table(p);
    match rt {
        Ok(table) => spec_parse_stmts(p1, seq![table]),
        Err(e) => (Err(e), p1),
    }
}


/// The parser: a materialized token array, a cursor into it, and the
/// token most recently consumed.
#[derive(Debug)]
pub struct Parser {
    pub tokens: Vec<Token>,
    pub pos: usize,
    pub current_token: Token,
}

impl View for Parser {
    type V = ParserV;

    open spec fn view(&self) -> ParserV {
        ParserV {
            toks: self.tokens.deep_view(),
            pos: self.pos as int,
            cur: self.current_token@,
        }
    }
}

impl Parser {
    /// The cursor stays within the token array.
    pub open spec fn wf(&self) -> bool {
        pv_wf(self@)
    }

    pub fn new(tokens: Vec<Token>) -> (p: Self)
        ensures
            p.wf(),
            p@ == (ParserV {
                toks: tokens.deep_view(),
                pos: 0,
                cur: TokenV { kind: TokenKind::Illegal, literal: Seq::empty() },
            }),
    {
        let p = Parser {
            tokens,
            pos: 0,
            current_token: Token::new(TokenKind::Illegal, String::from_str("")),
        };
        proof {
            reveal_strlit("");
            assert(""@ =~= Seq::<char>::empty());
        }
        p
    }

    /// Consume one token; the consumed token becomes the current one.
    pub fn next_token(&mut self) -> (r: Option<Token>)
        requires
            old(self).wf(),
        ensures
            final(self).wf(),
            final(self)@ == spec_next(old(self)@),
            match r {
                Some(t) => spec_peek(old(self)@) == Some(t@) && t@ == final(self)@.cur,
                None => spec_peek(old(self)@) is None,
            },
    {
        if self.pos < self.tokens.len() {
            self.current_token = self.tokens[self.pos].clone();
            self.pos = self.pos + 1;
            Some(self.current_token.clone())
        } else {
            None
        }
    }

    /// The token under the cursor, if any, without consuming it.
    pub fn peek_token(&self) -> (r: Option<&Token>)
        ensures
            match r {
                Some(t) => spec_peek(self@) == Some(t@),
                None => spec_peek(self@) is None,
            },
    {
        if self.pos < self.tokens.len() {
            Some(&self.tokens[self.pos])
        } else {
            None
        }
    }

    fn current_token_is(&self, kind: TokenKind) -> (r: bool)
        ensures
            r == (self@.cur.kind == kind),
    {
        self.current_token.kind == kind
    }

    fn peek_token_is(&self, kind: TokenKind) -> (r: bool)
        ensures
            r == match spec_peek(self@) {
                Some(t) => t.kind == kind,
                None => false,
            },
    {
        match self.peek_token() {
            Some(token) => token.kind == kind,
            None => false,
        }
    }

    fn peek_token_is_query(&self) -> (r: bool)
        ensures
            r == match spec_peek(self@) {
                Some(t) => is_query_kind(t.kind),
                None => false,
            },
    {
        match self.peek_token() {
            Some(token) => token.is_query_method(),
            None => false,
        }
    }

    /// Whether any token other than the end-of-input token is under
    /// the cursor.
    fn peek_is_more(&self) -> (r: bool)
        ensures
            r == match spec_peek(self@) {
                Some(t) => t.kind != TokenKind::Eof,
                None => false,
            },
    {
        match self.peek_token() {
            Some(token) => !matches!(token.kind, TokenKind::Eof),
            None => false,
        }
    }

    /// Demand a token of kind `kind` under the cursor and consume it.
    fn expect_peek(&mut self, kind: TokenKind) -> (r: Result<(), ParseError>)
        requires
            old(self).wf(),
        ensures
            final(self).wf(),
            ({
                let (sr, sp) = spec_expect_peek(old(self)@, kind);
                &&& final(self)@ == sp
                &&& match r {
                    Ok(_) => sr is Ok,
                    Err(e) => sr == Err::<(), ParseErrV>(e@),
                }
            }),
    {
        if self.peek_token_is(kind) {
            self.next_token();
            Ok(())
        } else {
            match self.peek_token() {
                Some(token) => Err(
                    ParseError::UnexpectedToken(String::from_str(kind.as_str()), token.literal()),
                ),
                None => Err(ParseError::Eof),
            }
        }
    }

    // <program> := <table> <statement>* EOF
    pub fn parse(&mut self) -> (r: Result<Program, ParseError>)
        requires
            old(self).wf(),
        ensures
            final(self).wf(),
            ({
                let (sr, sp) = spec_parse_program(old(self)@);
                &&& final(self)@ == sp
                &&& match r {
                    Ok(program) => sr == Ok::<_, ParseErrV>(program.model()),
                    Err(e) => sr == Err::<Seq<StmtV>, ParseErrV>(e@),
                }
            }),
    {
        let mut statements: Vec<Statement> = Vec::new();

        match self.parse_table() {
            Ok(table) => {
                statements.push(table);
            },
            Err(e) => {
                return Err(e);
            },
        }
        proof {
            assert(crate::engine::ast::spec_stmts_model(statements@) =~= seq![
                spec_parse_table(old(self)@).0->Ok_0,
            ]);
        }

        while self.peek_is_more()
            invariant
                self.wf(),
                self@.toks == old(self)@.toks,
                spec_parse_program(old(self)@) == spec_parse_stmts(
                    self@,
                    crate::engine::ast::spec_stmts_model(statements@),
                ),
            decreases self@.toks.len() - self@.pos,
        {
            let ghost pre = self@;
            let ghost pre_models = crate::engine::ast::spec_stmts_model(statements@);
            if self.peek_token_is_query() {
                proof {
                    lemma_statement_props(pre);
                }
                match self.parse_statement() {
                    Ok(st) => {
                        statements.push(st);
                        proof {
                            assert(crate::engine::ast::spec_stmts_model(statements@)
                                =~= pre_models.push(st.model()));
                        }
                    },
                    Err(e) => {
                        return Err(e);
                    },
                }
            } else {
                let literal = match self.peek_token() {
                    Some(token) => token.literal(),
                    None => String::new(),
                };
                return Err(ParseError::InvalidMethod(literal));
            }
        }

        Ok(Program { statements })
    }

    // <table> := <identifier> ; must be followed by end-of-input or a
    // method keyword
    fn parse_table(&mut self) -> (r: Result<Statement, ParseError>)
        requires
            old(self).wf(),
        ensures
            final(self).wf(),
            ({
                let (sr, sp) = spec_parse_table(old(self)@);
                &&& final(self)@ == sp
                &&& match r {
                    Ok(stmt) => sr == Ok::<_, ParseErrV>(stmt.model()),
                    Err(e) => sr == Err::<StmtV, ParseErrV>(e@),
                }
            }),
    {
        self.next_token();

        // first statement must be table name (identifier)
        if !self.current_token_is(TokenKind::Identifire) {
            return Err(
                ParseError::UnexpectedToken(
                    String::from_str("SObject Name"),
                    self.current_token.literal(),
                ),
            );
        }

        let table_name = self.current_token.literal();
        let token = self.current_token.clone();

        match self.peek_token() {
            Some(peeked) => {
                if !(peeked.is_query_method() || matches!(peeked.kind, TokenKind::Eof)) {
                    return Err(
                        ParseError::UnexpectedToken(
                            String::from_str("query method after SObject Name"),
                            peeked.literal(),
                        ),
                    );
                }
            },
            None => {},
        }
        Ok(Statement::Table(Table { token, table_name }))
    }

    // <statement> := <select_or_groupby> | <where> | <orderby> |
    // <limit> | <open>
    fn parse_statement(&mut self) -> (r: Result<Statement, ParseError>)
        requires
            old(self).wf(),
        ensures
            final(self).wf(),
            ({
                let (sr, sp) = spec_parse_statement(old(self)@);
                &&& final(self)@ == sp
                &&& match r {
                    Ok(stmt) => sr == Ok::<_, ParseErrV>(stmt.model()),
                    Err(e) => sr == Err::<StmtV, ParseErrV>(e@),
                }
            }),
    {
        let peeked: Option<(TokenKind, String)> = match self.peek_token() {
            Some(token) => Some((token.kind, token.literal())),
            None => None,
        };
        match peeked {
            Some((kind, literal)) => match kind {
                TokenKind::Select | TokenKind::Groupby => self.parse_select_groupby_statement(),
                TokenKind::Where => self.parse_where_statement(),
                TokenKind::Orderby => self.parse_orderby_statement(),
                TokenKind::Limit => self.parse_limit_statement(),
                TokenKind::Open => self.parse_open_statement(),
                _ => Err(ParseError::InvalidMethod(literal)),
            },
            None => Err(ParseError::Eof),
        }
    }

    // <select_statement> := 'select' '(' <field> (',' <field>)* ')'
    // <groupby_statement> := 'groupby' '(' <field> (',' <field>)* ')'
    fn parse_select_groupby_statement(&mut self) -> (r: Result<Statement, ParseError>)
        requires
            old(self).wf(),
        ensures
            final(self).wf(),
            ({
                let (sr, sp) = spec_parse_select_groupby(old(self)@);
                &&& final(self)@ == sp
                &&& match r {
                    Ok(stmt) => sr == Ok::<_, ParseErrV>(stmt.model()),
                    Err(e) => sr == Err::<StmtV, ParseErrV>(e@),
                }
            }),
    {
        let token = match self.next_token() {
            Some(t) => t,
            None => {
                return Err(ParseError::Eof);
            },
        };

        match self.expect_peek(TokenKind::Lparen) {
            Ok(_) => {},
            Err(e) => {
                return Err(e);
            },
        }

        let fields = match self.parse_fields() {
            Ok(fs) => fs,
            Err(e) => {
                return Err(e);
            },
        };

        match self.expect_peek(TokenKind::Rparen) {
            Ok(_) => {},
            Err(e) => {
                return Err(e);
            },
        }

        if matches!(token.kind, TokenKind::Select) {
            Ok(Statement::Select(SelectStatement { token, fields }))
        } else {
            Ok(Statement::GroupBy(GroupByStatement { token, fields }))
        }
    }

    fn parse_where_statement(&mut self) -> (r: Result<Statement, ParseError>)
        requires
            old(self).wf(),
        ensures
            final(self).wf(),
            ({
                let (sr, sp) = spec_parse_where_statement(old(self)@);
                &&& final(self)@ == sp
                &&& match r {
                    Ok(stmt) => sr == Ok::<_, ParseErrV>(stmt.model()),
                    Err(e) => sr == Err::<StmtV, ParseErrV>(e@),
                }
            }),
    {
        let token = match self.next_token() {
            Some(t) => t,
            None => {
                return Err(ParseError::Eof);
            },
        };

        match self.expect_peek(TokenKind::Lparen) {
            Ok(_) => {},
            Err(e) => {
                return Err(e);
            },
        }

        let expression = match self.parse_where_expressions() {
            Ok(exp) => exp,
            Err(e) => {
                return Err(e);
            },
        };

        match self.expect_peek(TokenKind::Rparen) {
            Ok(_) => {},
            Err(e) => {
                return Err(e);
            },
        }

        Ok(Statement::Where(WhereStatement { token, expression }))
    }

    // <orderby_statement> := 'orderby' '(' <orderby_option> (','
    // <orderby_option>)* ')'
    fn parse_orderby_statement(&mut self) -> (r: Result<Statement, ParseError>)
        requires
            old(self).wf(),
        ensures
            final(self).wf(),
            ({
                let (sr, sp) = spec_parse_orderby_statement(old(self)@);
                &&& final(self)@ == sp
                &&& match r {
                    Ok(stmt) => sr == Ok::<_, ParseErrV>(stmt.model()),
                    Err(e) => sr == Err::<StmtV, ParseErrV>(e@),
                }
            }),
    {
        let token = match self.next_token() {
            Some(t) => t,
            None => {
                return Err(ParseError::Eof);
            },
        };

        match self.expect_peek(TokenKind::Lparen) {
            Ok(_) => {},
            Err(e) => {
                return Err(e);
            },
        }

        let options = match self.parse_orderby_options() {
            Ok(os) => os,
            Err(e) => {
                return Err(e);
            },
        };

        match self.expect_peek(TokenKind::Rparen) {
            Ok(_) => {},
            Err(e) => {
                return Err(e);
            },
        }

        Ok(Statement::OrderBy(OrderByStatement { token, options }))
    }

    // <limit_statement> := 'limit' '(' <integer> ')'
    fn parse_limit_statement(&mut self) -> (r: Result<Statement, ParseError>)
        requires
            old(self).wf(),
        ensures
            final(self).wf(),
            ({
                let (sr, sp) = spec_parse_limit_statement(old(self)@);
                &&& final(self)@ == sp
                &&& match r {
                    Ok(stmt) => sr == Ok::<_, ParseErrV>(stmt.model()),
                    Err(e) => sr == Err::<StmtV, ParseErrV>(e@),
                }
            }),
    {
        let token = match self.next_token() {
            Some(t) => t,
            None => {
                return Err(ParseError::Eof);
            },
        };

        match self.expect_peek(TokenKind::Lparen) {
            Ok(_) => {},
            Err(e) => {
                return Err(e);
            },
        }

        let limit = match self.parse_integer_literal() {
            Ok(il) => il,
            Err(e) => {
                return Err(e);
            },
        };

        match self.expect_peek(TokenKind::Rparen) {
            Ok(_) => {},
            Err(e) => {
                return Err(e);
            },
        }

        Ok(Statement::Limit(LimitStatement { token, limit }))
    }

    // <open_statement> := 'open' '(' ')'
    fn parse_open_statement(&mut self) -> (r: Result<Statement, ParseError>)
        requires
            old(self).wf(),
        ensures
            final(self).wf(),
            ({
                let (sr, sp) = spec_parse_open_statement(old(self)@);
                &&& final(self)@ == sp
                &&& match r {
                    Ok(stmt) => sr == Ok::<_, ParseErrV>(stmt.model()),
                    Err(e) => sr == Err::<StmtV, ParseErrV>(e@),
                }
            }),
    {
        let token = match self.next_token() {
            Some(t) => t,
            None => {
                return Err(ParseError::Eof);
            },
        };

        match self.expect_peek(TokenKind::Lparen) {
            Ok(_) => {},
            Err(e) => {
                return Err(e);
            },
        }
        match self.expect_peek(TokenKind::Rparen) {
            Ok(_) => {},
            Err(e) => {
                return Err(e);
            },
        }

        Ok(Statement::Open(OpenStatement { token }))
    }

    fn parse_fields(&mut self) -> (r: Result<Vec<FieldLiteral>, ParseError>)
        requires
            old(self).wf(),
        ensures
            final(self).wf(),
            ({
                let (sr, sp) = spec_parse_fields(old(self)@);
                &&& final(self)@ == sp
                &&& match r {
                    Ok(fs) => sr == Ok::<_, ParseErrV>(
                        crate::engine::ast::spec_fields_model(fs@),
                    ),
                    Err(e) => sr == Err::<Seq<FieldV>, ParseErrV>(e@),
                }
            }),
    {
        self.next_token();
        let fields: Vec<FieldLiteral> = Vec::new();
        proof {
            assert(crate::engine::ast::spec_fields_model(fields@) =~= Seq::<FieldV>::empty());
        }
        self.parse_fields_go(fields)
    }

    /// One round of the field list, carrying the fields parsed so far.
    fn parse_fields_go(&mut self, fields: Vec<FieldLiteral>) -> (r: Result<
        Vec<FieldLiteral>,
        ParseError,
    >)
        requires
            old(self).wf(),
        ensures
            final(self).wf(),
            ({
                let (sr, sp) = spec_fields_loop(
                    old(self)@,
                    crate::engine::ast::spec_fields_model(fields@),
                );
                &&& final(self)@ == sp
                &&& match r {
                    Ok(fs) => sr == Ok::<_, ParseErrV>(
                        crate::engine::ast::spec_fields_model(fs@),
                    ),
                    Err(e) => sr == Err::<Seq<FieldV>, ParseErrV>(e@),
                }
            }),
        decreases self@.toks.len() - self@.pos,
    {
        let ghost acc = crate::engine::ast::spec_fields_model(fields@);
        if self.current_token_is(TokenKind::Rparen) {
            return Ok(fields);
        }
        let field = match self.parse_field() {
            Ok(f) => f,
            Err(e) => {
                return Err(e);
            },
        };
        if self.peek_token_is(TokenKind::Rparen) {
            let mut fields = fields;
            let ghost fv = field.model();
            fields.push(field);
            proof {
                assert(crate::engine::ast::spec_fields_model(fields@) =~= acc.push(fv));
            }
            return Ok(fields);
        }
        match self.expect_peek(TokenKind::Comma) {
            Ok(_) => {},
            Err(e) => {
                return Err(e);
            },
        }
        self.next_token();
        let mut fields = fields;
        let ghost fv = field.model();
        fields.push(field);
        proof {
            assert(crate::engine::ast::spec_fields_model(fields@) =~= acc.push(fv));
        }
        self.parse_fields_go(fields)
    }

    // <field> := <identifier> | <identifier> <dot> <identifier>
    fn parse_field(&mut self) -> (r: Result<FieldLiteral, ParseError>)
        requires
            old(self).wf(),
        ensures
            final(self).wf(),
            ({
                let (sr, sp) = spec_parse_field(old(self)@);
                &&& final(self)@ == sp
                &&& match r {
                    Ok(f) => sr == Ok::<_, ParseErrV>(f.model()),
                    Err(e) => sr == Err::<FieldV, ParseErrV>(e@),
                }
            }),
    {
        let token = self.current_token.clone();
        let name = self.current_token.literal();

        if self.peek_token_is(TokenKind::Dot) {
            self.next_token();

            match self.expect_peek(TokenKind::Identifire) {
                Ok(_) => {},
                Err(e) => {
                    return Err(e);
                },
            }

            let mut full = name;
            full.append(".");
            let rest = self.current_token.literal();
            full.append(rest.as_str());
            Ok(FieldLiteral { token, name: full })
        } else {
            Ok(FieldLiteral { token, name })
        }
    }

    fn parse_orderby_options(&mut self) -> (r: Result<Vec<OrderByOptionLiteral>, ParseError>)
        requires
            old(self).wf(),
        ensures
            final(self).wf(),
            ({
                let (sr, sp) = spec_parse_orderby_options(old(self)@);
                &&& final(self)@ == sp
                &&& match r {
                    Ok(os) => sr == Ok::<_, ParseErrV>(
                        crate::engine::ast::spec_options_model(os@),
                    ),
                    Err(e) => sr == Err::<Seq<OrderByOptionV>, ParseErrV>(e@),
                }
            }),
    {
        self.next_token();
        let options: Vec<OrderByOptionLiteral> = Vec::new();
        proof {
            assert(crate::engine::ast::spec_options_model(options@)
                =~= Seq::<OrderByOptionV>::empty());
        }
        self.parse_orderby_options_go(options)
    }

    /// One round of the option list, carrying the options parsed so
    /// far; `DESC` appends a literal suffix, `ASC` contributes nothing.
    fn parse_orderby_options_go(&mut self, options: Vec<OrderByOptionLiteral>) -> (r: Result<
        Vec<OrderByOptionLiteral>,
        ParseError,
    >)
        requires
            old(self).wf(),
        ensures
            final(self).wf(),
            ({
                let (sr, sp) = spec_options_loop(
                    old(self)@,
                    crate::engine::ast::spec_options_model(options@),
                );
                &&& final(self)@ == sp
                &&& match r {
                    Ok(os) => sr == Ok::<_, ParseErrV>(
                        crate::engine::ast::spec_options_model(os@),
                    ),
                    Err(e) => sr == Err::<Seq<OrderByOptionV>, ParseErrV>(e@),
                }
            }),
        decreases self@.toks.len() - self@.pos,
    {
        let ghost acc = crate::engine::ast::spec_options_model(options@);
        if self.current_token_is(TokenKind::Rparen) {
            return Ok(options);
        }
        let field = match self.parse_field() {
            Ok(f) => f,
            Err(e) => {
                return Err(e);
            },
        };
        let mut name = field.name;
        if self.peek_token_is(TokenKind::Asc) {
            self.next_token();
        } else if self.peek_token_is(TokenKind::Desc) {
            self.next_token();
            name.append(" ");
            let suffix = self.current_token.literal();
            name.append(suffix.as_str());
            proof {
                reveal_strlit(" ");
            }
        }
        let option = OrderByOptionLiteral { token: field.token, name };

        if self.peek_token_is(TokenKind::Rparen) {
            let mut options = options;
            let ghost ov = option.model();
            options.push(option);
            proof {
                assert(crate::engine::ast::spec_options_model(options@) =~= acc.push(ov));
            }
            return Ok(options);
        }
        match self.expect_peek(TokenKind::Comma) {
            Ok(_) => {},
            Err(e) => {
                return Err(e);
            },
        }
        self.next_token();
        let mut options = options;
        let ghost ov = option.model();
        options.push(option);
        proof {
            assert(crate::engine::ast::spec_options_model(options@) =~= acc.push(ov));
        }
        self.parse_orderby_options_go(options)
    }

    // <where_expression> := <condition> | <grouped_condition>, then an
    // optional AND/OR chain whose right operand is the whole remainder
    fn parse_where_expressions(&mut self) -> (r: Result<Box<Expression>, ParseError>)
        requires
            old(self).wf(),
        ensures
            final(self).wf(),
            ({
                let (sr, sp) = spec_parse_where_exprs(old(self)@);
                &&& final(self)@ == sp
                &&& match r {
                    Ok(exp) => sr == Ok::<_, ParseErrV>(exp.model()),
                    Err(e) => sr == Err::<ExprV, ParseErrV>(e@),
                }
            }),
        decreases self@.toks.len() - self@.pos, 2int,
    {
        let ghost orig = self@;
        let peeked_kind: Option<TokenKind> = match self.peek_token() {
            Some(token) => Some(token.kind),
            None => None,
        };
        let mut left_exp: Box<Expression> = match peeked_kind {
            Some(TokenKind::Identifire) => match self.parse_condition() {
                Ok(exp) => exp,
                Err(e) => {
                    return Err(e);
                },
            },
            Some(TokenKind::Lparen) => match self.parse_grouped_condition() {
                Ok(exp) => exp,
                Err(e) => {
                    return Err(e);
                },
            },
            _ => {
                return Err(
                    ParseError::UnexpectedToken(
                        String::from_str("where clause"),
                        self.current_token.literal(),
                    ),
                );
            },
        };
        proof {
            lemma_atom_props(orig);
            lemma_where_tail_intro(orig, left_exp.model(), self@);
        }

        loop
            invariant
                self.wf(),
                self@.toks == old(self)@.toks,
                self@.pos >= old(self)@.pos,
                spec_parse_where_exprs(old(self)@) == spec_where_tail(self@, left_exp.model()),
            decreases self@.toks.len() - self@.pos,
        {
            let ghost pre = self@;
            let peeked: Option<TokenKind> = match self.peek_token() {
                Some(token) => Some(token.kind),
                None => None,
            };
            match peeked {
                Some(TokenKind::And) | Some(TokenKind::Or) => {
                    proof {
                        lemma_where_tail_props(pre, left_exp.model());
                    }
                    left_exp = match self.parse_infix_expression(left_exp) {
                        Ok(exp) => exp,
                        Err(e) => {
                            return Err(e);
                        },
                    };
                    proof {
                        assert(spec_where_tail(self@, left_exp.model()) == (
                            Ok::<_, ParseErrV>(left_exp.model()),
                            self@,
                        ));
                    }
                },
                Some(TokenKind::Rparen) | Some(TokenKind::Eof) => {
                    return Ok(left_exp);
                },
                Some(_) => {
                    return Err(
                        ParseError::UnexpectedToken(
                            String::from_str("where clause"),
                            self.current_token.literal(),
                        ),
                    );
                },
                None => {
                    return Ok(left_exp);
                },
            }
        }
    }

    // <infix_expression> := ('AND'|'OR') <where_expression>
    fn parse_infix_expression(&mut self, left: Box<Expression>) -> (r: Result<
        Box<Expression>,
        ParseError,
    >)
        requires
            old(self).wf(),
        ensures
            final(self).wf(),
            ({
                let (sr, sp) = spec_parse_infix(old(self)@, left.model());
                &&& final(self)@ == sp
                &&& match r {
                    Ok(exp) => sr == Ok::<_, ParseErrV>(exp.model()),
                    Err(e) => sr == Err::<ExprV, ParseErrV>(e@),
                }
            }),
        decreases self@.toks.len() - self@.pos, 1int,
    {
        let infix_token = match self.next_token() {
            Some(t) => t,
            None => {
                return Err(ParseError::Eof);
            },
        };
        let right = match self.parse_where_expressions() {
            Ok(exp) => exp,
            Err(e) => {
                return Err(e);
            },
        };

        let operator = infix_token.literal();
        Ok(
            Box::new(
                Expression::Infix(InfixExpression { token: infix_token, left, operator, right }),
            ),
        )
    }

    // <condition> := <field> <operator> <value>
    fn parse_condition(&mut self) -> (r: Result<Box<Expression>, ParseError>)
        requires
            old(self).wf(),
        ensures
            final(self).wf(),
            ({
                let (sr, sp) = spec_parse_condition(old(self)@);
                &&& final(self)@ == sp
                &&& match r {
                    Ok(exp) => sr == Ok::<_, ParseErrV>(exp.model()),
                    Err(e) => sr == Err::<ExprV, ParseErrV>(e@),
                }
            }),
    {
        let token = match self.next_token() {
            Some(t) => t,
            None => {
                return Err(ParseError::Eof);
            },
        };
        let field = match self.parse_field() {
            Ok(f) => f,
            Err(e) => {
                return Err(e);
            },
        };
        let operator = match self.parse_operator_literal() {
            Ok(op) => op,
            Err(e) => {
                return Err(e);
            },
        };
        let value = match self.parse_value() {
            Ok(v) => v,
            Err(e) => {
                return Err(e);
            },
        };

        Ok(Box::new(Expression::Cond(Condition { token, field, operator, value })))
    }

    // <grouped_condition> := '(' <where_expression> ')'
    fn parse_grouped_condition(&mut self) -> (r: Result<Box<Expression>, ParseError>)
        requires
            old(self).wf(),
        ensures
            final(self).wf(),
            ({
                let (sr, sp) = spec_parse_grouped(old(self)@);
                &&& final(self)@ == sp
                &&& match r {
                    Ok(exp) => sr == Ok::<_, ParseErrV>(exp.model()),
                    Err(e) => sr == Err::<ExprV, ParseErrV>(e@),
                }
            }),
        decreases self@.toks.len() - self@.pos, 0int,
    {
        match self.next_token() {
            Some(_) => {},
            None => {
                return Err(ParseError::Eof);
            },
        }

        let exp = match self.parse_where_expressions() {
            Ok(e) => e,
            Err(e) => {
                return Err(e);
            },
        };

        match self.expect_peek(TokenKind::Rparen) {
            Ok(_) => {},
            Err(e) => {
                return Err(e);
            },
        }

        Ok(exp)
    }

    fn parse_integer_literal(&mut self) -> (r: Result<IntegerLiteral, ParseError>)
        requires
            old(self).wf(),
        ensures
            final(self).wf(),
            ({
                let (sr, sp) = spec_parse_integer(old(self)@);
                &&& final(self)@ == sp
                &&& match r {
                    Ok(il) => sr == Ok::<_, ParseErrV>(il.model()),
                    Err(e) => sr == Err::<IntegerV, ParseErrV>(e@),
                }
            }),
    {
        let token = match self.next_token() {
            Some(t) => t,
            None => {
                return Err(ParseError::Eof);
            },
        };
        let literal = token.literal();
        if matches!(token.kind, TokenKind::Integer) {
            let digits = crate::engine::lexer::str_to_chars(literal.as_str());
            match crate::engine::num::digits_to_i64(&digits) {
                Some(value) => {
                    return Ok(IntegerLiteral { token, value });
                },
                None => {},
            }
        }
        Err(
            ParseError::UnexpectedToken(
                String::from_str(TokenKind::Integer.as_str()),
                literal,
            ),
        )
    }

    fn parse_operator_literal(&mut self) -> (r: Result<OperatorLiteral, ParseError>)
        requires
            old(self).wf(),
        ensures
            final(self).wf(),
            ({
                let (sr, sp) = spec_parse_operator(old(self)@);
                &&& final(self)@ == sp
                &&& match r {
                    Ok(op) => sr == Ok::<_, ParseErrV>(op.model()),
                    Err(e) => sr == Err::<OperatorV, ParseErrV>(e@),
                }
            }),
    {
        let peeked: Option<(TokenKind, String)> = match self.peek_token() {
            Some(token) => Some((token.kind, token.literal())),
            None => None,
        };
        match peeked {
            Some((kind, literal)) => {
                if matches!(
                    kind,
                    TokenKind::Eq
                        | TokenKind::NotEq
                        | TokenKind::Greater
                        | TokenKind::GreaterEq
                        | TokenKind::Less
                        | TokenKind::LessEq
                        | TokenKind::Like
                ) {
                    self.next_token();
                    Ok(
                        OperatorLiteral {
                            token: self.current_token.clone(),
                            value: self.current_token.literal(),
                        },
                    )
                } else {
                    Err(
                        ParseError::UnexpectedToken(
                            String::from_str("Operator(=, !=, >, >=, <, <=, LIKE)"),
                            literal,
                        ),
                    )
                }
            },
            None => Err(ParseError::Eof),
        }
    }

    // <value> := ['+'|'-'] (<integer> | <string> | TRUE | FALSE | NULL)
    fn parse_value(&mut self) -> (r: Result<Box<Expression>, ParseError>)
        requires
            old(self).wf(),
        ensures
            final(self).wf(),
            ({
                let (sr, sp) = spec_parse_value(old(self)@);
                &&& final(self)@ == sp
                &&& match r {
                    Ok(exp) => sr == Ok::<_, ParseErrV>(exp.model()),
                    Err(e) => sr == Err::<ExprV, ParseErrV>(e@),
                }
            }),
    {
        let peeked: Option<(TokenKind, String)> = match self.peek_token() {
            Some(token) => Some((token.kind, token.literal())),
            None => None,
        };
        match peeked {
            Some((kind, literal)) => match kind {
                TokenKind::Plus | TokenKind::Minus => self.parse_prefix_expression(),
                TokenKind::StringObject | TokenKind::Integer | TokenKind::True | TokenKind::False
                    | TokenKind::Null => {
                    self.next_token();
                    Ok(
                        Box::new(
                            Expression::Val(
                                Value {
                                    token: self.current_token.clone(),
                                    value: self.current_token.literal(),
                                },
                            ),
                        ),
                    )
                },
                _ => Err(ParseError::UnexpectedToken(String::from_str(""), literal)),
            },
            None => Err(ParseError::Eof),
        }
    }

    fn parse_prefix_expression(&mut self) -> (r: Result<Box<Expression>, ParseError>)
        requires
            old(self).wf(),
        ensures
            final(self).wf(),
            ({
                let (sr, sp) = spec_parse_prefix(old(self)@);
                &&& final(self)@ == sp
                &&& match r {
                    Ok(exp) => sr == Ok::<_, ParseErrV>(exp.model()),
                    Err(e) => sr == Err::<ExprV, ParseErrV>(e@),
                }
            }),
    {
        let token = match self.next_token() {
            Some(t) => t,
            None => {
                return Err(ParseError::Eof);
            },
        };
        let peeked: Option<(TokenKind, String)> = match self.peek_token() {
            Some(t) => Some((t.kind, t.literal())),
            None => None,
        };
        match peeked {
            Some((kind, literal)) => match kind {
                TokenKind::StringObject | TokenKind::Integer | TokenKind::True | TokenKind::False
                    | TokenKind::Null => {
                    self.next_token();
                    let value = Value {
                        token: self.current_token.clone(),
                        value: self.current_token.literal(),
                    };
                    let right = Box::new(Expression::Val(value));
                    proof {
                        assert(right.model() == (ExprV::Val {
                            token: self.current_token@,
                            value: self.current_token@.literal,
                        }));
                    }
                    let operator = token.literal();
                    Ok(
                        Box::new(
                            Expression::Prefix(PrefixExpression { token, operator, right }),
                        ),
                    )
                },
                _ => Err(ParseError::UnexpectedToken(String::from_str(""), literal)),
            },
            None => Err(ParseError::Eof),
        }
    }
}

/// The atom of a where-expression keeps the cursor inside the token
/// sequence and never moves it backward.
proof fn lemma_atom_props(p: ParserV)
    requires
        pv_wf(p),
    ensures
        ({
            let (r, p1) = spec_parse_condition(p);
            &&& pv_wf(p1)
            &&& p1.pos >= p.pos
            &&& p1.toks == p.toks
        }),
        ({
            let (r, p1) = spec_parse_grouped(p);
            &&& pv_wf(p1)
            &&& p1.pos >= p.pos
            &&& p1.toks == p.toks
        }),
{
    match spec_peek(p) {
        Some(t) => {
            let p1 = spec_next(p);
            lemma_value_props(spec_parse_operator(spec_parse_field(p1).1).1);
            lemma_where_props(p, ExprV::Boolean { token: t, value: true });
        },
        None => (),
    }
}

/// After a successful atom, the whole where-expression is exactly the
/// atom followed by its tail.
proof fn lemma_where_tail_intro(orig: ParserV, left: ExprV, p1: ParserV)
    requires
        pv_wf(orig),
        pv_wf(p1),
        p1.toks == orig.toks,
        p1.pos >= orig.pos,
        ({
            let (rl, pa) = match spec_peek(orig) {
                Some(t) => match t.kind {
                    TokenKind::Identifire => spec_parse_condition(orig),
                    TokenKind::Lparen => spec_parse_grouped(orig),
                    _ => (
                        Err(ParseErrV::UnexpectedToken("where clause"@, orig.cur.literal)),
                        orig,
                    ),
                },
                None => (Err(ParseErrV::UnexpectedToken("where clause"@, orig.cur.literal)), orig),
            };
            rl == Ok::<_, ParseErrV>(left) && pa == p1
        }),
    ensures
        spec_parse_where_exprs(orig) == spec_where_tail(p1, left),
{
}

} // verus!
