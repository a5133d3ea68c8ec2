//! Round-trip laws of the where-expression grammar.
//!
//! The rendering of a where-expression is always fully explicit: every
//! infix chain is parenthesized, every condition keeps its lexical
//! texts. This module proves the re-parsing half of that property at
//! the token level: feeding the token form of a rendered
//! where-expression back to the parser returns the expression
//! unchanged, so its rendering is identical. (That the tokenizer turns
//! the rendered text into exactly this token form is not proved here.)

use vstd::prelude::*;

use crate::engine::ast::{ExprV, FieldV, OperatorV};
use crate::engine::parse::{
    ParseErrV, ParserV, pv_wf, spec_next, spec_parse_condition, spec_parse_field,
    spec_parse_grouped, spec_parse_infix, spec_parse_operator, spec_parse_prefix,
    spec_parse_value, spec_parse_where_exprs, spec_peek, spec_where_tail,
};
use crate::engine::token::{TokenKind, TokenV, is_condition_op_kind};

verus! {

/// The tokens `ts` stand in `p`'s token sequence at the cursor.
pub open spec fn tokens_at(p: ParserV, ts: Seq<TokenV>) -> bool {
    &&& p.pos + ts.len() <= p.toks.len()
    &&& forall|k: int| 0 <= k < ts.len() ==> p.toks[p.pos + k] == ts[k]
}

/// After the tokens at the cursor, the sequence ends or a closing
/// parenthesis or end-of-input token follows, so a where-expression
/// parse stops there.
pub open spec fn closed_after(p: ParserV, n: int) -> bool {
    ||| p.pos + n == p.toks.len()
    ||| (p.pos + n < p.toks.len() && (p.toks[p.pos + n].kind == TokenKind::Rparen || p.toks[p.pos
        + n].kind == TokenKind::Eof))
}

/// A field as the parser builds it: its token is an identifier, and
/// its name is either that token's text alone or that text, a dot and
/// a second identifier's text.
pub open spec fn wf_field(f: FieldV) -> bool {
    &&& f.token.kind == TokenKind::Identifire
    &&& (f.name == f.token.literal || exists|t2: TokenV|
        #[trigger] field_ext(f, t2))
}

/// Whether `t2` is an identifier token extending `f`'s name.
pub open spec fn field_ext(f: FieldV, t2: TokenV) -> bool {
    t2.kind == TokenKind::Identifire && f.name == f.token.literal + "."@ + t2.literal
}

/// The token form of a field: one identifier, or identifier, dot,
/// identifier.
pub open spec fn field_tokens(f: FieldV) -> Seq<TokenV> {
    if f.name == f.token.literal {
        seq![f.token]
    } else {
        seq![
            f.token,
            TokenV { kind: TokenKind::Dot, literal: "."@ },
            choose|t2: TokenV| #[trigger] field_ext(f, t2),
        ]
    }
}

/// An operator as the parser builds it: a condition-operator token
/// whose text is the operator's value.
pub open spec fn wf_operator(o: OperatorV) -> bool {
    &&& is_condition_op_kind(o.token.kind)
    &&& o.value == o.token.literal
}

/// A value as the parser builds it: a bare value token, or a single
/// sign applied to one bare value token.
pub open spec fn wf_value(v: ExprV) -> bool
    decreases v,
{
    match v {
        ExprV::Val { token, value } => {
            &&& value == token.literal
            &&& (token.kind == TokenKind::StringObject || token.kind == TokenKind::Integer
                || token.kind == TokenKind::True || token.kind == TokenKind::False || token.kind
                == TokenKind::Null)
        },
        ExprV::Prefix { token, operator, right } => {
            &&& (token.kind == TokenKind::Plus || token.kind == TokenKind::Minus)
            &&& operator == token.literal
            &&& *right is Val
            &&& wf_value(*right)
        },
        _ => false,
    }
}

/// The token form of a value: its sign tokens, then its value token.
pub open spec fn value_tokens(v: ExprV) -> Seq<TokenV>
    decreases v,
{
    match v {
        ExprV::Val { token, .. } => seq![token],
        ExprV::Prefix { token, right, .. } => seq![token] + value_tokens(*right),
        _ => Seq::empty(),
    }
}

/// A condition as the parser builds it: its token is the field's
/// leading token, and field, operator and value are each well-formed.
pub open spec fn wf_cond(c: ExprV) -> bool {
    match c {
        ExprV::Cond { token, field, operator, value } => {
            &&& token == field.token
            &&& wf_field(field)
            &&& wf_operator(operator)
            &&& wf_value(*value)
        },
        _ => false,
    }
}

/// The token form of a condition: field, operator, value.
pub open spec fn cond_tokens(c: ExprV) -> Seq<TokenV> {
    match c {
        ExprV::Cond { field, operator, value, .. } => field_tokens(field) + seq![operator.token]
            + value_tokens(*value),
        _ => Seq::empty(),
    }
}

/// Instantiate `tokens_at` at one index.
proof fn peek_at(p: ParserV, ts: Seq<TokenV>, k: int)
    requires
        tokens_at(p, ts),
        0 <= k < ts.len(),
    ensures
        p.pos + k < p.toks.len(),
        p.toks[p.pos + k] == ts[k],
{
}

/// The token form of a well-formed value is never empty.
proof fn lemma_value_tokens_len(v: ExprV)
    requires
        wf_value(v),
    ensures
        value_tokens(v).len() >= 1,
    decreases v,
{
    match v {
        ExprV::Prefix { right, .. } => lemma_value_tokens_len(*right),
        _ => (),
    }
}

/// Parsing the token form of a well-formed value returns it
/// unchanged, the cursor just past it and the value's last token
/// current.
pub proof fn lemma_value_round(v: ExprV, p: ParserV)
    requires
        pv_wf(p),
        wf_value(v),
        tokens_at(p, value_tokens(v)),
    ensures
        ({
            let (r, p1) = spec_parse_value(p);
            &&& r == Ok::<_, ParseErrV>(v)
            &&& p1.toks == p.toks
            &&& p1.pos == p.pos + value_tokens(v).len()
            &&& p1.cur == value_tokens(v).last()
        }),
    decreases v,
{
    match v {
        ExprV::Val { token, value } => {
            peek_at(p, value_tokens(v), 0);
            assert(spec_peek(p) == Some(token));
        },
        ExprV::Prefix { token, operator, right } => {
            match *right {
                ExprV::Val { token: u, value: uval } => {
                    reveal_with_fuel(value_tokens, 2);
                    reveal_with_fuel(wf_value, 2);
                    assert(value_tokens(v) =~= seq![token, u]);
                    peek_at(p, value_tokens(v), 0);
                    peek_at(p, value_tokens(v), 1);
                    assert(spec_peek(p) == Some(token));
                    let p1 = spec_next(p);
                    assert(spec_peek(p1) == Some(u));
                },
                _ => (),
            }
        },
        _ => (),
    }
}

/// Parsing the token form of a well-formed condition returns it
/// unchanged.
pub proof fn lemma_cond_round(c: ExprV, p: ParserV)
    requires
        pv_wf(p),
        wf_cond(c),
        tokens_at(p, cond_tokens(c)),
    ensures
        ({
            let (r, p1) = spec_parse_condition(p);
            &&& r == Ok::<_, ParseErrV>(c)
            &&& p1.toks == p.toks
            &&& p1.pos == p.pos + cond_tokens(c).len()
        }),
{
    match c {
        ExprV::Cond { token, field, operator, value } => {
            let fts = field_tokens(field);
            let ts = cond_tokens(c);
            lemma_value_tokens_len(*value);
            assert(ts[0] == field.token);
            peek_at(p, ts, 0);
            assert(spec_peek(p) == Some(field.token));
            let p1 = spec_next(p);
            // the field: one identifier, or identifier-dot-identifier
            if field.name == field.token.literal {
                assert(ts[1] == operator.token);
                peek_at(p, ts, 1);
                assert(spec_peek(p1) == Some(operator.token));
                // an operator token never reads as a dot
                assert(spec_parse_field(p1) == (
                    Ok::<_, ParseErrV>(FieldV { token: field.token, name: field.token.literal }),
                    p1,
                ));
                assert(FieldV { token: field.token, name: field.token.literal } == field);
                let p2 = p1;
                assert(spec_peek(p2) == Some(operator.token));
                let p3 = spec_next(p2);
                assert(spec_parse_operator(p2) == (
                    Ok::<_, ParseErrV>(OperatorV { token: operator.token, value: operator.token.literal }),
                    p3,
                ));
                assert(OperatorV { token: operator.token, value: operator.token.literal }
                    == operator);
                assert(tokens_at(p3, value_tokens(*value))) by {
                    assert(forall|k: int|
                        0 <= k < value_tokens(*value).len() ==> p3.toks[p3.pos + k] == ts[k + 2]
                            && ts[k + 2] == value_tokens(*value)[k]);
                }
                lemma_value_round(*value, p3);
            } else {
                let t2 = choose|t2: TokenV| #[trigger] field_ext(field, t2);
                assert(field_ext(field, t2));
                assert(ts[1] == fts[1]);
                assert(ts[2] == t2);
                assert(ts[3] == operator.token);
                peek_at(p, ts, 1);
                peek_at(p, ts, 2);
                peek_at(p, ts, 3);
                assert(spec_peek(p1) == Some(fts[1]));
                assert(fts[1].kind == TokenKind::Dot);
                let pd = spec_next(p1);
                assert(spec_peek(pd) == Some(t2));
                let pf = spec_next(pd);
                assert(spec_parse_field(p1) == (
                    Ok::<_, ParseErrV>(
                        FieldV {
                            token: field.token,
                            name: field.token.literal + "."@ + t2.literal,
                        },
                    ),
                    pf,
                ));
                assert(FieldV { token: field.token, name: field.token.literal + "."@ + t2.literal }
                    == field);
                assert(spec_peek(pf) == Some(operator.token));
                let p3 = spec_next(pf);
                assert(spec_parse_operator(pf) == (
                    Ok::<_, ParseErrV>(OperatorV { token: operator.token, value: operator.token.literal }),
                    p3,
                ));
                assert(OperatorV { token: operator.token, value: operator.token.literal }
                    == operator);
                assert(tokens_at(p3, value_tokens(*value))) by {
                    assert(forall|k: int|
                        0 <= k < value_tokens(*value).len() ==> p3.toks[p3.pos + k] == ts[k + 4]
                            && ts[k + 4] == value_tokens(*value)[k]);
                }
                lemma_value_round(*value, p3);
            }
        },
        _ => (),
    }
}


/// An atom as the parser builds it: a condition, or a whole chain
/// that stood in parentheses.
pub open spec fn wf_atom(e: ExprV) -> bool
    decreases e, 1int,
{
    match e {
        ExprV::Infix { .. } => wf_where_expr(e),
        _ => wf_cond(e),
    }
}

/// A where-expression as the parser builds it: a condition, or an
/// `AND`/`OR` node whose left operand is an atom and whose right
/// operand is the whole remaining chain.
pub open spec fn wf_where_expr(e: ExprV) -> bool
    decreases e, 0int,
{
    match e {
        ExprV::Infix { token, left, operator, right } => {
            &&& (token.kind == TokenKind::And || token.kind == TokenKind::Or)
            &&& operator == token.literal
            &&& wf_atom(*left)
            &&& wf_where_expr(*right)
        },
        _ => wf_cond(e),
    }
}

/// The token form of an atom: a condition's tokens, or a chain's
/// tokens wrapped in parentheses (an infix is always rendered
/// parenthesized).
pub open spec fn atom_tokens(e: ExprV) -> Seq<TokenV>
    decreases e, 1int,
{
    match e {
        ExprV::Infix { .. } => seq![TokenV { kind: TokenKind::Lparen, literal: "("@ }]
            + where_tokens(e) + seq![TokenV { kind: TokenKind::Rparen, literal: ")"@ }],
        _ => cond_tokens(e),
    }
}

/// The token form of a where-expression: the first atom, then the
/// operator and the rest of the chain.
pub open spec fn where_tokens(e: ExprV) -> Seq<TokenV>
    decreases e, 0int,
{
    match e {
        ExprV::Infix { token, left, right, .. } => atom_tokens(*left) + seq![token]
            + where_tokens(*right),
        _ => cond_tokens(e),
    }
}

/// Token forms are never empty.
proof fn lemma_where_tokens_len(e: ExprV)
    requires
        wf_where_expr(e) || wf_atom(e),
    ensures
        where_tokens(e).len() >= 1 || !wf_where_expr(e),
        atom_tokens(e).len() >= 1 || !wf_atom(e),
    decreases e,
{
    match e {
        ExprV::Infix { left, right, .. } => {
            lemma_where_tokens_len(*left);
            lemma_where_tokens_len(*right);
        },
        ExprV::Cond { value, .. } => {
            if wf_cond(e) {
                lemma_value_tokens_len(*value);
            }
        },
        _ => (),
    }
}

/// Parsing the token form of a well-formed atom returns it unchanged:
/// through the condition production when it is a condition, through
/// the grouped production when it is a parenthesized chain.
proof fn lemma_atom_round(e: ExprV, p: ParserV)
    requires
        pv_wf(p),
        wf_atom(e),
        tokens_at(p, atom_tokens(e)),
    ensures
        ({
            let (r, p1) = match e {
                ExprV::Infix { .. } => crate::engine::parse::spec_parse_grouped(p),
                _ => spec_parse_condition(p),
            };
            &&& r == Ok::<_, ParseErrV>(e)
            &&& p1.toks == p.toks
            &&& p1.pos == p.pos + atom_tokens(e).len()
        }),
    decreases e, 1int,
{
    match e {
        ExprV::Infix { .. } => {
            let ats = atom_tokens(e);
            let wts = where_tokens(e);
            lemma_where_tokens_len(e);
            peek_at(p, ats, 0);
            let p1 = spec_next(p);
            assert forall|k: int| 0 <= k < wts.len() implies p1.toks[p1.pos + k] == wts[k] by {
                peek_at(p, ats, k + 1);
                assert(ats[k + 1] == wts[k]);
            }
            assert(tokens_at(p1, wts));
            peek_at(p, ats, wts.len() as int + 1);
            assert(closed_after(p1, wts.len() as int));
            lemma_where_round(e, p1);
            let p2 = spec_parse_where_exprs(p1).1;
            assert(spec_peek(p2) == Some(ats[wts.len() as int + 1]));
        },
        _ => {
            lemma_cond_round(e, p);
        },
    }
}

/// Parsing the token form of a well-formed where-expression, with a
/// closing parenthesis or the end of input after it, returns the
/// expression unchanged; its rendering is therefore identical. This is
/// the re-parsing half of the round-trip property: that the tokenizer
/// turns the rendered text into exactly this token form is not proved
/// here.
pub proof fn lemma_where_round(e: ExprV, p: ParserV)
    requires
        pv_wf(p),
        wf_where_expr(e),
        tokens_at(p, where_tokens(e)),
        closed_after(p, where_tokens(e).len() as int),
    ensures
        ({
            let (r, p1) = spec_parse_where_exprs(p);
            &&& r == Ok::<_, ParseErrV>(e)
            &&& p1.toks == p.toks
            &&& p1.pos == p.pos + where_tokens(e).len()
            &&& pv_wf(p1)
        }),
    decreases e, 0int,
{
    match e {
        ExprV::Infix { token, left, operator, right } => {
            let wts = where_tokens(e);
            let alen = atom_tokens(*left).len() as int;
            lemma_where_tokens_len(*left);
            lemma_where_tokens_len(*right);
            peek_at(p, wts, 0);
            assert(wts[0] == atom_tokens(*left)[0]);
            assert forall|k: int| 0 <= k < alen implies p.toks[p.pos + k] == atom_tokens(
                *left,
            )[k] by {
                peek_at(p, wts, k);
                assert(wts[k] == atom_tokens(*left)[k]);
            }
            assert(tokens_at(p, atom_tokens(*left)));
            lemma_atom_round(*left, p);
            let p1 = match *left {
                ExprV::Infix { .. } => crate::engine::parse::spec_parse_grouped(p).1,
                _ => spec_parse_condition(p).1,
            };
            assert(pv_wf(p1));
            peek_at(p, wts, alen);
            assert(wts[alen] == token);
            assert(spec_peek(p1) == Some(token));
            let p2 = spec_next(p1);
            assert forall|k: int| 0 <= k < where_tokens(*right).len() implies p2.toks[p2.pos + k]
                == where_tokens(*right)[k] by {
                peek_at(p, wts, k + alen + 1);
                assert(wts[k + alen + 1] == where_tokens(*right)[k]);
            }
            assert(tokens_at(p2, where_tokens(*right)));
            assert(closed_after(p2, where_tokens(*right).len() as int));
            lemma_where_round(*right, p2);
            let p3 = spec_parse_where_exprs(p2).1;
            assert(crate::engine::parse::spec_parse_infix(p1, *left) == (
                Ok::<_, ParseErrV>(e),
                p3,
            ));
            assert(crate::engine::parse::spec_where_tail(p1, *left) == (
                Ok::<_, ParseErrV>(e),
                p3,
            ));
            // the first atom enters through the arm its leading token selects
            match *left {
                ExprV::Infix { .. } => {
                    assert(wts[0].kind == TokenKind::Lparen);
                },
                ExprV::Cond { field: f2, .. } => {
                    assert(wf_atom(*left));
                    reveal_with_fuel(wf_atom, 2);
                    assert(wf_cond(*left));
                    assert(wf_field(f2));
                    assert(atom_tokens(*left)[0] == f2.token);
                    assert(wts[0].kind == TokenKind::Identifire);
                },
                _ => (),
            }
            assert(spec_parse_where_exprs(p) == (Ok::<_, ParseErrV>(e), p3));
        },
        _ => {
            let wts = where_tokens(e);
            peek_at(p, wts, 0);
            lemma_cond_round(e, p);
            let p1 = spec_parse_condition(p).1;
            // the chain ends here: a closing parenthesis, the
            // end-of-input token, or nothing follows
            assert(spec_parse_where_exprs(p) == (Ok::<_, ParseErrV>(e), p1));
        },
    }
}


/// An atom is well-formed exactly when it is well-formed as a whole
/// chain: both notions agree on conditions and on infix nodes.
pub proof fn lemma_wf_atom_is_wf_where(e: ExprV)
    ensures
        wf_atom(e) == wf_where_expr(e),
{
}

/// Every value the parser accepts is well-formed.
proof fn lemma_value_wf(p: ParserV)
    requires
        pv_wf(p),
    ensures
        ({
            let (r, p1) = spec_parse_value(p);
            r matches Ok(v) ==> wf_value(v)
        }),
        match spec_peek(p) {
            Some(t) => (t.kind == TokenKind::Plus || t.kind == TokenKind::Minus) ==> ({
                let (r, p1) = spec_parse_prefix(p);
                r matches Ok(v) ==> wf_value(v)
            }),
            None => true,
        },
    decreases p.toks.len() - p.pos,
{
    match spec_peek(p) {
        Some(t) => {
            let p1 = spec_next(p);
            lemma_value_wf(p1);
        },
        None => (),
    }
}

/// Every condition the parser accepts, entered at an identifier
/// token, is well-formed.
proof fn lemma_cond_wf(p: ParserV)
    requires
        pv_wf(p),
        match spec_peek(p) {
            Some(t) => t.kind == TokenKind::Identifire,
            None => true,
        },
    ensures
        ({
            let (r, p1) = spec_parse_condition(p);
            r matches Ok(c) ==> wf_cond(c)
        }),
{
    match spec_peek(p) {
        Some(t) => {
            let p1 = spec_next(p);
            let (rf, p2) = spec_parse_field(p1);
            match rf {
                Ok(f) => {
                    // the field's leading token is the identifier just
                    // consumed; a second identifier extends the name
                    if spec_peek(p1) matches Some(d) && spec_peek(p1)->0.kind == TokenKind::Dot {
                        match spec_peek(spec_next(p1)) {
                            Some(t2) => {
                                if t2.kind == TokenKind::Identifire {
                                    assert(field_ext(f, t2));
                                }
                            },
                            None => (),
                        }
                    }
                    assert(wf_field(f));
                    let (ro, p3) = spec_parse_operator(p2);
                    match ro {
                        Ok(_) => lemma_value_wf(p3),
                        Err(_) => (),
                    }
                },
                Err(_) => (),
            }
        },
        None => (),
    }
}

/// Every where-expression the parser accepts is well-formed, so the
/// round-trip law applies to it.
pub proof fn lemma_parsed_wf(p: ParserV)
    requires
        pv_wf(p),
    ensures
        ({
            let (r, p1) = spec_parse_where_exprs(p);
            r matches Ok(e) ==> wf_where_expr(e)
        }),
    decreases p.toks.len() - p.pos, 2int,
{
    let (rl, p1) = match spec_peek(p) {
        Some(t) => match t.kind {
            TokenKind::Identifire => spec_parse_condition(p),
            TokenKind::Lparen => spec_parse_grouped(p),
            _ => (Err(ParseErrV::UnexpectedToken("where clause"@, p.cur.literal)), p),
        },
        None => (Err(ParseErrV::UnexpectedToken("where clause"@, p.cur.literal)), p),
    };
    match spec_peek(p) {
        Some(t) => {
            if t.kind == TokenKind::Identifire {
                lemma_cond_wf(p);
            } else if t.kind == TokenKind::Lparen {
                lemma_grouped_wf(p);
            }
        },
        None => (),
    }
    match rl {
        Ok(left) => {
            lemma_wf_atom_is_wf_where(left);
            if pv_wf(p1) && p1.toks == p.toks && p1.pos >= p.pos {
                lemma_tail_wf(p1, left);
            }
        },
        Err(_) => (),
    }
}

/// What follows an atom keeps well-formedness: the chain either stops
/// at the atom or extends it by a well-formed remainder.
proof fn lemma_tail_wf(p: ParserV, left: ExprV)
    requires
        pv_wf(p),
        wf_atom(left),
    ensures
        ({
            let (r, p1) = spec_where_tail(p, left);
            r matches Ok(e) ==> wf_where_expr(e)
        }),
        match spec_peek(p) {
            Some(t) => (t.kind == TokenKind::And || t.kind == TokenKind::Or) ==> ({
                let (r, p1) = spec_parse_infix(p, left);
                r matches Ok(e) ==> wf_where_expr(e)
            }),
            None => true,
        },
    decreases p.toks.len() - p.pos, 1int,
{
    lemma_wf_atom_is_wf_where(left);
    match spec_peek(p) {
        Some(t) => {
            let p1 = spec_next(p);
            lemma_parsed_wf(p1);
            let (rr, p2) = spec_parse_where_exprs(p1);
            match rr {
                Ok(right) => {
                    if t.kind == TokenKind::And || t.kind == TokenKind::Or {
                        assert(wf_where_expr(
                            ExprV::Infix {
                                token: t,
                                left: Box::new(left),
                                operator: t.literal,
                                right: Box::new(right),
                            },
                        ));
                    }
                },
                Err(_) => (),
            }
        },
        None => (),
    }
}

/// A parenthesized chain keeps well-formedness.
proof fn lemma_grouped_wf(p: ParserV)
    requires
        pv_wf(p),
    ensures
        ({
            let (r, p1) = spec_parse_grouped(p);
            r matches Ok(e) ==> wf_where_expr(e)
        }),
    decreases p.toks.len() - p.pos, 0int,
{
    match spec_peek(p) {
        Some(_) => {
            let p1 = spec_next(p);
            lemma_parsed_wf(p1);
        },
        None => (),
    }
}

/// The round-trip law, stated of the parser's own output: a
/// where-expression the parser accepted, fed back to the parser in
/// its token form, parses to the same expression, so its rendering is
/// identical. (The unproved remainder of the full property is that
/// tokenizing the rendered text yields exactly this token form.)
pub proof fn lemma_parsed_where_round_trip(p: ParserV, q: ParserV)
    requires
        pv_wf(p),
        pv_wf(q),
        spec_parse_where_exprs(p).0 is Ok,
        tokens_at(q, where_tokens(spec_parse_where_exprs(p).0->Ok_0)),
        closed_after(q, where_tokens(spec_parse_where_exprs(p).0->Ok_0).len() as int),
    ensures
        spec_parse_where_exprs(q).0 == spec_parse_where_exprs(p).0,
        crate::engine::ast::spec_render_expr(spec_parse_where_exprs(q).0->Ok_0)
            == crate::engine::ast::spec_render_expr(spec_parse_where_exprs(p).0->Ok_0),
{
    lemma_parsed_wf(p);
    lemma_where_round(spec_parse_where_exprs(p).0->Ok_0, q);
}

} // verus!
