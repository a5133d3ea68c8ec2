//! The compiler pipeline: text -> tokens -> AST -> query string + flag.

pub mod ast;
pub mod laws;
pub mod lexer;
pub mod num;
pub mod parse;
pub mod parser;
pub mod querygen;
pub mod token;

use vstd::prelude::*;

use crate::engine::lexer::{LexErrV, LexError, spec_lex, tokenize};
use crate::engine::parse::{ParseErrV, ParseError, Parser, ParserV, spec_parse_program};
use crate::engine::querygen::{Query, spec_eval, spec_generate, spec_query_empty};
use crate::engine::token::{TokenKind, TokenV};

verus! {

/// Any failure of the compilation pipeline: a lexical sequencing
/// violation, or a parse error.
#[derive(Debug, PartialEq)]
pub enum QueryError {
    Lex(LexError),
    Parse(ParseError),
}

/// The specification-level image of a [`QueryError`].
pub ghost enum QueryErrV {
    Lex(LexErrV),
    Parse(ParseErrV),
}

impl View for QueryError {
    type V = QueryErrV;

    open spec fn view(&self) -> QueryErrV {
        match self {
            QueryError::Lex(e) => QueryErrV::Lex(e@),
            QueryError::Parse(e) => QueryErrV::Parse(e@),
        }
    }
}

impl QueryError {
    /// A human-readable description of the failure.
    pub fn describe(&self) -> (r: String)
        ensures
            r@ == match self@ {
                QueryErrV::Lex(_) => "Syntax error: the word before the query method must be a dot"@,
                QueryErrV::Parse(e) => match e {
                    ParseErrV::UnexpectedToken(expected, got) => "Unexpected token: expected "@
                        + expected + ". got '"@ + got + "'"@,
                    ParseErrV::InvalidMethod(m) => "Invalid method: "@ + m,
                    ParseErrV::Eof => "Unexpected EOF"@,
                },
            },
    {
        match self {
            QueryError::Lex(e) => e.describe(),
            QueryError::Parse(e) => e.describe(),
        }
    }
}

/// The whole pipeline on one input line: its token sequence, parsed
/// into a program, folded into an accumulator, rendered as query text,
/// paired with the open-in-browser flag; or the first error met.
pub open spec fn spec_build_query(input: Seq<char>) -> Result<(Seq<char>, bool), QueryErrV> {
    match spec_lex(input, 0, Seq::empty()) {
        Err(e) => Err(QueryErrV::Lex(e)),
        Ok(toks) => {
            let p0 = ParserV {
                toks,
                pos: 0,
                cur: TokenV { kind: TokenKind::Illegal, literal: Seq::empty() },
            };
            match spec_parse_program(p0).0 {
                Err(e) => Err(QueryErrV::Parse(e)),
                Ok(stmts) => {
                    let q = spec_eval(spec_query_empty(), stmts);
                    Ok((spec_generate(q), q.open_browser))
                },
            }
        },
    }
}

/// Compile one line of the fluent expression language into the query
/// text and the open-in-browser flag, or the first typed error met.
pub fn build_query(expr: &str) -> (r: Result<(String, bool), QueryError>)
    ensures
        match r {
            Ok(out) => spec_build_query(expr@) == Ok::<_, QueryErrV>((out.0@, out.1)),
            Err(e) => spec_build_query(expr@) == Err::<(Seq<char>, bool), _>(e@),
        },
{
    let tokens = match tokenize(expr) {
        Ok(t) => t,
        Err(e) => {
            return Err(QueryError::Lex(e));
        },
    };
    let mut parser = Parser::new(tokens);
    let program = match parser.parse() {
        Ok(p) => p,
        Err(e) => {
            return Err(QueryError::Parse(e));
        },
    };

    let mut query = Query::default();
    query.evaluate(program);
    let generated = query.generate();

    Ok((generated, query.open_browser))
}

} // verus!
