//! The token model: token kinds, keyword classification and the
//! predicates the parser dispatches on.

use vstd::prelude::*;

verus! {

/// The lexical classification of a token.
#[derive(Debug, Clone, Copy, PartialEq, Eq, Structural)]
pub enum TokenKind {
    Eof,
    Illegal,
    Comma,
    Dot,
    Lparen,
    Rparen,
    Integer,
    Identifire,
    StringObject,
    Plus,
    Minus,
    // Methods
    Select,
    Where,
    Orderby,
    Groupby,
    Limit,
    Open,
    // Method Operators
    And,
    Or,
    Like,
    Eq,
    NotEq,
    Greater,
    GreaterEq,
    Less,
    LessEq,
    True,
    False,
    Null,
    // Orderby Option
    Asc,
    Desc,
}

/// True of the five query-method keywords plus `groupby`.
pub open spec fn is_query_kind(k: TokenKind) -> bool {
    ||| k == TokenKind::Select
    ||| k == TokenKind::Where
    ||| k == TokenKind::Orderby
    ||| k == TokenKind::Groupby
    ||| k == TokenKind::Limit
    ||| k == TokenKind::Open
}

/// True of the seven operators the condition production accepts:
/// `=`, `!=`, `>`, `>=`, `<`, `<=`, `LIKE`.
pub open spec fn is_condition_op_kind(k: TokenKind) -> bool {
    ||| k == TokenKind::Eq
    ||| k == TokenKind::NotEq
    ||| k == TokenKind::Greater
    ||| k == TokenKind::GreaterEq
    ||| k == TokenKind::Less
    ||| k == TokenKind::LessEq
    ||| k == TokenKind::Like
}

/// True of the operator keywords and symbols taken together, the set
/// the token predicate `Token::is_operator` answers for.
pub open spec fn is_operator_kind(k: TokenKind) -> bool {
    ||| k == TokenKind::Or
    ||| k == TokenKind::And
    ||| k == TokenKind::Eq
    ||| k == TokenKind::NotEq
    ||| k == TokenKind::Greater
    ||| k == TokenKind::GreaterEq
    ||| k == TokenKind::Less
    ||| k == TokenKind::LessEq
    ||| k == TokenKind::Like
}

impl TokenKind {
    /// The display text of this kind, used in parse-error messages.
    pub open spec fn spec_str(self) -> Seq<char> {
        match self {
            TokenKind::Eof => "EOF"@,
            TokenKind::Illegal => "ILLEGAL"@,
            TokenKind::Comma => ","@,
            TokenKind::Dot => "."@,
            TokenKind::Lparen => "("@,
            TokenKind::Rparen => ")"@,
            TokenKind::Integer => "INTEGER"@,
            TokenKind::Identifire => "IDENTIFIRE"@,
            TokenKind::StringObject => "STRING"@,
            TokenKind::Plus => "+"@,
            TokenKind::Minus => "-"@,
            TokenKind::Select => "SELECT"@,
            TokenKind::Where => "WHERE"@,
            TokenKind::Orderby => "ORDERBY"@,
            TokenKind::Groupby => "GROUPBY"@,
            TokenKind::Limit => "LIMIT"@,
            TokenKind::Open => "OPEN"@,
            TokenKind::And => "AND"@,
            TokenKind::Or => "OR"@,
            TokenKind::Like => "LIKE"@,
            TokenKind::Eq => "="@,
            TokenKind::NotEq => "!="@,
            TokenKind::Greater => ">"@,
            TokenKind::GreaterEq => ">="@,
            TokenKind::Less => "<"@,
            TokenKind::LessEq => "<="@,
            TokenKind::True => "TRUE"@,
            TokenKind::False => "FALSE"@,
            TokenKind::Null => "NULL"@,
            TokenKind::Asc => "ASC"@,
            TokenKind::Desc => "DESC"@,
        }
    }

    /// The display text of this kind, used in parse-error messages.
    pub fn as_str(&self) -> (r: &'static str)
        ensures
            r@ == self.spec_str(),
    {
        match self {
            TokenKind::Eof => "EOF",
            TokenKind::Illegal => "ILLEGAL",
            TokenKind::Comma => ",",
            TokenKind::Dot => ".",
            TokenKind::Lparen => "(",
            TokenKind::Rparen => ")",
            TokenKind::Integer => "INTEGER",
            TokenKind::Identifire => "IDENTIFIRE",
            TokenKind::StringObject => "STRING",
            TokenKind::Plus => "+",
            TokenKind::Minus => "-",
            TokenKind::Select => "SELECT",
            TokenKind::Where => "WHERE",
            TokenKind::Orderby => "ORDERBY",
            TokenKind::Groupby => "GROUPBY",
            TokenKind::Limit => "LIMIT",
            TokenKind::Open => "OPEN",
            TokenKind::And => "AND",
            TokenKind::Or => "OR",
            TokenKind::Like => "LIKE",
            TokenKind::Eq => "=",
            TokenKind::NotEq => "!=",
            TokenKind::Greater => ">",
            TokenKind::GreaterEq => ">=",
            TokenKind::Less => "<",
            TokenKind::LessEq => "<=",
            TokenKind::True => "TRUE",
            TokenKind::False => "FALSE",
            TokenKind::Null => "NULL",
            TokenKind::Asc => "ASC",
            TokenKind::Desc => "DESC",
        }
    }
}

/// The specification-level image of a [`Token`]: its kind and the
/// characters of its literal text.
pub ghost struct TokenV {
    pub kind: TokenKind,
    pub literal: Seq<char>,
}

/// A classified lexical unit: a kind plus the literal text it was made
/// from. Immutable once created.
#[derive(Debug, PartialEq)]
pub struct Token {
    pub kind: TokenKind,
    pub literal: String,
}

impl View for Token {
    type V = TokenV;

    open spec fn view(&self) -> TokenV {
        TokenV { kind: self.kind, literal: self.literal@ }
    }
}

impl DeepView for Token {
    type V = TokenV;

    open spec fn deep_view(&self) -> TokenV {
        self.view()
    }
}

impl Clone for Token {
    fn clone(&self) -> (t: Token)
        ensures
            t@ == self@,
    {
        Token { kind: self.kind, literal: self.literal.clone() }
    }
}

impl Token {
    pub fn new(kind: TokenKind, literal: String) -> (t: Self)
        ensures
            t@ == (TokenV { kind, literal: literal@ }),
    {
        Self { kind, literal }
    }

    /// The literal text this token was made from.
    pub fn literal(&self) -> (r: String)
        ensures
            r@ == self@.literal,
    {
        self.literal.clone()
    }

    /// Whether this token is one of the method keywords
    /// (`select`, `where`, `orderby`, `groupby`, `limit`, `open`).
    pub fn is_query_method(&self) -> (r: bool)
        ensures
            r == is_query_kind(self@.kind),
    {
        matches!(
            self.kind,
            TokenKind::Select
                | TokenKind::Where
                | TokenKind::Orderby
                | TokenKind::Groupby
                | TokenKind::Limit
                | TokenKind::Open
        )
    }

    /// Whether this token is one of the operator keywords or symbols
    /// (`AND`, `OR`, `=`, `!=`, `>`, `>=`, `<`, `<=`, `LIKE`); the
    /// condition production itself accepts only the last seven.
    pub fn is_operator(&self) -> (r: bool)
        ensures
            r == is_operator_kind(self@.kind),
    {
        matches!(
            self.kind,
            TokenKind::Or
                | TokenKind::And
                | TokenKind::Eq
                | TokenKind::NotEq
                | TokenKind::Greater
                | TokenKind::GreaterEq
                | TokenKind::Less
                | TokenKind::LessEq
                | TokenKind::Like
        )
    }

    /// Whether this token is the dot punctuation.
    pub fn is_dot(&self) -> (r: bool)
        ensures
            r == (self@.kind == TokenKind::Dot),
    {
        matches!(self.kind, TokenKind::Dot)
    }
}

} // verus!
