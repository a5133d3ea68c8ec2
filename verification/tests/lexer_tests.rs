use soql_generator::engine::lexer::{
    LexError, consume_integer, consume_literal, consume_string_object, tokenize,
};
use soql_generator::engine::token::{Token, TokenKind};

#[test]
fn test_tokenize_only_table_name() {
    let input = "Account";

    let tokens = tokenize(input).unwrap();
    assert_eq!(
        tokens[0],
        Token::new(TokenKind::Identifire, String::from("Account"))
    );
}

#[test]
fn test_tokenize() {
    let input = "Opportunity.select(Id, Name, Account.Name).where(Id = 1 AND ( Name LIKE '%hoge%' OR Name LIKE '%fuga%' OR Name != NULL) AND CreatedDated >= '2022-11-10' AND IsPaid = TRUE OR Discount <= -1000).orderby(Id, Name DESC).limit(10).open()";
    let expected = vec![
        Token::new(TokenKind::Identifire, String::from("Opportunity")),
        Token::new(TokenKind::Select, String::from("select")),
        Token::new(TokenKind::Lparen, String::from("(")),
        Token::new(TokenKind::Identifire, String::from("Id")),
        Token::new(TokenKind::Comma, String::from(",")),
        Token::new(TokenKind::Identifire, String::from("Name")),
        Token::new(TokenKind::Comma, String::from(",")),
        Token::new(TokenKind::Identifire, String::from("Account")),
        Token::new(TokenKind::Dot, String::from(".")),
        Token::new(TokenKind::Identifire, String::from("Name")),
        Token::new(TokenKind::Rparen, String::from(")")),
        Token::new(TokenKind::Where, String::from("where")),
        Token::new(TokenKind::Lparen, String::from("(")),
        Token::new(TokenKind::Identifire, String::from("Id")),
        Token::new(TokenKind::Eq, String::from("=")),
        Token::new(TokenKind::Integer, String::from("1")),
        Token::new(TokenKind::And, String::from("AND")),
        Token::new(TokenKind::Lparen, String::from("(")),
        Token::new(TokenKind::Identifire, String::from("Name")),
        Token::new(TokenKind::Like, String::from("LIKE")),
        Token::new(TokenKind::StringObject, String::from("%hoge%")),
        Token::new(TokenKind::Or, String::from("OR")),
        Token::new(TokenKind::Identifire, String::from("Name")),
        Token::new(TokenKind::Like, String::from("LIKE")),
        Token::new(TokenKind::StringObject, String::from("%fuga%")),
        Token::new(TokenKind::Or, String::from("OR")),
        Token::new(TokenKind::Identifire, String::from("Name")),
        Token::new(TokenKind::NotEq, String::from("!=")),
        Token::new(TokenKind::Null, String::from("NULL")),
        Token::new(TokenKind::Rparen, String::from(")")),
        Token::new(TokenKind::And, String::from("AND")),
        Token::new(TokenKind::Identifire, String::from("CreatedDated")),
        Token::new(TokenKind::GreaterEq, String::from(">=")),
        Token::new(TokenKind::StringObject, String::from("2022-11-10")),
        Token::new(TokenKind::And, String::from("AND")),
        Token::new(TokenKind::Identifire, String::from("IsPaid")),
        Token::new(TokenKind::Eq, String::from("=")),
        Token::new(TokenKind::True, String::from("TRUE")),
        Token::new(TokenKind::Or, String::from("OR")),
        Token::new(TokenKind::Identifire, String::from("Discount")),
        Token::new(TokenKind::LessEq, String::from("<=")),
        Token::new(TokenKind::Minus, String::from("-")),
        Token::new(TokenKind::Integer, String::from("1000")),
        Token::new(TokenKind::Rparen, String::from(")")),
        Token::new(TokenKind::Orderby, String::from("orderby")),
        Token::new(TokenKind::Lparen, String::from("(")),
        Token::new(TokenKind::Identifire, String::from("Id")),
        Token::new(TokenKind::Comma, String::from(",")),
        Token::new(TokenKind::Identifire, String::from("Name")),
        Token::new(TokenKind::Desc, String::from("DESC")),
        Token::new(TokenKind::Rparen, String::from(")")),
        Token::new(TokenKind::Limit, String::from("limit")),
        Token::new(TokenKind::Lparen, String::from("(")),
        Token::new(TokenKind::Integer, String::from("10")),
        Token::new(TokenKind::Rparen, String::from(")")),
        Token::new(TokenKind::Open, String::from("open")),
        Token::new(TokenKind::Lparen, String::from("(")),
        Token::new(TokenKind::Rparen, String::from(")")),
        Token::new(TokenKind::Eof, String::from("")),
    ];

    let tokens = tokenize(input).unwrap();
    assert_eq!(tokens, expected);
}

#[test]
fn test_consume_ineger() {
    let input: Vec<char> = "1234567890".chars().collect();
    let mut pos: usize = 1;
    let num = consume_integer(&input, &mut pos, '1');
    assert_eq!(num, "1234567890");
}

#[test]
fn test_consume_literal() {
    let input: Vec<char> = "Account".chars().collect();
    let mut pos: usize = 1;
    let literal = consume_literal(&input, &mut pos, 'A');
    assert_eq!(literal, "Account");

    // case: literal with underscore and integer in the middle
    let input: Vec<char> = "Product2__c".chars().collect();
    let mut pos: usize = 1;
    let literal = consume_literal(&input, &mut pos, 'P');
    assert_eq!(literal, "Product2__c");
}

#[test]
fn test_consume_string_object() {
    let input: Vec<char> = "'%Test'".chars().collect();
    let mut pos: usize = 1;
    let string_obj = consume_string_object(&input, &mut pos);
    assert_eq!(string_obj, "%Test");
}

#[test]
fn test_tokenize_method_without_dot() {
    // a method keyword must be preceded by a dot: a typed error, not an abort
    let result = tokenize("Account select(Id)");
    assert_eq!(
        result,
        Err(LexError::MethodWithoutDot(String::from("select")))
    );
    let err = tokenize("select(Id)").unwrap_err();
    assert_eq!(
        err.describe(),
        "Syntax error: the word before the query method must be a dot"
    );
}

#[test]
fn test_tokenize_case_insensitive_keywords() {
    let tokens = tokenize("Account.SELECT(Id)").unwrap();
    assert_eq!(tokens[1], Token::new(TokenKind::Select, String::from("SELECT")));
    let tokens = tokenize("x And y Desc TRue nuLL").unwrap();
    assert_eq!(tokens[1].kind, TokenKind::And);
    assert_eq!(tokens[3].kind, TokenKind::Desc);
    assert_eq!(tokens[4].kind, TokenKind::True);
    assert_eq!(tokens[5].kind, TokenKind::Null);
}

#[test]
fn test_tokenize_operators_and_illegal() {
    let tokens = tokenize("a >= b <= c > d < e != f ! g").unwrap();
    let kinds: Vec<TokenKind> = tokens.iter().map(|t| t.kind).collect();
    assert_eq!(
        kinds,
        vec![
            TokenKind::Identifire,
            TokenKind::GreaterEq,
            TokenKind::Identifire,
            TokenKind::LessEq,
            TokenKind::Identifire,
            TokenKind::Greater,
            TokenKind::Identifire,
            TokenKind::Less,
            TokenKind::Identifire,
            TokenKind::NotEq,
            TokenKind::Identifire,
            TokenKind::Illegal,
            TokenKind::Identifire,
            TokenKind::Eof,
        ]
    );
}

#[test]
fn test_tokenize_unterminated_string() {
    // an unterminated quote consumes to end of input
    let tokens = tokenize("name = 'unfinished").unwrap();
    assert_eq!(
        tokens[2],
        Token::new(TokenKind::StringObject, String::from("unfinished"))
    );
    assert_eq!(tokens[3].kind, TokenKind::Eof);
}
