use soql_generator::engine::lexer::tokenize;
use soql_generator::engine::parse::{ParseError, Parser};

#[test]
fn test_parse_select() {
    let input = "Opportunity.select(Id, Name, Account.Name, Contract.LastName)";
    let tokens = tokenize(input).unwrap();
    let mut parser = Parser::new(tokens);
    let program = parser.parse().unwrap();

    assert_eq!(program.statements.len(), 2);
    assert_eq!(program.statements[1].token_literal(), "select".to_string());
    assert_eq!(
        program.statements[1].string(),
        "Id, Name, Account.Name, Contract.LastName".to_string()
    );
}

#[test]
fn test_parse_where() {
    let input =
        "Opportunity.where(Id = 123 AND (Name = 'test' OR Account.Name LIKE '%test%') AND Status = 'Closed')";
    let tokens = tokenize(input).unwrap();
    let mut parser = Parser::new(tokens);
    let program = parser.parse().unwrap();

    assert_eq!(program.statements.len(), 2);
    assert_eq!(program.statements[1].token_literal(), "where".to_string());

    assert_eq!(
        program.statements[1].string(),
        "(Id = 123 AND ((Name = 'test' OR Account.Name LIKE '%test%') AND Status = 'Closed'))"
            .to_string()
    );
}

#[test]
fn test_parse_groupby() {
    let input = "Opportunity.groupby(Id, Name, Account.Name)";
    let tokens = tokenize(input).unwrap();
    let mut parser = Parser::new(tokens);
    let program = parser.parse().unwrap();

    assert_eq!(program.statements.len(), 2);
    assert_eq!(program.statements[1].token_literal(), "groupby".to_string());
    assert_eq!(
        program.statements[1].string(),
        "Id, Name, Account.Name".to_string()
    );
}

#[test]
fn test_parse_orderby() {
    let input = "Opportunity.orderby(Id, Name ASC, Account.Name DESC)";
    let tokens = tokenize(input).unwrap();
    let mut parser = Parser::new(tokens);
    let program = parser.parse().unwrap();

    assert_eq!(program.statements.len(), 2);
    assert_eq!(program.statements[1].token_literal(), "orderby".to_string());
    assert_eq!(
        program.statements[1].string(),
        "Id, Name, Account.Name DESC".to_string()
    );
}

#[test]
fn test_parse_limit() {
    let input = "Account.limit(10)";
    let tokens = tokenize(input).unwrap();
    let mut parser = Parser::new(tokens);
    let program = parser.parse().unwrap();

    assert_eq!(program.statements.len(), 2);
    assert_eq!(program.statements[1].token_literal(), "limit".to_string());
    assert_eq!(program.statements[1].string(), "10".to_string());
}

#[test]
fn test_parse_open() {
    let input = "Account.open()";
    let tokens = tokenize(input).unwrap();
    let mut parser = Parser::new(tokens);
    let program = parser.parse().unwrap();

    assert_eq!(program.statements.len(), 2);
    assert_eq!(program.statements[1].token_literal(), "open".to_string());
    assert_eq!(program.string(), "Account.open".to_string());
}

#[test]
fn test_parse_bare_table() {
    // a table followed by end-of-input is a one-statement program
    let tokens = tokenize("Account").unwrap();
    let mut parser = Parser::new(tokens);
    let program = parser.parse().unwrap();
    assert_eq!(program.statements.len(), 1);
    assert_eq!(program.statements[0].token_literal(), "Account".to_string());
}

#[test]
fn test_parse_missing_table() {
    // the first token must be an identifier
    let tokens = tokenize("123.limit(10)").unwrap();
    let mut parser = Parser::new(tokens);
    let err = parser.parse().unwrap_err();
    assert_eq!(
        err,
        ParseError::UnexpectedToken("SObject Name".to_string(), "123".to_string())
    );
}

#[test]
fn test_parse_non_integer_limit() {
    // a limit body that is not an integer is a typed error, not a panic
    let tokens = tokenize("Account.limit(hoge)").unwrap();
    let mut parser = Parser::new(tokens);
    let err = parser.parse().unwrap_err();
    assert_eq!(
        err,
        ParseError::UnexpectedToken("INTEGER".to_string(), "hoge".to_string())
    );
}

#[test]
fn test_parse_overflowing_limit() {
    // an integer too large for i64 is a typed error, not a panic
    let tokens = tokenize("Account.limit(99999999999999999999)").unwrap();
    let mut parser = Parser::new(tokens);
    assert!(parser.parse().is_err());
}

#[test]
fn test_parse_missing_parenthesis() {
    let tokens = tokenize("Account.select Id").unwrap();
    let mut parser = Parser::new(tokens);
    let err = parser.parse().unwrap_err();
    assert_eq!(
        err,
        ParseError::UnexpectedToken("(".to_string(), "Id".to_string())
    );
}

#[test]
fn test_parse_truncated_input() {
    // input exhausted mid-production
    let tokens = tokenize("Account.where(Id =").unwrap();
    let mut parser = Parser::new(tokens);
    assert!(parser.parse().is_err());
}

#[test]
fn test_parse_signed_values() {
    let tokens = tokenize("Account.where(Discount <= -1000)").unwrap();
    let mut parser = Parser::new(tokens);
    let program = parser.parse().unwrap();
    assert_eq!(program.statements[1].string(), "Discount <= -1000".to_string());

    let tokens = tokenize("Account.where(Discount >= +5)").unwrap();
    let mut parser = Parser::new(tokens);
    let program = parser.parse().unwrap();
    assert_eq!(program.statements[1].string(), "Discount >= +5".to_string());
}

#[test]
fn test_parse_boolean_and_null_values() {
    let tokens = tokenize("Account.where(IsPaid = TRUE AND Name != NULL)").unwrap();
    let mut parser = Parser::new(tokens);
    let program = parser.parse().unwrap();
    assert_eq!(
        program.statements[1].string(),
        "(IsPaid = TRUE AND Name != NULL)".to_string()
    );
}

#[test]
fn test_parse_rejects_keyword_operator() {
    // AND/OR are chain operators, not condition operators
    let tokens = tokenize("T.where(x AND 5)").unwrap();
    let mut parser = Parser::new(tokens);
    let err = parser.parse().unwrap_err();
    assert_eq!(
        err,
        ParseError::UnexpectedToken(
            "Operator(=, !=, >, >=, <, <=, LIKE)".to_string(),
            "AND".to_string()
        )
    );

    let tokens = tokenize("T.where(x OR 5)").unwrap();
    let mut parser = Parser::new(tokens);
    assert!(parser.parse().is_err());
}

#[test]
fn test_parse_rejects_sign_chain() {
    // a value carries at most a single sign
    let tokens = tokenize("Account.where(a = --5)").unwrap();
    let mut parser = Parser::new(tokens);
    let err = parser.parse().unwrap_err();
    assert_eq!(err, ParseError::UnexpectedToken("".to_string(), "-".to_string()));

    let tokens = tokenize("Account.where(a = +-5)").unwrap();
    let mut parser = Parser::new(tokens);
    assert!(parser.parse().is_err());
}

#[test]
fn test_parse_error_descriptions() {
    assert_eq!(
        ParseError::UnexpectedToken("INTEGER".to_string(), "hoge".to_string()).describe(),
        "Unexpected token: expected INTEGER. got 'hoge'"
    );
    assert_eq!(
        ParseError::InvalidMethod("fetch".to_string()).describe(),
        "Invalid method: fetch"
    );
    assert_eq!(ParseError::Eof.describe(), "Unexpected EOF");
}

#[test]
fn test_parse_invalid_method_position() {
    // after a statement, only a method keyword may follow
    let tokens = tokenize("Account.limit(1).x").unwrap();
    let mut parser = Parser::new(tokens);
    let err = parser.parse().unwrap_err();
    assert_eq!(err, ParseError::InvalidMethod(".".to_string()));
}

#[test]
fn test_where_round_trip() {
    // re-tokenizing and re-parsing a rendered where-expression leaves
    // its rendering unchanged: parenthesization is fully explicit
    let inputs = [
        "Opportunity.where(Id = 123 AND (Name = 'test' OR Account.Name LIKE '%test%') AND Status = 'Closed')",
        "Account.where(a = 1 OR b = 2 AND c = 3)",
        "Account.where(((x != NULL)))",
        "Account.where(Discount <= -1000 AND IsPaid = TRUE)",
    ];
    for input in inputs {
        let tokens = tokenize(input).unwrap();
        let mut parser = Parser::new(tokens);
        let program = parser.parse().unwrap();
        let rendered = program.statements[1].string();

        let mut again = String::from("T.where(");
        again.push_str(&rendered);
        again.push(')');
        let tokens2 = tokenize(&again).unwrap();
        let mut parser2 = Parser::new(tokens2);
        let program2 = parser2.parse().unwrap();
        assert_eq!(program2.statements[1].string(), rendered);
    }
}
