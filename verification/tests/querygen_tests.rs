use soql_generator::engine::build_query;
use soql_generator::engine::lexer::tokenize;
use soql_generator::engine::parse::Parser;
use soql_generator::engine::querygen::Query;

#[test]
fn test_evaluate_select() {
    let input = "Opportunity.select(Id, Name, Account.Name, Contract.LastName)";
    let tokens = tokenize(input).unwrap();
    let mut parser = Parser::new(tokens);
    let program = parser.parse().unwrap();

    let mut query = Query::default();
    query.evaluate(program);

    assert_eq!(
        query.select.unwrap(),
        "Id, Name, Account.Name, Contract.LastName".to_string()
    );
}

#[test]
fn test_evaluate_groupby() {
    let input = "Opportunity.groupby(Id, Name, Account.Name, Contract.LastName)";
    let tokens = tokenize(input).unwrap();
    let mut parser = Parser::new(tokens);
    let program = parser.parse().unwrap();

    let mut query = Query::default();
    query.evaluate(program);

    assert_eq!(
        query.select.unwrap(),
        "Id, Name, Account.Name, Contract.LastName".to_string()
    );
}

#[test]
fn test_evaluate_where() {
    let input = "Opportunity.where(Id = 123 AND (Name = 'test' OR Account.Name LIKE '%test%') AND Status = 'Closed')";
    let tokens = tokenize(input).unwrap();
    let mut parser = Parser::new(tokens);
    let program = parser.parse().unwrap();

    let mut query = Query::default();
    query.evaluate(program);

    assert_eq!(
        query.where_clause.unwrap(),
        "(Id = 123 AND ((Name = 'test' OR Account.Name LIKE '%test%') AND Status = 'Closed'))"
            .to_string()
    );
}

#[test]
fn test_evaluate_orderby() {
    let input = "Account.orderby(Id, Name ASC, Account.Name DESC)";
    let tokens = tokenize(input).unwrap();
    let mut parser = Parser::new(tokens);
    let program = parser.parse().unwrap();

    let mut query = Query::default();
    query.evaluate(program);

    assert_eq!(
        query.orderby.unwrap(),
        "Id, Name, Account.Name DESC".to_string()
    );
}

#[test]
fn test_evaluate_limit() {
    let input = "Account.limit(10)";
    let tokens = tokenize(input).unwrap();
    let mut parser = Parser::new(tokens);
    let program = parser.parse().unwrap();

    let mut query = Query::default();
    query.evaluate(program);

    assert_eq!(query.limit.unwrap(), "10");
}

#[test]
fn test_evaluate_open() {
    let input = "Account.open()";
    let tokens = tokenize(input).unwrap();
    let mut parser = Parser::new(tokens);
    let program = parser.parse().unwrap();

    let mut query = Query::default();
    query.evaluate(program);

    assert_eq!(query.from, "Account");
    assert_eq!(query.open_browser, true);
}

#[test]
fn test_generate_bare_table() {
    // a bare table name projects Id by default
    let (query, open_browser) = build_query("Account").unwrap();
    assert_eq!(query, "SELECT Id FROM Account");
    assert_eq!(open_browser, false);
}

#[test]
fn test_generate_select_fields() {
    let (query, _) = build_query("Account.select(Id, Name)").unwrap();
    assert_eq!(query, "SELECT Id, Name FROM Account");
}

#[test]
fn test_generate_where_chain() {
    // AND/OR chain right-associatively, with no precedence distinction
    let (query, _) = build_query(
        "Opportunity.where(Id = 123 AND (Name = 'test' OR Account.Name LIKE '%test%') AND Status = 'Closed')",
    )
    .unwrap();
    assert_eq!(
        query,
        "SELECT Id FROM Opportunity WHERE (Id = 123 AND ((Name = 'test' OR Account.Name LIKE '%test%') AND Status = 'Closed'))"
    );
}

#[test]
fn test_generate_orderby_suffix() {
    let (query, _) = build_query("Account.orderby(Id, Name DESC)").unwrap();
    assert!(query.ends_with("ORDER BY Id, Name DESC"));
    assert_eq!(query, "SELECT Id FROM Account ORDER BY Id, Name DESC");
}

#[test]
fn test_generate_limit_suffix() {
    let (query, _) = build_query("Account.limit(10)").unwrap();
    assert!(query.ends_with("LIMIT 10"));
    assert_eq!(query, "SELECT Id FROM Account LIMIT 10");
}

#[test]
fn test_generate_open_discards_orderby_and_limit() {
    // open suppresses orderby/limit regardless of statement order
    let (query, open_browser) = build_query("Account.orderby(Name).limit(5).open()").unwrap();
    assert_eq!(query, "SELECT Id FROM Account LIMIT 1");
    assert_eq!(open_browser, true);
}

#[test]
fn test_generate_full_pipeline() {
    let (query, open_browser) =
        build_query("Opportunity.select(Id, Name).where(Amount > 100).orderby(Id DESC).limit(3)")
            .unwrap();
    assert_eq!(
        query,
        "SELECT Id, Name FROM Opportunity WHERE Amount > 100 ORDER BY Id DESC LIMIT 3"
    );
    assert_eq!(open_browser, false);
}

#[test]
fn test_generate_repeated_statement_overwrites() {
    // a later statement of the same kind silently wins in this pipeline
    let (query, _) = build_query("Account.limit(1).limit(7)").unwrap();
    assert_eq!(query, "SELECT Id FROM Account LIMIT 7");
}

#[test]
fn test_build_query_errors_are_typed() {
    // missing table and non-integer limit each yield a typed error
    assert!(build_query("select(Id)").is_err());
    assert!(build_query("Account.limit(hoge)").is_err());
    assert!(build_query("").is_err());
}

#[test]
fn test_generate_limit_canonical_text() {
    // the limit is re-rendered from its parsed value
    let (query, _) = build_query("Account.limit(007)").unwrap();
    assert_eq!(query, "SELECT Id FROM Account LIMIT 7");
}
