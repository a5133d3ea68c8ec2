use soql_generator::engine::parser::{ParseError, parse, parse_limit, split_method_condition};

#[test]
fn test_parse() {
    let query_str =
        "Opportunity.select(name).where(name like 'test').orderby(created_date).limit(10).open()";
    let query = parse(query_str).unwrap();
    assert_eq!(query.from, "Opportunity");
    assert_eq!(query.select.unwrap(), "name");
    assert_eq!(query.where_clause.unwrap(), "name like 'test'");
    assert_eq!(query.orderby.unwrap(), "created_date");
    assert_eq!(query.limit.unwrap(), "10");
    assert_eq!(query.open_browser, true);
}

#[test]
fn test_parse_where_clause() {
    // Case1: simple pattern
    let query_str = "Account.where(name like '%test%')";
    let result = parse(query_str).unwrap();

    assert_eq!(result.where_clause.unwrap(), "name like '%test%'");

    // Casel2: complecated pattern
    let query_str = "Account.where(name = 'test' and (id = 10 or id = 20))";
    let result = parse(query_str).unwrap();

    assert_eq!(
        result.where_clause.unwrap(),
        "name = 'test' and (id = 10 or id = 20)"
    );
}

#[test]
fn test_parse_invalid_sobject() {
    let query_str = "select(Id, Name)";
    let result = parse(query_str);

    assert!(result.is_err());
}

#[test]
fn test_parse_invalid_limit() {
    let query_str = "Opportunity.limit(hoge)";
    let result = parse(query_str);

    assert!(result.is_err());
}

#[test]
fn test_parse_duplicated_method() {
    let query_str = "Opportunity.where(id = 10).where(id = 20)";
    let result = parse(query_str);

    assert!(result.is_err());
}

#[test]
fn test_parse_error_variants() {
    assert_eq!(parse("select(Id)").unwrap_err(), ParseError::InvalidSObject);
    assert_eq!(
        parse("Account.fetch(Id)").unwrap_err(),
        ParseError::InvalidOption
    );
    assert_eq!(
        parse("Account.limit(ten)").unwrap_err(),
        ParseError::InvalidLimitOption("ten".to_string())
    );
    assert_eq!(parse("Account.limit()").unwrap_err(), ParseError::Empty);
    assert_eq!(
        parse("Account.open().open()").unwrap_err(),
        ParseError::DuplicatedMethod("open".to_string())
    );
}

#[test]
fn test_legacy_error_descriptions() {
    assert_eq!(
        ParseError::InvalidSObject.describe(),
        "ParseError: invalid sobject"
    );
    assert_eq!(
        ParseError::InvalidOption.describe(),
        "ParseError: invalid option"
    );
    assert_eq!(
        ParseError::InvalidLimitOption("x".to_string()).describe(),
        "ParseError: limit option need to integer: x"
    );
    assert_eq!(ParseError::Empty.describe(), "ParseError: empty option");
    assert_eq!(
        ParseError::DuplicatedMethod("where".to_string()).describe(),
        "ParseError: method `where` is duplicated"
    );
}

#[test]
fn test_parse_limit_values() {
    assert_eq!(parse_limit("10").unwrap(), "10");
    // the text is canonicalized through the parsed value
    assert_eq!(parse_limit("+10").unwrap(), "10");
    assert_eq!(parse_limit("007").unwrap(), "7");
    assert_eq!(parse_limit("-5").unwrap(), "-5");
    assert_eq!(parse_limit("2147483647").unwrap(), "2147483647");
    assert_eq!(parse_limit("-2147483648").unwrap(), "-2147483648");
    assert!(parse_limit("2147483648").is_err());
    assert!(parse_limit("-2147483649").is_err());
    assert!(parse_limit("12x").is_err());
    assert!(parse_limit("").is_err());
}

#[test]
fn test_split_method_condition_nesting() {
    let (method, condition) = split_method_condition("where(a = 1 and (b = 2 or c = 3))");
    assert_eq!(method, "where");
    assert_eq!(condition, "a = 1 and (b = 2 or c = 3)");

    let (method, condition) = split_method_condition("  open (  )  ");
    assert_eq!(method, "open");
    assert_eq!(condition, "");

    let (method, condition) = split_method_condition("nothing here");
    assert_eq!(method, "");
    assert_eq!(condition, "");
}

#[test]
fn test_parse_groupby_method() {
    // groupby writes the select slot, as generation treats the two alike
    let query = parse("Opportunity.groupby(Id, Name)").unwrap();
    assert_eq!(query.select.unwrap(), "Id, Name");

    // select and groupby in one expression: the later one overwrites
    let query = parse("Opportunity.select(Id).groupby(Name)").unwrap();
    assert_eq!(query.select.unwrap(), "Name");

    // but a repeated groupby is a duplicated method
    assert_eq!(
        parse("Opportunity.groupby(Id).groupby(Name)").unwrap_err(),
        ParseError::DuplicatedMethod("groupby".to_string())
    );
}

#[test]
fn test_parse_bare_table_name() {
    let query = parse("Account").unwrap();
    assert_eq!(query.from, "Account");
    assert_eq!(query.select, None);
    assert_eq!(query.open_browser, false);
    assert_eq!(query.generate(), "SELECT Id FROM Account");
}
