use soql_generator::hint::{QueryHint, QueryHinter, method_hints};

#[test]
fn test_method_hints() {
    let hints = method_hints();
    let displays: Vec<String> = hints.iter().map(|h| h.display_text()).collect();
    assert_eq!(
        displays,
        vec!["select(", "where(", "limit(", "orderby(", "open("]
    );
}

#[test]
fn test_query_hint_new() {
    let hint = QueryHint::new("Account");
    assert_eq!(hint.display_text(), "Account");
    assert_eq!(hint.completion(), Some("Account".to_string()));
}

#[test]
fn test_query_hint_suffix() {
    let hint = QueryHint::new("Account");
    let tail = hint.suffix(3);
    assert_eq!(tail.display_text(), "ount");
    assert_eq!(tail.completion(), Some("ount".to_string()));

    // stripping everything leaves nothing to complete
    let empty = hint.suffix(7);
    assert_eq!(empty.display_text(), "");
    assert_eq!(empty.completion(), None);

    // stripping past the end is harmless
    let over = hint.suffix(99);
    assert_eq!(over.display_text(), "");
    assert_eq!(over.completion(), None);
}

#[test]
fn test_hinter_offers_object_names() {
    let objects = vec!["Account".to_string(), "Opportunity".to_string()];
    let mut hinter = QueryHinter::new(objects);

    // at the end of a partial object name, the rest of it is hinted
    let hint = hinter.hint_line("Acc", 3).unwrap();
    assert_eq!(hint.display_text(), "ount");
}

#[test]
fn test_hinter_offers_methods_after_dot() {
    let objects = vec!["Account".to_string()];
    let mut hinter = QueryHinter::new(objects);

    let hint = hinter.hint_line("Account.sel", 11).unwrap();
    assert_eq!(hint.display_text(), "ect(");
}

#[test]
fn test_hinter_quiet_mid_line() {
    let objects = vec!["Account".to_string()];
    let mut hinter = QueryHinter::new(objects);

    // no hint when the cursor is not at the end of the line
    assert!(hinter.hint_line("Acc", 1).is_none());
    // no hint on an empty line
    assert!(hinter.hint_line("", 0).is_none());
    // no hint when nothing matches
    assert!(hinter.hint_line("Zzz", 3).is_none());
}

#[test]
fn test_update_hints_switches_sets() {
    let objects = vec!["Account".to_string()];
    let mut hinter = QueryHinter::new(objects);

    // a complete object name keeps the object hints
    hinter.update_hints("Account");
    assert_eq!(hinter.hints.len(), 1);
    assert_eq!(hinter.hints[0].display_text(), "Account");

    // once a dot follows, the method hints are offered
    hinter.update_hints("Account.");
    assert_eq!(hinter.hints.len(), 5);
    assert_eq!(hinter.hints[0].display_text(), "select(");
}
