use mysql_console::classify::{classify, Directive};

#[test]
fn use_with_extra_spaces_selects_database() {
    match classify("USE  sales;") {
        Directive::SelectDatabase(name) => assert_eq!(name, "sales"),
        _ => panic!("expected a database selection"),
    }
}

#[test]
fn status_is_case_insensitive() {
    assert!(matches!(classify("STATUS"), Directive::ShowStatus));
    assert!(matches!(classify("status"), Directive::ShowStatus));
    assert!(matches!(classify("  Status  "), Directive::ShowStatus));
}

#[test]
fn plain_statement_is_forwarded_unchanged() {
    match classify("select 1;") {
        Directive::ForwardToServer(stmt) => assert_eq!(stmt, "select 1;"),
        _ => panic!("expected forwarding"),
    }
}

#[test]
fn clear_keywords_clear_the_screen() {
    assert!(matches!(classify("clear"), Directive::ClearScreen));
    assert!(matches!(classify("CLEAR"), Directive::ClearScreen));
    assert!(matches!(classify("\\c"), Directive::ClearScreen));
}

#[test]
fn status_with_terminator_is_not_the_directive() {
    match classify("status;") {
        Directive::ForwardToServer(stmt) => assert_eq!(stmt, "status;"),
        _ => panic!("the terminated form is a server statement"),
    }
}

#[test]
fn use_trims_terminator_and_whitespace_around_name() {
    match classify("  use sales ; ") {
        Directive::SelectDatabase(name) => assert_eq!(name, "sales"),
        _ => panic!("expected a database selection"),
    }
    match classify("use inventory;;") {
        Directive::SelectDatabase(name) => assert_eq!(name, "inventory"),
        _ => panic!("expected a database selection"),
    }
}

#[test]
fn use_keeps_the_name_case() {
    match classify("USE Sales;") {
        Directive::SelectDatabase(name) => assert_eq!(name, "Sales"),
        _ => panic!("expected a database selection"),
    }
}

#[test]
fn empty_input_is_forwarded() {
    match classify("") {
        Directive::ForwardToServer(stmt) => assert_eq!(stmt, ""),
        _ => panic!("expected forwarding"),
    }
    match classify("   ") {
        Directive::ForwardToServer(stmt) => assert_eq!(stmt, "   "),
        _ => panic!("expected forwarding"),
    }
}

#[test]
fn forwarded_input_keeps_its_whitespace() {
    match classify("  select 1;  ") {
        Directive::ForwardToServer(stmt) => assert_eq!(stmt, "  select 1;  "),
        _ => panic!("expected forwarding"),
    }
}
