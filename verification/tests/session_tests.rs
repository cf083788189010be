use mysql_console::session::{
    clear_screen_sequence, error_line, query_ok_message, welcome_banner, Session,
};
use mysql_console::style::style_notice;

fn plain_session(db: Option<&str>) -> Session {
    Session::new(
        "localhost".to_string(),
        3306,
        db.map(|d| d.to_string()),
        false,
    )
}

#[test]
fn primary_prompt_shows_current_database() {
    let session = plain_session(Some("sales"));
    assert_eq!(session.prompt(false), "mysql(sales) > ");
    let bare = plain_session(None);
    assert_eq!(bare.prompt(false), "mysql > ");
}

#[test]
fn continuation_prompt_has_no_database_indicator() {
    let session = plain_session(Some("sales"));
    assert_eq!(session.prompt(true), "    -> ");
}

#[test]
fn set_database_updates_state_and_confirms() {
    let mut session = plain_session(None);
    let msg = session.set_database("sales");
    assert_eq!(msg, "Database changed to 'sales'");
    assert_eq!(session.prompt(false), "mysql(sales) > ");
}

#[test]
fn zero_affected_rows_produce_no_output() {
    assert_eq!(query_ok_message(0, 123), None);
}

#[test]
fn affected_rows_report_with_plural_wording() {
    assert_eq!(
        query_ok_message(5, 4),
        Some("Query OK, 5 rows affected (0.04 sec)".to_string())
    );
}

#[test]
fn one_affected_row_reports_singular() {
    assert_eq!(
        query_ok_message(1, 123),
        Some("Query OK, 1 row affected (1.23 sec)".to_string())
    );
}

#[test]
fn status_rows_carry_all_four_entries() {
    let session = plain_session(Some("sales"));
    let rows = session.status_rows(Some("8.0.36".to_string()), Some("utf8mb4".to_string()));
    assert_eq!(rows.len(), 4);
    assert_eq!(rows[0], ("Server version:".to_string(), "8.0.36".to_string()));
    assert_eq!(rows[1], ("Server:".to_string(), "localhost:3306".to_string()));
    assert_eq!(rows[2], ("Current database:".to_string(), "sales".to_string()));
    assert_eq!(rows[3], ("Character set:".to_string(), "utf8mb4".to_string()));
}

#[test]
fn failed_lookups_leave_empty_values_without_failing() {
    let session = plain_session(None);
    let rows = session.status_rows(None, None);
    assert_eq!(rows[0].1, "");
    assert_eq!(rows[2].1, "None");
    assert_eq!(rows[3].1, "");
}

#[test]
fn welcome_banner_carries_version_and_connection_id() {
    let banner = welcome_banner("8.0.36", 42, false);
    assert!(banner.contains("Server version: 8.0.36\n"));
    assert!(banner.contains("Connection Id: 42\n"));
    assert!(banner.starts_with("\nWelcome to the MySQL monitor.  Commands end with ;\n"));
}

#[test]
fn error_line_prefixes_the_message() {
    assert_eq!(error_line("syntax error", false), "Error: syntax error");
}

#[test]
fn clear_screen_sequence_is_the_ansi_escape() {
    assert_eq!(clear_screen_sequence(), "\x1B[2J\x1B[1;1H");
}

#[test]
fn styled_lines_wrap_the_plain_text() {
    colored::control::set_override(true);
    let styled = style_notice("Query OK".to_string(), true);
    assert!(styled.contains("Query OK"));
    assert!(styled.len() > "Query OK".len());
    let styled_err = error_line("boom", true);
    assert!(styled_err.contains("Error: boom"));
    assert!(styled_err.len() > "Error: boom".len());
    let styled_prompt = plain_session(None).prompt(false);
    assert_eq!(styled_prompt, "mysql > ");
    let colored_session = Session::new("h".to_string(), 1, None, true);
    let colored_prompt = colored_session.prompt(false);
    assert!(colored_prompt.contains("mysql > "));
    assert!(colored_prompt.len() > "mysql > ".len());
    let plain_banner = welcome_banner("9.0", 1, false);
    let banner = welcome_banner("9.0", 1, true);
    assert!(banner.contains("Connection Id: 1"));
    assert!(banner.len() > plain_banner.len());
}
