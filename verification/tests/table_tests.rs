use mysql_console::table::{build, summary_line, Column, RenderedTable};
use mysql_console::value::{CellSlot, CellValue};

fn sample() -> (Vec<Column>, Vec<Vec<CellSlot>>) {
    let columns = vec![
        Column { name: "id".to_string() },
        Column { name: "name".to_string() },
    ];
    let rows = vec![
        vec![
            CellSlot::Present(CellValue::Int(7)),
            CellSlot::Present(CellValue::Text(b"alice".to_vec())),
        ],
        vec![
            CellSlot::Present(CellValue::Int(12345)),
            CellSlot::Present(CellValue::Null),
        ],
    ];
    (columns, rows)
}

#[test]
fn widths_cover_names_and_cells() {
    let (columns, rows) = sample();
    let table: RenderedTable = build(&columns, &rows, false, 123);
    assert_eq!(table.widths, vec![5, 5]);
    assert_eq!(table.row_count, 2);
}

#[test]
fn body_cells_are_padded_to_the_column_width() {
    let (columns, rows) = sample();
    let table = build(&columns, &rows, false, 123);
    assert_eq!(table.header, vec!["id".to_string(), "name".to_string()]);
    assert_eq!(table.body[0], vec!["7    ".to_string(), "alice".to_string()]);
    assert_eq!(table.body[1], vec!["12345".to_string(), "NULL ".to_string()]);
}

#[test]
fn summary_counts_data_rows_only() {
    let (columns, rows) = sample();
    let table = build(&columns, &rows, false, 123);
    assert_eq!(table.summary, "2 rows in set (1.23 sec)");
}

#[test]
fn summary_uses_singular_at_one_row() {
    assert_eq!(summary_line(1, 5), "1 row in set (0.05 sec)");
    assert_eq!(summary_line(0, 5), "0 rows in set (0.05 sec)");
}

#[test]
fn empty_result_set_keeps_name_widths() {
    let columns = vec![Column { name: "count(*)".to_string() }];
    let rows: Vec<Vec<CellSlot>> = Vec::new();
    let table = build(&columns, &rows, false, 0);
    assert_eq!(table.widths, vec![8]);
    assert_eq!(table.row_count, 0);
    assert_eq!(table.summary, "0 rows in set (0.00 sec)");
}

#[test]
fn styling_never_changes_computed_widths() {
    colored::control::set_override(true);
    let (columns, rows) = sample();
    let plain = build(&columns, &rows, false, 0);
    let colored_table = build(&columns, &rows, true, 0);
    assert_eq!(plain.widths, colored_table.widths);
    // The styled header still carries the name, wrapped in escapes.
    assert!(colored_table.header[1].contains("name"));
    assert!(colored_table.header[1].len() > "name".len());
    // Every styled body cell is at least as long as the column width.
    for (row, _) in colored_table.body.iter().zip(rows.iter()) {
        for (cell, width) in row.iter().zip(colored_table.widths.iter()) {
            assert!(cell.chars().count() >= *width);
        }
    }
}

#[test]
fn errored_and_missing_slots_render_in_tables() {
    let columns = vec![Column { name: "v".to_string() }];
    let rows = vec![vec![CellSlot::Errored], vec![CellSlot::Missing]];
    let table = build(&columns, &rows, false, 1);
    assert_eq!(table.widths, vec![5]);
    assert_eq!(table.body[0], vec!["ERROR".to_string()]);
    assert_eq!(table.body[1], vec!["NULL ".to_string()]);
}
