use rmsql::database::{
    cell_fallback, fallback_column_name, is_query_statement, rows_affected_message,
    rows_returned_message,
};
use rmsql::navigation::NavigationState;
use rmsql::numfmt::u64_to_string;
use rmsql::ui::{column_header_name, column_widths, truncate_cell, truncate_utf8, visible_row_cells};
use rmsql::ui_text::{history_info, result_title, status_bar_text, tables_list_title};
use rmsql::navigation::ViewMode;

fn strings(v: &[&str]) -> Vec<String> {
    v.iter().map(|s| s.to_string()).collect()
}

#[test]
fn decimal_rendering() {
    assert_eq!(u64_to_string(0), "0");
    assert_eq!(u64_to_string(7), "7");
    assert_eq!(u64_to_string(42), "42");
    assert_eq!(u64_to_string(1234567), "1234567");
}

#[test]
fn truncate_utf8_ascii() {
    assert_eq!(truncate_utf8("hello", 10), "hello");
    assert_eq!(truncate_utf8("hello", 3), "hel");
    assert_eq!(truncate_utf8("hello", 0), "");
}

#[test]
fn truncate_utf8_never_splits_a_code_point() {
    // 'a' is one byte, '\u{00e9}' two: a cut inside the pair falls back
    assert_eq!(truncate_utf8("a\u{00e9}b", 2), "a");
    assert_eq!(truncate_utf8("a\u{00e9}b", 3), "a\u{00e9}");
    // three-byte characters
    assert_eq!(truncate_utf8("\u{65e5}\u{672c}\u{8a9e}", 4), "\u{65e5}");
    assert_eq!(truncate_utf8("\u{65e5}\u{672c}\u{8a9e}", 6), "\u{65e5}\u{672c}");
    assert_eq!(truncate_utf8("\u{65e5}\u{672c}\u{8a9e}", 2), "");
}

#[test]
fn truncate_cell_marks_the_cut() {
    let short = "abc".to_string();
    assert_eq!(truncate_cell(&short, 30), "abc");
    let long = "abcdefghij".to_string();
    assert_eq!(truncate_cell(&long, 8), "abcde...");
    let wide = "\u{65e5}\u{672c}\u{8a9e}\u{65e5}\u{672c}".to_string();
    // budget 10: keep 7 bytes, which is two whole three-byte characters
    assert_eq!(truncate_cell(&wide, 10), "\u{65e5}\u{672c}...");
}

#[test]
fn column_header_name_strips_type() {
    assert_eq!(column_header_name(&"id (int)".to_string()), "id");
    assert_eq!(
        column_header_name(&"name (varchar(32))".to_string()),
        "name"
    );
    assert_eq!(column_header_name(&"plain".to_string()), "plain");
    assert_eq!(column_header_name(&"".to_string()), "");
}

#[test]
fn visible_row_cells_slices_and_truncates() {
    let row = strings(&["one", "twotwotwotwo", "three", "four"]);
    let cells = visible_row_cells(&row, 1, 3, 8);
    assert_eq!(cells, strings(&["twotw...", "three"]));
}

#[test]
fn column_widths_policies() {
    // expanded, plenty of room: 20 + equal share of the rest
    let w = column_widths(true, 2, 60);
    assert_eq!(w, vec![30, 30]);
    // expanded, too narrow: fixed at 20
    let w = column_widths(true, 4, 60);
    assert_eq!(w, vec![20, 20, 20, 20]);
    // normal: equal split
    let w = column_widths(false, 3, 60);
    assert_eq!(w, vec![20, 20, 20]);
}

#[test]
fn classification_of_statements() {
    assert!(is_query_statement(&"SELECT * FROM t".to_string()));
    assert!(is_query_statement(&"  select 1".to_string()));
    assert!(is_query_statement(&"show tables".to_string()));
    assert!(is_query_statement(&"DESCRIBE t".to_string()));
    assert!(is_query_statement(&"explain select 1".to_string()));
    assert!(!is_query_statement(&"INSERT INTO t VALUES (1)".to_string()));
    assert!(!is_query_statement(&"update t set a = 1".to_string()));
    assert!(!is_query_statement(&"".to_string()));
}

#[test]
fn result_messages() {
    assert_eq!(
        rows_returned_message(3),
        "Query executed successfully. 3 rows returned."
    );
    assert_eq!(
        rows_affected_message(0),
        "Query executed successfully. 0 rows affected."
    );
}

#[test]
fn cell_fallback_rules() {
    assert_eq!(cell_fallback(None), "NULL");
    assert_eq!(cell_fallback(Some(b"plain".to_vec())), "plain");
    assert_eq!(cell_fallback(Some(vec![0xff, 0xfe])), "(binary data)");
}

#[test]
fn fallback_column_names() {
    assert_eq!(fallback_column_name(0), "Column_0");
    assert_eq!(fallback_column_name(12), "Column_12");
}

#[test]
fn frame_texts() {
    let mut nav = NavigationState::new();
    assert_eq!(nav.header_text(), "RMSQL - Databases [/]");
    nav.set_current_database("app".to_string());
    nav.set_mode(ViewMode::Tables);
    assert_eq!(nav.header_text(), "RMSQL - Tables [app]");
    assert_eq!(
        tables_list_title(&nav.current_database),
        "Tables in 'app' (h to go back, l/Enter to view data)"
    );
    assert_eq!(
        status_bar_text(&ViewMode::Databases, &"ready".to_string()),
        "[1] Databases | ready | Press '?' for help | q: quit | r: refresh | 1/2/3: switch modes | i: SQL editor | Space: expand columns"
    );
    assert_eq!(history_info(0), "No SQL history yet");
    assert_eq!(history_info(4), "History: 4 queries saved");
    assert_eq!(result_title(&"done".to_string()), "Result - done");
}

#[test]
fn column_info_strip() {
    let mut nav = NavigationState::new();
    nav.set_table_data(strings(&["id (int)", "name (varchar)", "age (int)"]), Vec::new());
    assert_eq!(nav.column_info(), "id (int) | name (varchar) | age (int)");
    nav.set_visible_columns(1);
    nav.toggle_expanded_columns();
    nav.scroll_right();
    assert_eq!(nav.column_info(), "Columns 2-2 of 3: name (varchar)");
}

#[test]
fn data_table_titles() {
    let mut nav = NavigationState::new();
    nav.set_current_database("app".to_string());
    nav.set_current_table("users".to_string());
    nav.set_table_data(strings(&["a", "b"]), Vec::new());
    assert_eq!(
        nav.data_table_title(),
        "Data from 'users' (h to go back, Space to expand, showing first 100 rows)"
    );
    nav.set_visible_columns(1);
    nav.toggle_expanded_columns();
    assert_eq!(
        nav.data_table_title(),
        "Data from 'users' [EXPANDED 1-1/2] (<-> navigate, Space compress, h back)"
    );
    assert_eq!(
        nav.sql_input_title(),
        "SQL Editor - Database: app (Enter to execute, Esc to exit, Up/Down for history)"
    );
}
