use rmsql::navigation::{NavigationState, SqlResult, ViewMode};

fn strings(v: &[&str]) -> Vec<String> {
    v.iter().map(|s| s.to_string()).collect()
}

#[test]
fn fresh_state_defaults() {
    let nav = NavigationState::new();
    assert_eq!(nav.mode, ViewMode::Databases);
    assert!(nav.current_database.is_none());
    assert!(nav.current_table.is_none());
    assert!(nav.databases.is_empty());
    assert!(nav.tables.is_empty());
    assert!(!nav.expanded_columns);
    assert_eq!(nav.horizontal_scroll, 0);
    assert_eq!(nav.visible_columns, 3);
    assert_eq!(nav.sql_input, "");
    assert!(nav.sql_history.is_empty());
    assert!(nav.sql_history_index.is_none());
    assert!(nav.sql_result.is_none());
}

#[test]
fn set_databases_initialises_cursor() {
    let mut nav = NavigationState::new();
    assert_eq!(nav.database_list_state.selected, None);
    nav.set_databases(strings(&["app", "logs"]));
    assert_eq!(nav.database_list_state.selected, Some(0));
}

#[test]
fn set_databases_empty_clears_cursor() {
    let mut nav = NavigationState::new();
    nav.set_databases(strings(&["app", "logs"]));
    nav.move_down();
    nav.set_databases(Vec::new());
    assert_eq!(nav.database_list_state.selected, None);
}

#[test]
fn set_databases_clamps_cursor_to_shorter_list() {
    let mut nav = NavigationState::new();
    nav.set_databases(strings(&["a", "b", "c"]));
    nav.move_down();
    nav.move_down();
    assert_eq!(nav.database_list_state.selected, Some(2));
    nav.set_databases(strings(&["a", "b"]));
    assert_eq!(nav.database_list_state.selected, Some(1));
}

#[test]
fn move_down_then_up_restores_index() {
    let mut nav = NavigationState::new();
    nav.set_databases(strings(&["a", "b", "c"]));
    nav.move_down();
    assert_eq!(nav.database_list_state.selected, Some(1));
    nav.move_up();
    assert_eq!(nav.database_list_state.selected, Some(0));
}

#[test]
fn move_down_on_single_element_list_stays_at_zero() {
    let mut nav = NavigationState::new();
    nav.set_databases(strings(&["only"]));
    nav.move_down();
    assert_eq!(nav.database_list_state.selected, Some(0));
}

#[test]
fn move_up_at_top_does_not_wrap() {
    let mut nav = NavigationState::new();
    nav.set_databases(strings(&["a", "b"]));
    nav.move_up();
    assert_eq!(nav.database_list_state.selected, Some(0));
}

#[test]
fn move_to_top_and_bottom() {
    let mut nav = NavigationState::new();
    nav.set_databases(strings(&["a", "b", "c"]));
    nav.move_to_bottom();
    assert_eq!(nav.database_list_state.selected, Some(2));
    nav.move_to_top();
    assert_eq!(nav.database_list_state.selected, Some(0));
}

#[test]
fn cursor_motion_ignores_editor_mode() {
    let mut nav = NavigationState::new();
    nav.set_databases(strings(&["a", "b"]));
    nav.set_mode(ViewMode::SqlEditor);
    nav.move_down();
    assert_eq!(nav.database_list_state.selected, Some(0));
}

#[test]
fn set_current_database_clears_table_state() {
    let mut nav = NavigationState::new();
    nav.set_current_database("app".to_string());
    nav.set_tables(strings(&["users"]));
    nav.set_current_table("users".to_string());
    nav.set_table_data(strings(&["id (int)"]), vec![strings(&["1"])]);
    nav.set_current_database("logs".to_string());
    assert_eq!(nav.current_database.as_deref(), Some("logs"));
    assert!(nav.current_table.is_none());
    assert!(nav.tables.is_empty());
    assert!(nav.table_columns.is_empty());
    assert!(nav.table_rows.is_empty());
}

#[test]
fn set_current_table_clears_data_snapshot() {
    let mut nav = NavigationState::new();
    nav.set_current_database("app".to_string());
    nav.set_current_table("users".to_string());
    nav.set_table_data(strings(&["id (int)"]), vec![strings(&["1"])]);
    nav.set_current_table("orders".to_string());
    assert_eq!(nav.current_table.as_deref(), Some("orders"));
    assert!(nav.table_columns.is_empty());
    assert!(nav.table_rows.is_empty());
}

#[test]
fn get_selected_database_follows_cursor() {
    let mut nav = NavigationState::new();
    assert!(nav.get_selected_database().is_none());
    nav.set_databases(strings(&["app", "logs"]));
    assert_eq!(nav.get_selected_database().map(|s| s.as_str()), Some("app"));
    nav.move_down();
    assert_eq!(nav.get_selected_database().map(|s| s.as_str()), Some("logs"));
}

#[test]
fn current_path_shapes() {
    let mut nav = NavigationState::new();
    assert_eq!(nav.get_current_path(), "/");
    nav.set_current_database("app".to_string());
    assert_eq!(nav.get_current_path(), "app");
    nav.set_current_table("users".to_string());
    assert_eq!(nav.get_current_path(), "app/users");
}

#[test]
fn toggle_expanded_columns_twice_restores_flag() {
    let mut nav = NavigationState::new();
    nav.set_current_database("app".to_string());
    nav.set_current_table("users".to_string());
    nav.set_table_data(strings(&["a (int)", "b (int)", "c (int)"]), Vec::new());
    nav.set_visible_columns(1);
    nav.toggle_expanded_columns();
    nav.scroll_right();
    assert_eq!(nav.horizontal_scroll, 1);
    nav.toggle_expanded_columns();
    nav.toggle_expanded_columns();
    assert!(nav.expanded_columns);
    nav.toggle_expanded_columns();
    assert!(!nav.expanded_columns);
    assert_eq!(nav.horizontal_scroll, 0);
}

#[test]
fn scroll_right_clamps_at_max() {
    let mut nav = NavigationState::new();
    nav.set_table_data(strings(&["a", "b", "c"]), Vec::new());
    nav.set_visible_columns(1);
    nav.expanded_columns = true;
    nav.scroll_right();
    nav.scroll_right();
    assert_eq!(nav.horizontal_scroll, 2);
    // at horizontal_scroll = len - visible_columns the key is a no-op
    nav.scroll_right();
    assert_eq!(nav.horizontal_scroll, 2);
}

#[test]
fn scroll_left_clamps_at_zero() {
    let mut nav = NavigationState::new();
    nav.set_table_data(strings(&["a", "b"]), Vec::new());
    nav.set_visible_columns(1);
    nav.expanded_columns = true;
    nav.scroll_left();
    assert_eq!(nav.horizontal_scroll, 0);
}

#[test]
fn expand_and_scroll_scenario() {
    let mut nav = NavigationState::new();
    nav.set_current_database("app".to_string());
    nav.set_current_table("users".to_string());
    nav.set_table_data(
        strings(&["id (int)", "name (varchar)"]),
        vec![strings(&["1", "alice"]), strings(&["2", "bob"])],
    );
    nav.set_visible_columns(1);
    nav.toggle_expanded_columns();
    assert!(nav.expanded_columns);
    nav.scroll_right();
    nav.scroll_right();
    // two columns, window of one: the scroll clamps at 1
    assert_eq!(nav.horizontal_scroll, 1);
    nav.scroll_left();
    assert_eq!(nav.horizontal_scroll, 0);
}

#[test]
fn visible_columns_window_bounds() {
    let mut nav = NavigationState::new();
    nav.set_table_data(strings(&["a", "b", "c", "d"]), Vec::new());
    assert_eq!(nav.get_visible_columns(), (0, 4));
    nav.set_visible_columns(2);
    nav.expanded_columns = true;
    assert_eq!(nav.get_visible_columns(), (0, 2));
    nav.scroll_right();
    assert_eq!(nav.get_visible_columns(), (1, 3));
    nav.scroll_right();
    assert_eq!(nav.get_visible_columns(), (2, 4));
    let (s, e) = nav.get_visible_columns();
    assert!(s <= e && e <= nav.table_columns.len());
    assert!(e - s <= nav.visible_columns);
}

#[test]
fn visible_columns_empty_table() {
    let mut nav = NavigationState::new();
    nav.expanded_columns = true;
    assert_eq!(nav.get_visible_columns(), (0, 0));
}

#[test]
fn set_visible_columns_floors_at_one() {
    let mut nav = NavigationState::new();
    nav.set_visible_columns(0);
    assert_eq!(nav.visible_columns, 1);
    nav.set_visible_columns(5);
    assert_eq!(nav.visible_columns, 5);
}

#[test]
fn execute_sql_round_trip() {
    let mut nav = NavigationState::new();
    nav.add_to_sql_input(' ');
    for c in "SELECT 1 ".chars() {
        nav.add_to_sql_input(c);
    }
    let sql = nav.execute_sql();
    assert_eq!(sql, "SELECT 1");
    assert_eq!(nav.sql_history.last().map(|s| s.as_str()), Some("SELECT 1"));
    assert_eq!(nav.sql_input, "");
    assert!(nav.sql_history_index.is_none());
}

#[test]
fn execute_sql_blank_is_a_no_op() {
    let mut nav = NavigationState::new();
    nav.add_to_sql_input(' ');
    nav.add_to_sql_input('\t');
    let sql = nav.execute_sql();
    assert_eq!(sql, "");
    assert!(nav.sql_history.is_empty());
}

#[test]
fn backspace_removes_whole_code_point() {
    let mut nav = NavigationState::new();
    nav.add_to_sql_input('a');
    nav.add_to_sql_input('\u{00e9}');
    nav.backspace_sql_input();
    assert_eq!(nav.sql_input, "a");
    nav.backspace_sql_input();
    assert_eq!(nav.sql_input, "");
    nav.backspace_sql_input();
    assert_eq!(nav.sql_input, "");
}

#[test]
fn history_navigation_scenario() {
    let mut nav = NavigationState::new();
    nav.set_sql_history(strings(&["SELECT 1", "SELECT 2"]));
    nav.navigate_history_up();
    assert_eq!(nav.sql_input, "SELECT 2");
    nav.navigate_history_up();
    assert_eq!(nav.sql_input, "SELECT 1");
    nav.navigate_history_down();
    assert_eq!(nav.sql_input, "SELECT 2");
    assert_eq!(nav.sql_history_index, Some(1));
}

#[test]
fn history_up_down_round_trip() {
    let mut nav = NavigationState::new();
    nav.set_sql_history(strings(&["SELECT 1", "SELECT 2"]));
    nav.navigate_history_up();
    nav.navigate_history_down();
    assert!(nav.sql_history_index.is_none());
    assert_eq!(nav.sql_input, "");
}

#[test]
fn history_navigation_on_empty_history_is_a_no_op() {
    let mut nav = NavigationState::new();
    nav.navigate_history_up();
    assert!(nav.sql_history_index.is_none());
    assert_eq!(nav.sql_input, "");
    nav.navigate_history_down();
    assert!(nav.sql_history_index.is_none());
    assert_eq!(nav.sql_input, "");
}

#[test]
fn history_up_stops_at_oldest() {
    let mut nav = NavigationState::new();
    nav.set_sql_history(strings(&["a", "b"]));
    nav.navigate_history_up();
    nav.navigate_history_up();
    nav.navigate_history_up();
    assert_eq!(nav.sql_history_index, Some(0));
    assert_eq!(nav.sql_input, "a");
}

#[test]
fn set_sql_history_returns_to_fresh_line() {
    let mut nav = NavigationState::new();
    nav.set_sql_history(strings(&["a"]));
    nav.navigate_history_up();
    assert_eq!(nav.sql_history_index, Some(0));
    nav.set_sql_history(strings(&["b", "c"]));
    assert!(nav.sql_history_index.is_none());
}

#[test]
fn sql_result_set_and_clear() {
    let mut nav = NavigationState::new();
    nav.set_sql_result(SqlResult {
        columns: strings(&["1"]),
        rows: vec![strings(&["1"])],
        message: "ok".to_string(),
    });
    assert!(nav.sql_result.is_some());
    nav.clear_sql_result();
    assert!(nav.sql_result.is_none());
}
