use rmsql::controller::{Action, App, Key, RefreshTarget};
use rmsql::navigation::ViewMode;

fn strings(v: &[&str]) -> Vec<String> {
    v.iter().map(|s| s.to_string()).collect()
}

const WIDTH: u16 = 80;

fn refresh(app: &mut App) {
    // Play the backend: answer the refresh request with stubbed snapshots.
    match app.refresh_target() {
        RefreshTarget::Databases => app.navigation.set_databases(strings(&["app", "logs"])),
        RefreshTarget::Tables(db) => {
            assert_eq!(db, "app");
            app.navigation.set_tables(strings(&["users"]));
        }
        RefreshTarget::TableData(db, table) => {
            assert_eq!(db, "app");
            assert_eq!(table, "users");
            app.navigation.set_table_data(
                strings(&["id (int)", "name (varchar)"]),
                vec![strings(&["1", "alice"]), strings(&["2", "bob"])],
            );
        }
        RefreshTarget::SqlHistory => app.navigation.set_sql_history(Vec::new()),
    }
}

fn step(app: &mut App, key: Key) -> Action {
    let action = app.handle_key_event(key, WIDTH);
    if matches!(action, Action::Refresh) {
        refresh(app);
    }
    action
}

#[test]
fn fresh_app_defaults() {
    let app = App::new();
    assert_eq!(app.navigation.mode, ViewMode::Databases);
    assert!(!app.should_quit);
    assert_eq!(
        app.status_message,
        "Welcome to RMSQL - Press 'q' to quit, 'h' for help"
    );
}

#[test]
fn drill_down_scenario() {
    let mut app = App::new();
    refresh(&mut app);
    // open "app", then its table "users"
    step(&mut app, Key::Enter);
    assert_eq!(app.navigation.mode, ViewMode::Tables);
    assert_eq!(app.navigation.current_database.as_deref(), Some("app"));
    assert_eq!(app.status_message, "Switched to database: app");
    step(&mut app, Key::Enter);
    assert_eq!(app.navigation.mode, ViewMode::TableData);
    assert_eq!(app.navigation.current_table.as_deref(), Some("users"));
    assert_eq!(
        app.navigation.table_rows,
        vec![strings(&["1", "alice"]), strings(&["2", "bob"])]
    );
}

#[test]
fn enter_with_empty_catalogue_is_silent() {
    let mut app = App::new();
    let action = app.handle_key_event(Key::Enter, WIDTH);
    assert!(matches!(action, Action::Nothing));
    assert_eq!(app.navigation.mode, ViewMode::Databases);
}

#[test]
fn quit_key_sets_flag() {
    let mut app = App::new();
    let action = app.handle_key_event(Key::Char('q'), WIDTH);
    assert!(matches!(action, Action::Nothing));
    assert!(app.should_quit);
}

#[test]
fn help_key_sets_status() {
    let mut app = App::new();
    app.handle_key_event(Key::Char('?'), WIDTH);
    assert_eq!(
        app.status_message,
        "Help: j/k=up/down, h/l=back/forward, r=refresh, 1/2/3=modes, i=SQL editor, Space=expand, q=quit"
    );
}

#[test]
fn invalid_mode_switch_is_ignored() {
    let mut app = App::new();
    let action = app.handle_key_event(Key::Char('2'), WIDTH);
    assert!(matches!(action, Action::Nothing));
    assert_eq!(app.navigation.mode, ViewMode::Databases);
}

#[test]
fn mode_switch_keys_with_selection() {
    let mut app = App::new();
    refresh(&mut app);
    step(&mut app, Key::Enter);
    step(&mut app, Key::Enter);
    assert_eq!(app.navigation.mode, ViewMode::TableData);
    let action = step(&mut app, Key::Char('1'));
    assert!(matches!(action, Action::Refresh));
    assert_eq!(app.navigation.mode, ViewMode::Databases);
    let action = step(&mut app, Key::Char('3'));
    assert!(matches!(action, Action::Refresh));
    assert_eq!(app.navigation.mode, ViewMode::TableData);
    let action = step(&mut app, Key::Char('2'));
    assert!(matches!(action, Action::Refresh));
    assert_eq!(app.navigation.mode, ViewMode::Tables);
}

#[test]
fn back_navigation() {
    let mut app = App::new();
    refresh(&mut app);
    step(&mut app, Key::Enter);
    step(&mut app, Key::Enter);
    step(&mut app, Key::Esc);
    assert_eq!(app.navigation.mode, ViewMode::Tables);
    assert_eq!(app.status_message, "Switched to tables view");
    step(&mut app, Key::Esc);
    assert_eq!(app.navigation.mode, ViewMode::Databases);
    let action = app.handle_key_event(Key::Esc, WIDTH);
    assert!(matches!(action, Action::Nothing));
    assert_eq!(app.navigation.mode, ViewMode::Databases);
}

#[test]
fn space_toggles_and_sizes_window() {
    let mut app = App::new();
    refresh(&mut app);
    step(&mut app, Key::Enter);
    step(&mut app, Key::Enter);
    // width 80: (80 - 4) / 22 = 3 columns would fit, but the table has 2
    app.handle_key_event(Key::Char(' '), WIDTH);
    assert!(app.navigation.expanded_columns);
    assert_eq!(app.navigation.visible_columns, 2);
    app.handle_key_event(Key::Char(' '), WIDTH);
    assert!(!app.navigation.expanded_columns);
    assert_eq!(
        app.status_message,
        "Normal mode: Press Space to expand columns"
    );
}

#[test]
fn expanded_h_scrolls_instead_of_navigating() {
    let mut app = App::new();
    refresh(&mut app);
    step(&mut app, Key::Enter);
    step(&mut app, Key::Enter);
    // a narrow terminal forces a one-column window
    app.handle_key_event(Key::Char(' '), 10);
    assert!(app.navigation.expanded_columns);
    assert_eq!(app.navigation.visible_columns, 1);
    let action = app.handle_key_event(Key::Char('l'), 10);
    assert!(matches!(action, Action::Nothing));
    assert_eq!(app.navigation.mode, ViewMode::TableData);
    assert_eq!(app.navigation.horizontal_scroll, 1);
    let action = app.handle_key_event(Key::Char('l'), 10);
    assert!(matches!(action, Action::Nothing));
    assert_eq!(app.navigation.horizontal_scroll, 1);
    let action = app.handle_key_event(Key::Char('h'), 10);
    assert!(matches!(action, Action::Nothing));
    assert_eq!(app.navigation.horizontal_scroll, 0);
    assert_eq!(app.navigation.mode, ViewMode::TableData);
}

#[test]
fn scroll_status_line() {
    let mut app = App::new();
    refresh(&mut app);
    step(&mut app, Key::Enter);
    step(&mut app, Key::Enter);
    app.handle_key_event(Key::Char(' '), 10);
    app.handle_key_event(Key::Char('l'), 10);
    assert_eq!(
        app.status_message,
        "Expanded: Columns 2-2 of 2 | <-> scroll, Space exit, h back"
    );
}

#[test]
fn editor_entry_and_execution() {
    let mut app = App::new();
    refresh(&mut app);
    step(&mut app, Key::Enter);
    let action = step(&mut app, Key::Char('i'));
    assert!(matches!(action, Action::Refresh));
    assert_eq!(app.navigation.mode, ViewMode::SqlEditor);
    assert!(app.navigation.sql_result.is_none());
    for c in "SELECT 1".chars() {
        app.handle_key_event(Key::Char(c), WIDTH);
    }
    assert_eq!(app.navigation.sql_input, "SELECT 1");
    let action = app.handle_key_event(Key::Enter, WIDTH);
    match action {
        Action::Execute(sql) => {
            assert_eq!(sql, "SELECT 1");
            app.apply_sql_result(
                strings(&["1"]),
                vec![strings(&["1"])],
                "Query executed successfully. 1 rows returned.".to_string(),
            );
        }
        _ => panic!("expected an execute action"),
    }
    let result = app.navigation.sql_result.as_ref().unwrap();
    assert_eq!(result.columns, strings(&["1"]));
    assert_eq!(
        app.status_message,
        "Query executed successfully. 1 rows returned."
    );
    assert_eq!(app.navigation.sql_input, "");
    assert_eq!(
        app.navigation.sql_history.last().map(|s| s.as_str()),
        Some("SELECT 1")
    );
}

#[test]
fn editor_error_result() {
    let mut app = App::new();
    step(&mut app, Key::Char('i'));
    app.apply_sql_error("no such table".to_string());
    let result = app.navigation.sql_result.as_ref().unwrap();
    assert!(result.columns.is_empty());
    assert_eq!(result.message, "Error: no such table");
    assert_eq!(app.status_message, "SQL Error: no such table");
}

#[test]
fn editor_q_is_a_character() {
    let mut app = App::new();
    step(&mut app, Key::Char('i'));
    app.handle_key_event(Key::Char('q'), WIDTH);
    assert!(!app.should_quit);
    assert_eq!(app.navigation.sql_input, "q");
}

#[test]
fn editor_empty_enter_does_nothing() {
    let mut app = App::new();
    step(&mut app, Key::Char('i'));
    let action = app.handle_key_event(Key::Enter, WIDTH);
    assert!(matches!(action, Action::Nothing));
    assert!(app.navigation.sql_history.is_empty());
}

#[test]
fn editor_escape_returns_to_deepest_view() {
    let mut app = App::new();
    refresh(&mut app);
    step(&mut app, Key::Enter);
    step(&mut app, Key::Char('i'));
    assert_eq!(app.navigation.mode, ViewMode::SqlEditor);
    let action = step(&mut app, Key::Esc);
    assert!(matches!(action, Action::Refresh));
    assert_eq!(app.navigation.mode, ViewMode::Tables);
    assert_eq!(app.status_message, "Exited SQL Editor mode");
}

#[test]
fn refresh_key_reloads_and_sets_status() {
    let mut app = App::new();
    let action = step(&mut app, Key::Char('r'));
    assert!(matches!(action, Action::Refresh));
    assert_eq!(app.navigation.databases, strings(&["app", "logs"]));
    assert_eq!(app.status_message, "Databases loaded");
}

#[test]
fn refresh_target_follows_mode() {
    let mut app = App::new();
    assert!(matches!(app.refresh_target(), RefreshTarget::Databases));
    refresh(&mut app);
    step(&mut app, Key::Enter);
    assert!(matches!(app.refresh_target(), RefreshTarget::Tables(_)));
    step(&mut app, Key::Enter);
    assert!(matches!(app.refresh_target(), RefreshTarget::TableData(_, _)));
    step(&mut app, Key::Char('i'));
    assert!(matches!(app.refresh_target(), RefreshTarget::SqlHistory));
}

#[test]
fn navigation_keys_move_cursor() {
    let mut app = App::new();
    refresh(&mut app);
    app.handle_key_event(Key::Char('j'), WIDTH);
    assert_eq!(app.navigation.database_list_state.selected, Some(1));
    app.handle_key_event(Key::Char('k'), WIDTH);
    assert_eq!(app.navigation.database_list_state.selected, Some(0));
    app.handle_key_event(Key::Char('G'), WIDTH);
    assert_eq!(app.navigation.database_list_state.selected, Some(1));
    app.handle_key_event(Key::Char('g'), WIDTH);
    assert_eq!(app.navigation.database_list_state.selected, Some(0));
}
