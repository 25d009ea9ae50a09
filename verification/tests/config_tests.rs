use rmsql::connection_config::{default_use_ssl, ConnectionConfig, ConnectionManager};
use rmsql::connection_ui::{ConnectionUI, ConnectionUIMode, InputField, UiKey};
use rmsql::user_config::{
    DatabaseInfo, SqlHistory, SqlHistoryEntry, UserConfig, UserPreferences,
};

fn config(name: &str) -> ConnectionConfig {
    ConnectionConfig::new(
        name.to_string(),
        "localhost".to_string(),
        3306,
        "user".to_string(),
        "".to_string(),
        None,
    )
}

fn entry(conn: &str, db: Option<&str>, sql: &str, t: i64) -> SqlHistoryEntry {
    SqlHistoryEntry {
        sql: sql.to_string(),
        timestamp: t,
        database: db.map(|d| d.to_string()),
        connection_id: conn.to_string(),
        execution_time_ms: Some(1),
        success: true,
        error_message: None,
    }
}

#[test]
fn ssl_default_is_on() {
    assert!(default_use_ssl());
}

#[test]
fn new_connection_has_generated_id() {
    let c = config("work");
    assert_eq!(c.id.len(), 36);
    assert_eq!(c.name, "work");
    assert!(c.use_ssl);
    let d = config("work");
    assert_ne!(c.id, d.id);
}

#[test]
fn root_connection_shape() {
    let c = ConnectionManager::create_root_connection();
    assert_eq!(c.name, "Root (Local)");
    assert_eq!(c.host, "localhost");
    assert_eq!(c.port, 3306);
    assert_eq!(c.username, "root");
    assert_eq!(c.password, "");
    assert!(c.default_database.is_none());
}

#[test]
fn manager_add_replace_remove() {
    let mut m = ConnectionManager::new();
    let a = config("alpha");
    let id = a.id.clone();
    m.add_connection(a);
    assert_eq!(m.connections.len(), 1);
    // same id replaces
    let mut a2 = config("alpha renamed");
    a2.id = id.clone();
    m.add_connection(a2);
    assert_eq!(m.connections.len(), 1);
    assert_eq!(m.connections[0].name, "alpha renamed");
    // remove
    assert!(m.remove_connection(&id));
    assert!(!m.remove_connection(&id));
    assert!(m.connections.is_empty());
}

#[test]
fn manager_last_used() {
    let mut m = ConnectionManager::new();
    let a = config("alpha");
    let id = a.id.clone();
    m.add_connection(a);
    assert!(!m.set_last_used("nope"));
    assert!(m.get_last_used().is_none());
    assert!(m.set_last_used(&id));
    assert_eq!(m.get_last_used().map(|c| c.name.as_str()), Some("alpha"));
    // removing the last-used connection clears the marker
    assert!(m.remove_connection(&id));
    assert!(m.last_used.is_none());
}

#[test]
fn list_connections_sorted_by_name() {
    let mut m = ConnectionManager::new();
    m.add_connection(config("charlie"));
    m.add_connection(config("alpha"));
    m.add_connection(config("bravo"));
    let names: Vec<String> = m
        .list_connections()
        .into_iter()
        .map(|c| c.name)
        .collect();
    assert_eq!(names, vec!["alpha", "bravo", "charlie"]);
}

#[test]
fn picker_defaults() {
    let ui = ConnectionUI::new();
    assert_eq!(ui.mode, ConnectionUIMode::List);
    assert_eq!(ui.list_state.selected, Some(0));
    assert_eq!(ui.input_field, InputField::Name);
    assert_eq!(ui.temp_config.host, "localhost");
    assert_eq!(ui.temp_config.port, 3306);
    assert!(!ui.show_password);
}

#[test]
fn field_tab_order_cycles() {
    let mut ui = ConnectionUI::new();
    let order = [
        InputField::Host,
        InputField::Port,
        InputField::Username,
        InputField::Password,
        InputField::Database,
        InputField::Name,
    ];
    for f in &order {
        ui.next_field();
        assert_eq!(&ui.input_field, f);
    }
    ui.prev_field();
    assert_eq!(ui.input_field, InputField::Database);
}

#[test]
fn port_field_edits_digit_by_digit() {
    let mut ui = ConnectionUI::new();
    ui.input_field = InputField::Port;
    // start at 3306; typing '7' widens it to 33067, which fits
    ui.input_char('7');
    assert_eq!(ui.temp_config.port, 33067);
    // one more digit would overflow a port number: ignored
    ui.input_char('1');
    assert_eq!(ui.temp_config.port, 33067);
    // non-digits are ignored
    ui.input_char('x');
    assert_eq!(ui.temp_config.port, 33067);
    ui.delete_char();
    assert_eq!(ui.temp_config.port, 3306);
    for _ in 0..5 {
        ui.delete_char();
    }
    assert_eq!(ui.temp_config.port, 0);
}

#[test]
fn database_field_created_and_cleared() {
    let mut ui = ConnectionUI::new();
    ui.input_field = InputField::Database;
    assert!(ui.temp_config.default_database.is_none());
    ui.input_char('d');
    ui.input_char('b');
    assert_eq!(ui.temp_config.default_database.as_deref(), Some("db"));
    ui.delete_char();
    assert_eq!(ui.temp_config.default_database.as_deref(), Some("d"));
    ui.delete_char();
    assert!(ui.temp_config.default_database.is_none());
}

#[test]
fn save_connection_validates() {
    let mut ui = ConnectionUI::new();
    let mut m = ConnectionManager::new();
    ui.mode = ConnectionUIMode::NewConnection;
    let (saved, changed) = ui.save_connection(&mut m);
    assert!(saved.is_none() && !changed);
    assert_eq!(ui.status_message, "Name is required");
    ui.input_field = InputField::Name;
    ui.input_char('w');
    let (saved, changed) = ui.save_connection(&mut m);
    assert!(saved.is_none() && !changed);
    assert_eq!(ui.status_message, "Username is required");
    ui.input_field = InputField::Username;
    ui.input_char('u');
    let (saved, changed) = ui.save_connection(&mut m);
    assert!(changed);
    let saved = saved.unwrap();
    assert_eq!(saved.name, "w");
    assert_eq!(ui.mode, ConnectionUIMode::List);
    assert_eq!(m.connections.len(), 1);
}

#[test]
fn picker_list_cursor_wraps() {
    let mut ui = ConnectionUI::new();
    let mut m = ConnectionManager::new();
    m.add_connection(config("alpha"));
    m.add_connection(config("bravo"));
    // two saved connections, no root entry
    let (_, changed) = ui.handle_key(UiKey::Down, &mut m, false);
    assert!(!changed);
    assert_eq!(ui.list_state.selected, Some(1));
    ui.handle_key(UiKey::Down, &mut m, false);
    assert_eq!(ui.list_state.selected, Some(0));
    ui.handle_key(UiKey::Up, &mut m, false);
    assert_eq!(ui.list_state.selected, Some(1));
}

#[test]
fn picker_enter_picks_sorted_entry() {
    let mut ui = ConnectionUI::new();
    let mut m = ConnectionManager::new();
    m.add_connection(config("bravo"));
    m.add_connection(config("alpha"));
    let (picked, _) = ui.handle_key(UiKey::Enter, &mut m, false);
    assert_eq!(picked.map(|c| c.name), Some("alpha".to_string()));
    // with the root entry offered, index 0 is the implicit root connection
    let (picked, _) = ui.handle_key(UiKey::Enter, &mut m, true);
    assert_eq!(picked.map(|c| c.username), Some("root".to_string()));
}

#[test]
fn picker_delete_updates_cursor() {
    let mut ui = ConnectionUI::new();
    let mut m = ConnectionManager::new();
    m.add_connection(config("alpha"));
    let (_, changed) = ui.handle_key(UiKey::Char('d'), &mut m, false);
    assert!(changed);
    assert!(m.connections.is_empty());
    assert_eq!(ui.list_state.selected, None);
}

#[test]
fn preferences_defaults() {
    let p = UserPreferences::default();
    assert!(p.auto_save_history);
    assert_eq!(p.max_history_entries, 1000);
    assert!(p.show_execution_time);
    assert!(p.confirm_dangerous_queries);
    assert_eq!(p.default_limit, Some(100));
}

#[test]
fn user_config_database_bookkeeping() {
    let mut c = UserConfig::default();
    c.add_database("conn1".to_string(), "app".to_string(), 100);
    c.add_database("conn1".to_string(), "logs".to_string(), 200);
    c.add_database("conn2".to_string(), "app".to_string(), 300);
    assert_eq!(c.databases.len(), 3);
    // re-adding the same key replaces the record
    c.add_database("conn1".to_string(), "app".to_string(), 400);
    assert_eq!(c.databases.len(), 3);
    let for_conn1 = c.get_databases_for_connection(&"conn1".to_string());
    assert_eq!(for_conn1.len(), 2);
    assert!(c.remove_database(&"conn1".to_string(), &"logs".to_string()));
    assert!(!c.remove_database(&"conn1".to_string(), &"logs".to_string()));
    assert_eq!(c.databases.len(), 2);
}

#[test]
fn user_config_favorites_and_access() {
    let mut c = UserConfig::default();
    c.add_database("conn".to_string(), "app".to_string(), 100);
    c.add_database("conn".to_string(), "logs".to_string(), 200);
    c.set_database_favorite(&"conn".to_string(), &"app".to_string(), true);
    let favs = c.get_favorite_databases();
    assert_eq!(favs.len(), 1);
    assert_eq!(favs[0].name, "app");
    c.update_database_access(&"conn".to_string(), &"app".to_string(), 900);
    let recents = c.get_recent_databases(1);
    assert_eq!(recents.len(), 1);
    assert_eq!(recents[0].name, "app");
    assert_eq!(recents[0].last_accessed, Some(900));
    // the favorite flag survives the access-time update
    assert!(recents[0].favorite);
}

#[test]
fn recent_databases_sorted_newest_first() {
    let mut c = UserConfig::default();
    c.databases.push(DatabaseInfo {
        name: "old".to_string(),
        connection_id: "conn".to_string(),
        last_accessed: Some(10),
        favorite: false,
    });
    c.databases.push(DatabaseInfo {
        name: "never".to_string(),
        connection_id: "conn".to_string(),
        last_accessed: None,
        favorite: false,
    });
    c.databases.push(DatabaseInfo {
        name: "new".to_string(),
        connection_id: "conn".to_string(),
        last_accessed: Some(99),
        favorite: false,
    });
    let names: Vec<String> = c
        .get_recent_databases(10)
        .into_iter()
        .map(|d| d.name)
        .collect();
    assert_eq!(names, vec!["new", "old", "never"]);
}

#[test]
fn last_database_pair() {
    let mut c = UserConfig::default();
    assert!(c.get_last_database().is_none());
    c.set_last_database("conn".to_string(), "app".to_string());
    assert_eq!(
        c.get_last_database(),
        Some(("conn".to_string(), "app".to_string()))
    );
}

#[test]
fn history_bounded_append() {
    let mut h = SqlHistory::default();
    h.max_entries = 2;
    assert!(h.add_sql_history(entry("c", None, "one", 1), true));
    assert!(h.add_sql_history(entry("c", None, "two", 2), true));
    assert!(h.add_sql_history(entry("c", None, "three", 3), true));
    let sqls: Vec<&str> = h.entries.iter().map(|e| e.sql.as_str()).collect();
    assert_eq!(sqls, vec!["two", "three"]);
    // with saving off nothing is stored
    assert!(!h.add_sql_history(entry("c", None, "four", 4), false));
    assert_eq!(h.entries.len(), 2);
}

#[test]
fn recent_sql_commands_newest_first() {
    let mut h = SqlHistory::default();
    h.add_sql_history(entry("c", None, "one", 1), true);
    h.add_sql_history(entry("c", None, "two", 2), true);
    h.add_sql_history(entry("c", None, "three", 3), true);
    assert_eq!(h.get_recent_sql_commands(2), vec!["three", "two"]);
    assert_eq!(
        h.get_recent_sql_commands(10),
        vec!["three", "two", "one"]
    );
}

#[test]
fn history_filters() {
    let mut h = SqlHistory::default();
    h.add_sql_history(entry("c1", Some("app"), "a", 1), true);
    h.add_sql_history(entry("c2", Some("app"), "b", 2), true);
    h.add_sql_history(entry("c1", Some("logs"), "c", 3), true);
    h.add_sql_history(entry("c1", None, "d", 4), true);
    assert_eq!(h.get_sql_history().len(), 4);
    let c1 = h.get_sql_history_for_connection(&"c1".to_string());
    assert_eq!(c1.len(), 3);
    let c1_app = h.get_sql_history_for_database(&"c1".to_string(), &"app".to_string());
    assert_eq!(c1_app.len(), 1);
    assert_eq!(c1_app[0].sql, "a");
    h.clear_history_for_connection(&"c1".to_string());
    assert_eq!(h.entries.len(), 1);
    assert_eq!(h.entries[0].sql, "b");
    h.clear_history();
    assert!(h.entries.is_empty());
}
