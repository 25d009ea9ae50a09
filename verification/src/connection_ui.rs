//! The connection picker: a list of saved connections with a wrap-around
//! cursor, and a form for creating or editing one. The picker's drawing,
//! the clock, and the question whether the process runs as root belong to
//! the binary; the binary also persists the manager whenever a step reports
//! it changed.

use vstd::prelude::*;
use vstd::string::StringExecFns;

use crate::connection_config::{has_id, ConnectionConfig, ConnectionManager};
use crate::cursor::ListCursor;
use crate::strops;
use crate::strops::trim_of;

verus! {

/// Which screen the picker shows: the list, a blank form, or a form editing
/// the connection with the carried id.
#[derive(Debug, Clone, PartialEq)]
pub enum ConnectionUIMode {
    List,
    NewConnection,
    EditConnection(String),
}

/// The form field the cursor sits in.
#[derive(Debug, Clone, PartialEq, Eq, Structural)]
pub enum InputField {
    Name,
    Host,
    Port,
    Username,
    Password,
    Database,
}

/// One key press, as the picker sees it.
#[derive(Debug)]
pub enum UiKey {
    Up,
    Down,
    Enter,
    Esc,
    Tab,
    BackTab,
    Backspace,
    Ctrl(char),
    Char(char),
    Other,
}

/// The picker state.
#[derive(Debug)]
pub struct ConnectionUI {
    pub mode: ConnectionUIMode,
    pub list_state: ListCursor,
    pub input_field: InputField,
    pub temp_config: ConnectionConfig,
    pub show_password: bool,
    pub status_message: String,
}

/// The field after `f` in tab order (wrapping).
pub open spec fn next_input_field(f: InputField) -> InputField {
    match f {
        InputField::Name => InputField::Host,
        InputField::Host => InputField::Port,
        InputField::Port => InputField::Username,
        InputField::Username => InputField::Password,
        InputField::Password => InputField::Database,
        InputField::Database => InputField::Name,
    }
}

/// The field before `f` in tab order (wrapping).
pub open spec fn prev_input_field(f: InputField) -> InputField {
    match f {
        InputField::Name => InputField::Database,
        InputField::Host => InputField::Name,
        InputField::Port => InputField::Host,
        InputField::Username => InputField::Port,
        InputField::Password => InputField::Username,
        InputField::Database => InputField::Password,
    }
}

/// The port after typing one character into the port field: appending a
/// decimal digit when the widened value still fits a port number, anything
/// else leaving the value alone.
pub open spec fn port_after_char(port: u16, c: char) -> u16 {
    if '0' <= c <= '9' {
        let d = (c as u32) - ('0' as u32);
        if port as int * 10 + d <= 65535 {
            (port as int * 10 + d) as u16
        } else {
            port
        }
    } else {
        port
    }
}

/// The wrap-around cursor one step up: from the top it jumps to the last of
/// `total` entries (0 when there are none); with no selection it lands on 0.
pub open spec fn wrap_up(sel: Option<usize>, total: nat) -> usize {
    match sel {
        Some(i) => if i == 0 {
            if total > 0 {
                (total - 1) as usize
            } else {
                0
            }
        } else {
            (i - 1) as usize
        },
        None => 0,
    }
}

/// The wrap-around cursor one step down: past the last of `total` entries
/// it jumps back to 0; with no selection it lands on 0.
pub open spec fn wrap_down(sel: Option<usize>, total: nat) -> usize {
    match sel {
        Some(i) => if i + 1 >= total {
            0
        } else {
            (i + 1) as usize
        },
        None => 0,
    }
}

/// The relation `input_char` establishes between the picker before and
/// after typing `c`: only the selected form field changes, as described at
/// each arm.
pub open spec fn typed_char(pre: ConnectionUI, post: ConnectionUI, c: char) -> bool {
    &&& post.mode == pre.mode
    &&& post.input_field == pre.input_field
    &&& post.list_state == pre.list_state
    &&& post.show_password == pre.show_password
    &&& post.status_message == pre.status_message
    &&& post.temp_config.id == pre.temp_config.id
    &&& post.temp_config.use_ssl == pre.temp_config.use_ssl
    &&& match pre.input_field {
        InputField::Name => post.temp_config == (ConnectionConfig {
            name: post.temp_config.name,
            ..pre.temp_config
        }) && post.temp_config.name@ == pre.temp_config.name@.push(c),
        InputField::Host => post.temp_config == (ConnectionConfig {
            host: post.temp_config.host,
            ..pre.temp_config
        }) && post.temp_config.host@ == pre.temp_config.host@.push(c),
        InputField::Port => post.temp_config == (ConnectionConfig {
            port: port_after_char(pre.temp_config.port, c),
            ..pre.temp_config
        }),
        InputField::Username => post.temp_config == (ConnectionConfig {
            username: post.temp_config.username,
            ..pre.temp_config
        }) && post.temp_config.username@ == pre.temp_config.username@.push(c),
        InputField::Password => post.temp_config == (ConnectionConfig {
            password: post.temp_config.password,
            ..pre.temp_config
        }) && post.temp_config.password@ == pre.temp_config.password@.push(c),
        InputField::Database => post.temp_config == (ConnectionConfig {
            default_database: post.temp_config.default_database,
            ..pre.temp_config
        }) && post.temp_config.default_database is Some
            && post.temp_config.default_database->0@ == (match pre.temp_config.default_database {
            Some(db) => db@,
            None => Seq::<char>::empty(),
        }).push(c),
    }
}

/// The relation `delete_char` establishes: one erasure in the selected form
/// field, as described at each arm.
pub open spec fn erased_char(pre: ConnectionUI, post: ConnectionUI) -> bool {
    &&& post.mode == pre.mode
    &&& post.input_field == pre.input_field
    &&& post.list_state == pre.list_state
    &&& post.show_password == pre.show_password
    &&& post.status_message == pre.status_message
    &&& post.temp_config.id == pre.temp_config.id
    &&& post.temp_config.use_ssl == pre.temp_config.use_ssl
    &&& match pre.input_field {
        InputField::Name => post.temp_config == (ConnectionConfig {
            name: post.temp_config.name,
            ..pre.temp_config
        }) && post.temp_config.name@ == dropped(pre.temp_config.name@),
        InputField::Host => post.temp_config == (ConnectionConfig {
            host: post.temp_config.host,
            ..pre.temp_config
        }) && post.temp_config.host@ == dropped(pre.temp_config.host@),
        InputField::Port => post.temp_config == (ConnectionConfig {
            port: (pre.temp_config.port / 10) as u16,
            ..pre.temp_config
        }),
        InputField::Username => post.temp_config == (ConnectionConfig {
            username: post.temp_config.username,
            ..pre.temp_config
        }) && post.temp_config.username@ == dropped(pre.temp_config.username@),
        InputField::Password => post.temp_config == (ConnectionConfig {
            password: post.temp_config.password,
            ..pre.temp_config
        }) && post.temp_config.password@ == dropped(pre.temp_config.password@),
        InputField::Database => post.temp_config == (ConnectionConfig {
            default_database: post.temp_config.default_database,
            ..pre.temp_config
        }) && post.temp_config.default_database.deep_view() == (match pre
            .temp_config
            .default_database {
            Some(db) => if db@.len() <= 1 {
                None
            } else {
                Some(db@.drop_last())
            },
            None => None,
        }),
    }
}

impl ConnectionUI {
    /// A fresh picker: the list screen, the first row selected, a blank
    /// form behind it.
    pub fn new() -> (r: ConnectionUI)
        ensures
            r.mode is List,
            r.list_state.selected == Some(0usize),
            r.input_field is Name,
            r.temp_config.name@.len() == 0,
            r.temp_config.host@ == "localhost"@,
            r.temp_config.port == 3306,
            r.temp_config.username@.len() == 0,
            r.temp_config.password@.len() == 0,
            r.temp_config.default_database is None,
            !r.show_password,
    {
        let mut list_state = ListCursor::new();
        list_state.select(Some(0));
        ConnectionUI {
            mode: ConnectionUIMode::List,
            list_state,
            input_field: InputField::Name,
            temp_config: ConnectionConfig::new(
                String::new(),
                "localhost".to_owned(),
                3306,
                String::new(),
                String::new(),
                None,
            ),
            show_password: false,
            status_message: "Select a connection or create a new one".to_owned(),
        }
    }

    /// How many rows the list shows: the saved connections, plus the
    /// implicit root entry when running as root.
    pub fn get_total_connections(&self, manager: &ConnectionManager, root_available: bool) -> (r:
        usize)
        requires
            manager.connections@.len() < usize::MAX,
        ensures
            r == manager.connections@.len() + if root_available {
                1int
            } else {
                0int
            },
    {
        if root_available {
            manager.connections.len() + 1
        } else {
            manager.connections.len()
        }
    }

    /// The connection row `index` points at: the implicit root connection
    /// first when available, then the saved connections in name order.
    /// Which saved entry a given index yields follows the sorted order, so
    /// the contract promises only that the result is one of the saved
    /// entries (or the root entry at index 0).
    pub fn get_selected_connection(
        &self,
        index: usize,
        manager: &ConnectionManager,
        root_available: bool,
    ) -> (r: Option<ConnectionConfig>)
        ensures
            match r {
                Some(c) => (root_available && index == 0 && c.username@ == "root"@ && c.port
                    == 3306) || exists|j: int|
                    0 <= j < manager.connections@.len() && #[trigger] manager.connections@[j]
                        == c,
                None => true,
            },
    {
        proof {
            broadcast use vstd::prelude::Seq::to_multiset_ensures;

        }
        let mut offset: usize = 0;
        if root_available {
            if index == 0 {
                return Some(ConnectionManager::create_root_connection());
            }
            offset = 1;
        }
        let list = manager.list_connections();
        let idx = index - offset;
        if idx < list.len() {
            let c = list[idx].clone();
            proof {
                list@.to_multiset_ensures();
                manager.connections@.to_multiset_ensures();
                assert(list@[idx as int] == c);
                assert(list@.contains(c));
                assert(list@.to_multiset().count(c) > 0);
                assert(manager.connections@.to_multiset().count(c) > 0);
                assert(manager.connections@.contains(c));
                let w = choose|w: int| 0 <= w < manager.connections@.len()
                    && manager.connections@[w] == c;
                assert(manager.connections@[w] == c);
            }
            Some(c)
        } else {
            None
        }
    }

    /// The saved connection row `index` points at, skipping the implicit
    /// root entry, which cannot be edited.
    pub fn get_connection_by_index(
        &self,
        index: usize,
        manager: &ConnectionManager,
        root_available: bool,
    ) -> (r: Option<ConnectionConfig>)
        ensures
            match r {
                Some(c) => exists|j: int|
                    0 <= j < manager.connections@.len() && #[trigger] manager.connections@[j]
                        == c,
                None => true,
            },
    {
        proof {
            broadcast use vstd::prelude::Seq::to_multiset_ensures;

        }
        let mut offset: usize = 0;
        if root_available {
            if index == 0 {
                return None;
            }
            offset = 1;
        }
        let list = manager.list_connections();
        let idx = index - offset;
        if idx < list.len() {
            let c = list[idx].clone();
            proof {
                list@.to_multiset_ensures();
                manager.connections@.to_multiset_ensures();
                assert(list@[idx as int] == c);
                assert(list@.contains(c));
                assert(list@.to_multiset().count(c) > 0);
                assert(manager.connections@.to_multiset().count(c) > 0);
                assert(manager.connections@.contains(c));
                let w = choose|w: int| 0 <= w < manager.connections@.len()
                    && manager.connections@[w] == c;
                assert(manager.connections@[w] == c);
            }
            Some(c)
        } else {
            None
        }
    }

    /// Move the form cursor to the next field.
    pub fn next_field(&mut self)
        ensures
            final(self).input_field == next_input_field(old(self).input_field),
            final(self).mode == old(self).mode,
            final(self).temp_config == old(self).temp_config,
            final(self).list_state == old(self).list_state,
            final(self).show_password == old(self).show_password,
            final(self).status_message == old(self).status_message,
    {
        self.input_field = match self.input_field {
            InputField::Name => InputField::Host,
            InputField::Host => InputField::Port,
            InputField::Port => InputField::Username,
            InputField::Username => InputField::Password,
            InputField::Password => InputField::Database,
            InputField::Database => InputField::Name,
        };
    }

    /// Move the form cursor to the previous field.
    pub fn prev_field(&mut self)
        ensures
            final(self).input_field == prev_input_field(old(self).input_field),
            final(self).mode == old(self).mode,
            final(self).temp_config == old(self).temp_config,
            final(self).list_state == old(self).list_state,
            final(self).show_password == old(self).show_password,
            final(self).status_message == old(self).status_message,
    {
        self.input_field = match self.input_field {
            InputField::Name => InputField::Database,
            InputField::Host => InputField::Name,
            InputField::Port => InputField::Host,
            InputField::Username => InputField::Port,
            InputField::Password => InputField::Username,
            InputField::Database => InputField::Password,
        };
    }

    /// Type one character into the selected form field. The port field
    /// accepts decimal digits while the value stays a legal port; the
    /// database field is created on the first character.
    pub fn input_char(&mut self, c: char)
        ensures
            typed_char(*old(self), *final(self), c),
    {
        match self.input_field {
            InputField::Name => strops::push_char(&mut self.temp_config.name, c),
            InputField::Host => strops::push_char(&mut self.temp_config.host, c),
            InputField::Port => {
                if c >= '0' && c <= '9' {
                    let d = (c as u32) - ('0' as u32);
                    let widened: u32 = (self.temp_config.port as u32) * 10 + d;
                    if widened <= 65535 {
                        self.temp_config.port = widened as u16;
                    }
                }
            },
            InputField::Username => strops::push_char(&mut self.temp_config.username, c),
            InputField::Password => strops::push_char(&mut self.temp_config.password, c),
            InputField::Database => {
                if self.temp_config.default_database.is_none() {
                    self.temp_config.default_database = Some(String::new());
                }
                match &mut self.temp_config.default_database {
                    Some(db) => strops::push_char(db, c),
                    None => {},
                }
            },
        }
    }

    /// Erase one character from the selected form field. The port field
    /// drops its last decimal digit; the database field is cleared to
    /// "unset" when its last character goes.
    pub fn delete_char(&mut self)
        ensures
            erased_char(*old(self), *final(self)),
    {
        match self.input_field {
            InputField::Name => {
                let _ = strops::pop_char(&mut self.temp_config.name);
            },
            InputField::Host => {
                let _ = strops::pop_char(&mut self.temp_config.host);
            },
            InputField::Port => {
                self.temp_config.port = self.temp_config.port / 10;
            },
            InputField::Username => {
                let _ = strops::pop_char(&mut self.temp_config.username);
            },
            InputField::Password => {
                let _ = strops::pop_char(&mut self.temp_config.password);
            },
            InputField::Database => {
                let mut clear = false;
                match &mut self.temp_config.default_database {
                    Some(db) => {
                        let _ = strops::pop_char(db);
                        if db.as_str().is_empty() {
                            clear = true;
                        }
                    },
                    None => {},
                }
                if clear {
                    self.temp_config.default_database = None;
                }
            },
        }
    }

    /// Replace the form contents with a blank connection and park the
    /// cursor on the name field.
    pub fn reset_temp_config(&mut self)
        ensures
            final(self).input_field is Name,
            final(self).temp_config.name@.len() == 0,
            final(self).temp_config.host@ == "localhost"@,
            final(self).temp_config.port == 3306,
            final(self).temp_config.username@.len() == 0,
            final(self).temp_config.password@.len() == 0,
            final(self).temp_config.default_database is None,
            final(self).temp_config.use_ssl,
            final(self).mode == old(self).mode,
            final(self).list_state == old(self).list_state,
            final(self).show_password == old(self).show_password,
            final(self).status_message == old(self).status_message,
    {
        self.temp_config = ConnectionConfig::new(
            String::new(),
            "localhost".to_owned(),
            3306,
            String::new(),
            String::new(),
            None,
        );
        self.input_field = InputField::Name;
    }

    /// Validate and store the form: a blank name or username only sets the
    /// status line; otherwise the connection (under its carried id when
    /// editing) is stored in the manager, the picker returns to the list,
    /// and the stored record is handed back. The second result says whether
    /// the manager changed (the binary persists it then).
    pub fn save_connection(&mut self, manager: &mut ConnectionManager) -> (r: (
        Option<ConnectionConfig>,
        bool,
    ))
        requires
            old(manager).wf(),
        ensures
            final(manager).wf(),
            trim_of(old(self).temp_config.name@).len() == 0 ==> *final(manager) == *old(manager)
                && r.0 is None && !r.1 && final(self).status_message@ == "Name is required"@,
            trim_of(old(self).temp_config.name@).len() != 0 && trim_of(
                old(self).temp_config.username@,
            ).len() == 0 ==> *final(manager) == *old(manager) && r.0 is None && !r.1 && final(self).status_message@ == "Username is required"@,
            trim_of(old(self).temp_config.name@).len() != 0 && trim_of(
                old(self).temp_config.username@,
            ).len() != 0 ==> match old(self).mode {
                ConnectionUIMode::List => *final(manager) == *old(manager) && r.0 is None && !r.1,
                ConnectionUIMode::NewConnection => r.0 == Some(old(self).temp_config) && r.1
                    && final(self).mode is List && has_id(
                    final(manager).connections@,
                    old(self).temp_config.id@,
                ),
                ConnectionUIMode::EditConnection(id) => r.0 is Some && r.0->0.id == id && r.1
                    && final(self).mode is List && has_id(final(manager).connections@, id@),
            },
    {
        let name_trimmed = strops::trim(self.temp_config.name.as_str());
        if name_trimmed.is_empty() {
            self.status_message = "Name is required".to_owned();
            return (None, false);
        }
        let username_trimmed = strops::trim(self.temp_config.username.as_str());
        if username_trimmed.is_empty() {
            self.status_message = "Username is required".to_owned();
            return (None, false);
        }
        let edit_id = match &self.mode {
            ConnectionUIMode::NewConnection => None,
            ConnectionUIMode::EditConnection(id) => Some(id.clone()),
            ConnectionUIMode::List => {
                return (None, false);
            },
        };
        match edit_id {
            None => {
                let config = self.temp_config.clone();
                manager.add_connection(config.clone());
                proof {
                    lemma_stored_id(old(manager).connections@, manager.connections@, config);
                }
                self.mode = ConnectionUIMode::List;
                (Some(config), true)
            },
            Some(id) => {
                self.temp_config.id = id;
                let config = self.temp_config.clone();
                manager.add_connection(config.clone());
                proof {
                    lemma_stored_id(old(manager).connections@, manager.connections@, config);
                }
                self.mode = ConnectionUIMode::List;
                (Some(config), true)
            },
        }
    }
}

impl ConnectionUI {
    /// One key on the list screen. The second result says whether the
    /// manager changed (the binary persists it then); the first carries the
    /// connection chosen with Enter, if any.
    pub fn handle_list_key(
        &mut self,
        key: UiKey,
        manager: &mut ConnectionManager,
        root_available: bool,
    ) -> (r: (Option<ConnectionConfig>, bool))
        requires
            old(self).mode is List,
            old(manager).wf(),
            old(manager).connections@.len() < usize::MAX,
        ensures
            final(manager).wf(),
            !r.1 ==> *final(manager) == *old(manager),
            match key {
                UiKey::Up => final(self).list_state.selected == Some(
                    wrap_up(
                        old(self).list_state.selected,
                        old(manager).connections@.len() + if root_available {
                            1nat
                        } else {
                            0nat
                        },
                    ),
                ) && !r.1 && r.0 is None,
                UiKey::Down => final(self).list_state.selected == Some(
                    wrap_down(
                        old(self).list_state.selected,
                        old(manager).connections@.len() + if root_available {
                            1nat
                        } else {
                            0nat
                        },
                    ),
                ) && !r.1 && r.0 is None,
                UiKey::Enter => !r.1 && *final(self) == *old(self) && (r.0 is Some ==> (
                root_available && r.0->0.username@
                    == "root"@ && r.0->0.port == 3306) || exists|j: int|
                    0 <= j < old(manager).connections@.len() && #[trigger] old(
                        manager,
                    ).connections@[j] == r.0->0),
                UiKey::Char(c) => if c == 'n' {
                    !r.1 && r.0 is None && final(self).mode is NewConnection && final(self).input_field is Name && final(self).temp_config.name@.len() == 0
                } else if c == 'd' {
                    r.0 is None && (r.1 ==> (exists|j: int|
                        0 <= j < old(manager).connections@.len() && final(manager).connections@
                            == #[trigger] old(manager).connections@.remove(j))
                        && crate::navigation::cursor_wf(
                        final(self).list_state.selected,
                        (old(manager).connections@.len() - 1 + if root_available {
                            1int
                        } else {
                            0int
                        }) as nat,
                    ))
                } else if c == 'e' {
                    !r.1 && r.0 is None && (final(self).mode matches
                        ConnectionUIMode::EditConnection(id) ==> has_id(
                        old(manager).connections@,
                        id@,
                    ))
                } else {
                    !r.1 && r.0 is None && *final(self) == *old(self)
                },
                _ => !r.1 && r.0 is None && *final(self) == *old(self),
            },
    {
        match key {
            UiKey::Up => {
                let total = self.get_total_connections(manager, root_available);
                let next: usize = match self.list_state.selected() {
                    Some(i) => if i == 0 {
                        if total > 0 {
                            total - 1
                        } else {
                            0
                        }
                    } else {
                        i - 1
                    },
                    None => 0,
                };
                self.list_state.select(Some(next));
                (None, false)
            },
            UiKey::Down => {
                let total = self.get_total_connections(manager, root_available);
                let next: usize = match self.list_state.selected() {
                    Some(i) => if total == 0 || i >= total - 1 {
                        0
                    } else {
                        i + 1
                    },
                    None => 0,
                };
                self.list_state.select(Some(next));
                (None, false)
            },
            UiKey::Enter => {
                match self.list_state.selected() {
                    Some(selected) => (
                        self.get_selected_connection(selected, manager, root_available),
                        false,
                    ),
                    None => (None, false),
                }
            },
            UiKey::Char(c) => {
                if c == 'n' {
                    self.mode = ConnectionUIMode::NewConnection;
                    self.reset_temp_config();
                    (None, false)
                } else if c == 'e' {
                    match self.list_state.selected() {
                        Some(selected) => {
                            match self.get_connection_by_index(selected, manager, root_available) {
                                Some(config) => {
                                    proof {
                                        let j = choose|j: int|
                                            0 <= j < manager.connections@.len()
                                                && manager.connections@[j] == config;
                                        assert(manager.connections@[j].id@ == config.id@);
                                    }
                                    self.mode = ConnectionUIMode::EditConnection(
                                        config.id.clone(),
                                    );
                                    self.temp_config = config;
                                    (None, false)
                                },
                                None => (None, false),
                            }
                        },
                        None => (None, false),
                    }
                } else if c == 'd' {
                    match self.list_state.selected() {
                        Some(selected) => {
                            match self.get_connection_by_index(selected, manager, root_available) {
                                Some(config) => {
                                    proof {
                                        let j = choose|j: int|
                                            0 <= j < manager.connections@.len()
                                                && manager.connections@[j] == config;
                                        assert(manager.connections@[j].id@ == config.id@);
                                        assert(has_id(manager.connections@, config.id@));
                                    }
                                    let removed = manager.remove_connection(&config.id);
                                    let mut status = "Deleted connection '".to_owned();
                                    status.append(config.name.as_str());
                                    status.append("'");
                                    self.status_message = status;
                                    let total = self.get_total_connections(
                                        manager,
                                        root_available,
                                    );
                                    if total == 0 {
                                        self.list_state.select(None);
                                    } else if selected >= total {
                                        self.list_state.select(Some(total - 1));
                                    }
                                    (None, removed)
                                },
                                None => (None, false),
                            }
                        },
                        None => (None, false),
                    }
                } else {
                    (None, false)
                }
            },
            _ => (None, false),
        }
    }

    /// One key on the form screen; see `save_connection` for Ctrl+S.
    pub fn handle_form_key(&mut self, key: UiKey, manager: &mut ConnectionManager) -> (r: (
        Option<ConnectionConfig>,
        bool,
    ))
        requires
            old(manager).wf(),
        ensures
            final(manager).wf(),
            !r.1 ==> *final(manager) == *old(manager),
            r.0 is Some ==> has_id(final(manager).connections@, r.0->0.id@) && r.1,
            match key {
                UiKey::Esc => final(self).mode is List && r.0 is None && !r.1,
                UiKey::Tab => final(self).input_field == next_input_field(
                    old(self).input_field,
                ) && r.0 is None && !r.1,
                UiKey::BackTab => final(self).input_field == prev_input_field(
                    old(self).input_field,
                ) && r.0 is None && !r.1,
                UiKey::Ctrl(c) => if c == 'p' {
                    final(self).show_password == !old(self).show_password && r.0 is None && !r.1
                } else if c == 's' {
                    (r.0 is Some <==> (trim_of(old(self).temp_config.name@).len() != 0 && trim_of(
                        old(self).temp_config.username@,
                    ).len() != 0 && !(old(self).mode is List))) && r.1 == (r.0 is Some)
                } else {
                    *final(self) == *old(self) && r.0 is None && !r.1
                },
                UiKey::Backspace => r.0 is None && !r.1 && erased_char(
                    *old(self),
                    *final(self),
                ),
                UiKey::Char(c) => r.0 is None && !r.1 && typed_char(
                    *old(self),
                    *final(self),
                    c,
                ),
                _ => *final(self) == *old(self) && r.0 is None && !r.1,
            },
    {
        match key {
            UiKey::Esc => {
                self.mode = ConnectionUIMode::List;
                (None, false)
            },
            UiKey::Tab => {
                self.next_field();
                (None, false)
            },
            UiKey::BackTab => {
                self.prev_field();
                (None, false)
            },
            UiKey::Ctrl(c) => {
                if c == 's' {
                    self.save_connection(manager)
                } else if c == 'p' {
                    self.show_password = !self.show_password;
                    (None, false)
                } else {
                    (None, false)
                }
            },
            UiKey::Char(c) => {
                self.input_char(c);
                (None, false)
            },
            UiKey::Backspace => {
                self.delete_char();
                (None, false)
            },
            _ => (None, false),
        }
    }

    /// One key, dispatched by the current screen. The first result carries
    /// the connection chosen or saved, if any; the second says whether the
    /// manager changed and must be persisted.
    pub fn handle_key(
        &mut self,
        key: UiKey,
        manager: &mut ConnectionManager,
        root_available: bool,
    ) -> (r: (Option<ConnectionConfig>, bool))
        requires
            old(manager).wf(),
            old(manager).connections@.len() < usize::MAX,
        ensures
            final(manager).wf(),
            !r.1 ==> *final(manager) == *old(manager),
            r.0 is Some ==> (root_available && r.0->0.username@ == "root"@ && r.0->0.port
                == 3306) || has_id(final(manager).connections@, r.0->0.id@) || exists|j: int|
                0 <= j < final(manager).connections@.len() && #[trigger] final(manager).connections@[j] == r.0->0,
    {
        let in_list = match &self.mode {
            ConnectionUIMode::List => true,
            _ => false,
        };
        if in_list {
            let r = self.handle_list_key(key, manager, root_available);
            proof {
                if r.0 is Some {
                    assert(*final(manager) == *old(manager));
                }
            }
            r
        } else {
            self.handle_form_key(key, manager)
        }
    }
}

impl Default for ConnectionUI {
    /// The default picker is a fresh one.
    fn default() -> (r: Self)
        ensures
            r.mode is List,
            r.list_state.selected == Some(0usize),
            r.input_field is Name,
            !r.show_password,
    {
        ConnectionUI::new()
    }
}

/// After storing `config`, its id names an entry: whether it replaced the
/// entry under the same id or was appended.
proof fn lemma_stored_id(
    before: Seq<ConnectionConfig>,
    after: Seq<ConnectionConfig>,
    config: ConnectionConfig,
)
    requires
        has_id(before, config.id@) ==> exists|j: int|
            0 <= j < before.len() && (#[trigger] before[j].id@) == config.id@ && after
                == before.update(j, config),
        !has_id(before, config.id@) ==> after == before.push(config),
    ensures
        has_id(after, config.id@),
{
    if has_id(before, config.id@) {
        let j = choose|j: int|
            0 <= j < before.len() && (#[trigger] before[j].id@) == config.id@ && after
                == before.update(j, config);
        assert(after[j].id@ == config.id@);
    } else {
        assert(after[after.len() - 1].id@ == config.id@);
    }
}

/// A character sequence with its last element dropped; empty stays empty.
pub open spec fn dropped(s: Seq<char>) -> Seq<char> {
    if s.len() > 0 {
        s.drop_last()
    } else {
        s
    }
}

} // verus!
