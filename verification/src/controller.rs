//! The event controller: one key press in, one state change and at most one
//! backend request out.
//!
//! `App` holds the navigation state together with the quit flag and the
//! status line. `handle_key_event` classifies a key by the current mode,
//! mutates the state, and answers with the `Action` the caller must perform:
//! nothing, a refresh of the current view from the backend, or the execution
//! of one SQL statement. The whole step is specified by the `step` /
//! `step_action` transformers, so that the state after any sequence of key
//! events is pinned down and the invariants can be proved preserved by every
//! such sequence.

use vstd::prelude::*;
use vstd::string::StringExecFns;

use crate::navigation::{NavModel, NavigationState, ViewMode};
use crate::numfmt;
use crate::numfmt::dec_rep;
use crate::strops::trim_of;

verus! {

/// One key press, as the controller sees it. The binary translates the
/// terminal events it reads into this alphabet.
#[derive(Debug, Clone, PartialEq, Eq, Structural)]
pub enum Key {
    Char(char),
    Enter,
    Esc,
    Up,
    Down,
    Left,
    Right,
    Backspace,
    Other,
}

/// What the caller must do after a step: nothing, refresh the current view
/// from the backend, or run one SQL statement (and report its outcome back
/// through `apply_sql_result` or `apply_sql_error`).
#[derive(Debug)]
pub enum Action {
    Nothing,
    Refresh,
    Execute(String),
}

/// Spec-level shape of an `Action`; the statement an `Execute` carries is
/// pinned separately in the contract.
pub enum ActionKind {
    Nothing,
    Refresh,
    Execute,
}

/// Which backend request a refresh of the current view stands for.
#[derive(Debug)]
pub enum RefreshTarget {
    /// Enumerate the databases.
    Databases,
    /// Enumerate the tables of the named database.
    Tables(String),
    /// Fetch columns and a bounded row prefix of the named table.
    TableData(String, String),
    /// Fetch the recent statements to seed the editor history.
    SqlHistory,
}

/// The controller state: navigation plus the quit flag and the status line.
#[derive(Debug)]
pub struct App {
    pub navigation: NavigationState,
    pub should_quit: bool,
    pub status_message: String,
}

/// Mathematical view of the controller state.
#[verifier::ext_equal]
pub ghost struct AppModel {
    pub nav: NavModel,
    pub should_quit: bool,
    pub status_message: Seq<char>,
}

impl View for App {
    type V = AppModel;

    open spec fn view(&self) -> AppModel {
        AppModel {
            nav: self.navigation@,
            should_quit: self.should_quit,
            status_message: self.status_message@,
        }
    }
}

// Status-line texts. Each spec function gives the exact characters the
// corresponding step leaves in the status line.
pub open spec fn welcome_status() -> Seq<char> {
    "Welcome to RMSQL - Press 'q' to quit, 'h' for help"@
}

pub open spec fn help_status() -> Seq<char> {
    "Help: j/k=up/down, h/l=back/forward, r=refresh, 1/2/3=modes, i=SQL editor, Space=expand, q=quit"@
}

pub open spec fn databases_loaded_status() -> Seq<char> {
    "Databases loaded"@
}

pub open spec fn tables_loaded_status(db: Seq<char>) -> Seq<char> {
    "Tables loaded for database: "@ + db
}

pub open spec fn data_loaded_status(db: Seq<char>, table: Seq<char>) -> Seq<char> {
    "Data loaded for table: "@ + db + "."@ + table
}

pub open spec fn switched_db_status(db: Seq<char>) -> Seq<char> {
    "Switched to database: "@ + db
}

pub open spec fn viewing_table_status(table: Seq<char>) -> Seq<char> {
    "Viewing table: "@ + table
}

pub open spec fn back_to_databases_status() -> Seq<char> {
    "Switched to databases view"@
}

pub open spec fn back_to_tables_status() -> Seq<char> {
    "Switched to tables view"@
}

pub open spec fn entered_editor_status() -> Seq<char> {
    "Entered SQL Editor mode - Type SQL and press Enter to execute"@
}

pub open spec fn exited_editor_status() -> Seq<char> {
    "Exited SQL Editor mode"@
}

pub open spec fn expanded_status(cols: nat, width: u16) -> Seq<char> {
    "Expanded mode: "@ + dec_rep(cols) + " columns ("@ + dec_rep(width as nat)
        + "px wide), use <-> to navigate, Space to exit"@
}

pub open spec fn normal_mode_status() -> Seq<char> {
    "Normal mode: Press Space to expand columns"@
}

/// The scroll indicator shown after a horizontal move, built from the
/// current window of the given navigation state.
pub open spec fn scroll_status(nav: NavModel) -> Seq<char> {
    "Expanded: Columns "@ + dec_rep((nav.visible_range().0 + 1) as nat) + "-"@ + dec_rep(
        nav.visible_range().1 as nat,
    ) + " of "@ + dec_rep(nav.table_columns.len()) + " | <-> scroll, Space exit, h back"@
}

/// How many columns the horizontal window should show on a terminal
/// `width` cells wide: 22 cells per column after the borders, at least one,
/// and never more columns than the table has.
pub open spec fn optimal_columns(width: u16, ncols: nat) -> usize {
    let available = if width >= 4 {
        (width - 4) as nat
    } else {
        0
    };
    let fit = if available / 22 >= 1 {
        available / 22
    } else {
        1
    };
    if fit <= ncols {
        fit as usize
    } else {
        ncols as usize
    }
}

/// The deepest view consistent with what is currently selected: the editor
/// returns here on escape.
pub open spec fn deepest_view(nav: NavModel) -> ViewMode {
    if nav.current_table is Some {
        ViewMode::TableData
    } else if nav.current_database is Some {
        ViewMode::Tables
    } else {
        ViewMode::Databases
    }
}

impl AppModel {
    pub open spec fn with_nav(self, nav: NavModel) -> AppModel {
        AppModel { nav, ..self }
    }

    pub open spec fn with_status(self, msg: Seq<char>) -> AppModel {
        AppModel { status_message: msg, ..self }
    }

    /// Forward navigation: open the selected database or table; with no
    /// selection, a silent no-op.
    pub open spec fn nav_forward(self) -> AppModel {
        match self.nav.mode {
            ViewMode::Databases => match self.nav.selected_database() {
                Some(name) => AppModel {
                    nav: self.nav.set_current_database(name).set_mode(ViewMode::Tables),
                    status_message: switched_db_status(name),
                    ..self
                },
                None => self,
            },
            ViewMode::Tables => match self.nav.selected_table() {
                Some(name) => AppModel {
                    nav: self.nav.set_current_table(name).set_mode(ViewMode::TableData),
                    status_message: viewing_table_status(name),
                    ..self
                },
                None => self,
            },
            _ => self,
        }
    }

    /// Whether forward navigation asks for a refresh (it does exactly when a
    /// selection existed to open).
    pub open spec fn nav_forward_action(self) -> ActionKind {
        match self.nav.mode {
            ViewMode::Databases => if self.nav.selected_database() is Some {
                ActionKind::Refresh
            } else {
                ActionKind::Nothing
            },
            ViewMode::Tables => if self.nav.selected_table() is Some {
                ActionKind::Refresh
            } else {
                ActionKind::Nothing
            },
            _ => ActionKind::Nothing,
        }
    }

    /// Backward navigation: one level up the catalogue; from the editor, the
    /// deepest view consistent with the current selection; from the
    /// catalogue root, a no-op.
    pub open spec fn nav_back(self) -> AppModel {
        match self.nav.mode {
            ViewMode::Tables => AppModel {
                nav: self.nav.set_mode(ViewMode::Databases),
                status_message: back_to_databases_status(),
                ..self
            },
            ViewMode::TableData => AppModel {
                nav: self.nav.set_mode(ViewMode::Tables),
                status_message: back_to_tables_status(),
                ..self
            },
            ViewMode::SqlEditor => AppModel {
                nav: self.nav.set_mode(deepest_view(self.nav)),
                status_message: exited_editor_status(),
                ..self
            },
            ViewMode::Databases => self,
        }
    }

    pub open spec fn nav_back_action(self) -> ActionKind {
        match self.nav.mode {
            ViewMode::Databases => ActionKind::Nothing,
            _ => ActionKind::Refresh,
        }
    }

    /// The status a refresh of the current view settles on.
    pub open spec fn refresh_status(self) -> Seq<char> {
        match self.nav.mode {
            ViewMode::Databases => databases_loaded_status(),
            ViewMode::Tables => match self.nav.current_database {
                Some(db) => tables_loaded_status(db),
                None => self.status_message,
            },
            ViewMode::TableData => match (self.nav.current_database, self.nav.current_table) {
                (Some(db), Some(table)) => data_loaded_status(db, table),
                _ => self.status_message,
            },
            ViewMode::SqlEditor => self.status_message,
        }
    }

    /// The space key in the data view: toggle the horizontal window; on
    /// enabling, size it to the terminal; elsewhere (or with no columns) a
    /// no-op.
    pub open spec fn toggle_step(self, width: u16) -> AppModel {
        if self.nav.mode is TableData && self.nav.table_columns.len() > 0 {
            let toggled = self.nav.toggle_expanded_columns();
            if toggled.expanded_columns {
                let cols = optimal_columns(width, toggled.table_columns.len());
                AppModel {
                    nav: toggled.set_visible_columns(cols),
                    status_message: expanded_status(
                        toggled.set_visible_columns(cols).visible_columns as nat,
                        width,
                    ),
                    ..self
                }
            } else {
                AppModel { nav: toggled, status_message: normal_mode_status(), ..self }
            }
        } else {
            self
        }
    }

    /// The `h`/left key: a horizontal scroll while the data view is
    /// expanded, backward navigation otherwise.
    pub open spec fn left_step(self) -> AppModel {
        if self.nav.mode is TableData && self.nav.expanded_columns {
            let nav = self.nav.scroll_left();
            AppModel { nav, status_message: scroll_status(nav), ..self }
        } else {
            self.nav_back()
        }
    }

    pub open spec fn left_action(self) -> ActionKind {
        if self.nav.mode is TableData && self.nav.expanded_columns {
            ActionKind::Nothing
        } else {
            self.nav_back_action()
        }
    }

    /// The `l`/right key: a horizontal scroll while the data view is
    /// expanded, forward navigation otherwise.
    pub open spec fn right_step(self) -> AppModel {
        if self.nav.mode is TableData && self.nav.expanded_columns {
            let nav = self.nav.scroll_right();
            AppModel { nav, status_message: scroll_status(nav), ..self }
        } else {
            self.nav_forward()
        }
    }

    pub open spec fn right_action(self) -> ActionKind {
        if self.nav.mode is TableData && self.nav.expanded_columns {
            ActionKind::Nothing
        } else {
            self.nav_forward_action()
        }
    }

    /// One step of the global key map (every view but the editor).
    pub open spec fn global_step(self, key: Key, width: u16) -> AppModel {
        match key {
            Key::Char(c) => if c == 'q' {
                AppModel { should_quit: true, ..self }
            } else if c == 'j' {
                self.with_nav(self.nav.move_down())
            } else if c == 'k' {
                self.with_nav(self.nav.move_up())
            } else if c == 'h' {
                self.left_step()
            } else if c == 'l' {
                self.right_step()
            } else if c == 'g' {
                self.with_nav(self.nav.move_to_top())
            } else if c == 'G' {
                self.with_nav(self.nav.move_to_bottom())
            } else if c == 'r' {
                self.with_status(self.refresh_status())
            } else if c == '?' {
                self.with_status(help_status())
            } else if c == ' ' {
                self.toggle_step(width)
            } else if c == 'i' {
                AppModel {
                    nav: self.nav.set_mode(ViewMode::SqlEditor).clear_sql_result(),
                    status_message: entered_editor_status(),
                    ..self
                }
            } else if c == '1' {
                let switched = self.with_nav(self.nav.set_mode(ViewMode::Databases));
                switched.with_status(switched.refresh_status())
            } else if c == '2' {
                if self.nav.current_database is Some {
                    let switched = self.with_nav(self.nav.set_mode(ViewMode::Tables));
                    switched.with_status(switched.refresh_status())
                } else {
                    self
                }
            } else if c == '3' {
                if self.nav.current_table is Some {
                    let switched = self.with_nav(self.nav.set_mode(ViewMode::TableData));
                    switched.with_status(switched.refresh_status())
                } else {
                    self
                }
            } else {
                self
            },
            Key::Down => self.with_nav(self.nav.move_down()),
            Key::Up => self.with_nav(self.nav.move_up()),
            Key::Enter => self.nav_forward(),
            Key::Esc => self.nav_back(),
            Key::Left => self.left_step(),
            Key::Right => self.right_step(),
            _ => self,
        }
    }

    pub open spec fn global_step_action(self, key: Key, width: u16) -> ActionKind {
        match key {
            Key::Char(c) => if c == 'h' {
                self.left_action()
            } else if c == 'l' {
                self.right_action()
            } else if c == 'r' || c == 'i' || c == '1' {
                ActionKind::Refresh
            } else if c == '2' {
                if self.nav.current_database is Some {
                    ActionKind::Refresh
                } else {
                    ActionKind::Nothing
                }
            } else if c == '3' {
                if self.nav.current_table is Some {
                    ActionKind::Refresh
                } else {
                    ActionKind::Nothing
                }
            } else {
                ActionKind::Nothing
            },
            Key::Enter => self.nav_forward_action(),
            Key::Esc => self.nav_back_action(),
            Key::Left => self.left_action(),
            Key::Right => self.right_action(),
            _ => ActionKind::Nothing,
        }
    }

    /// One step of the editor key map. `q` is a character here, not a quit
    /// key.
    pub open spec fn editor_step(self, key: Key) -> AppModel {
        match key {
            Key::Esc => self.nav_back(),
            Key::Enter => self.with_nav(self.nav.execute_sql()),
            Key::Up => self.with_nav(self.nav.navigate_history_up()),
            Key::Down => self.with_nav(self.nav.navigate_history_down()),
            Key::Backspace => self.with_nav(self.nav.backspace_sql_input()),
            Key::Char(c) => self.with_nav(self.nav.add_to_sql_input(c)),
            _ => self,
        }
    }

    pub open spec fn editor_step_action(self, key: Key) -> ActionKind {
        match key {
            Key::Esc => ActionKind::Refresh,
            Key::Enter => if trim_of(self.nav.sql_input).len() > 0 {
                ActionKind::Execute
            } else {
                ActionKind::Nothing
            },
            _ => ActionKind::Nothing,
        }
    }

    /// One controller step: the editor key map while the editor is open, the
    /// global key map everywhere else.
    pub open spec fn step(self, key: Key, width: u16) -> AppModel {
        if self.nav.mode is SqlEditor {
            self.editor_step(key)
        } else {
            self.global_step(key, width)
        }
    }

    /// The backend request the same step asks for.
    pub open spec fn step_action(self, key: Key, width: u16) -> ActionKind {
        if self.nav.mode is SqlEditor {
            self.editor_step_action(key)
        } else {
            self.global_step_action(key, width)
        }
    }
}

/// Every controller step preserves the state invariants: starting from any
/// well-formed state, the state after any key, on any terminal width, is
/// well-formed again. Together with `App::new`, which establishes them, the
/// invariants hold after every step of every key-event sequence.
#[verifier::rlimit(50)]
pub proof fn step_preserves_wf(m: AppModel, key: Key, width: u16)
    requires
        m.nav.wf(),
    ensures
        m.step(key, width).nav.wf(),
{
    if m.nav.mode is SqlEditor {
        match key {
            Key::Esc => {
                assert(m.nav_back().nav.wf());
            },
            Key::Enter => {
                assert(m.nav.execute_sql().wf());
            },
            Key::Up => {
                assert(m.nav.navigate_history_up().wf());
            },
            Key::Down => {
                assert(m.nav.navigate_history_down().wf());
            },
            Key::Backspace => {
                assert(m.nav.backspace_sql_input().wf());
            },
            Key::Char(c) => {
                assert(m.nav.add_to_sql_input(c).wf());
            },
            _ => {
            },
        }
    } else {
        match key {
            Key::Char(c) => {
                if c == 'j' {
                    assert(m.nav.move_down().wf());
                } else if c == 'k' {
                    assert(m.nav.move_up().wf());
                } else if c == 'h' {
                    assert(m.left_step().nav.wf());
                } else if c == 'l' {
                    assert(m.right_step().nav.wf());
                } else if c == 'g' {
                    assert(m.nav.move_to_top().wf());
                } else if c == 'G' {
                    assert(m.nav.move_to_bottom().wf());
                } else if c == ' ' {
                    assert(m.toggle_step(width).nav.wf());
                } else if c == 'i' {
                    assert(m.nav.set_mode(ViewMode::SqlEditor).clear_sql_result().wf());
                } else if c == '2' {
                    if m.nav.current_database is Some {
                        assert(m.nav.set_mode(ViewMode::Tables).wf());
                    }
                } else if c == '3' {
                    if m.nav.current_table is Some {
                        assert(m.nav.set_mode(ViewMode::TableData).wf());
                    }
                }
            },
            Key::Down => {
                assert(m.nav.move_down().wf());
            },
            Key::Up => {
                assert(m.nav.move_up().wf());
            },
            Key::Enter => {
                assert(m.nav_forward().nav.wf());
            },
            Key::Esc => {
                assert(m.nav_back().nav.wf());
            },
            Key::Left => {
                assert(m.left_step().nav.wf());
            },
            Key::Right => {
                assert(m.right_step().nav.wf());
            },
            _ => {
            },
        }
    }
}

/// The message the editor's result panel carries for a failed statement.
pub open spec fn error_result_message(error: Seq<char>) -> Seq<char> {
    "Error: "@ + error
}

/// The status line after a failed statement.
pub open spec fn sql_error_status(error: Seq<char>) -> Seq<char> {
    "SQL Error: "@ + error
}

impl App {
    /// A fresh session: a fresh navigation state, not quitting, and the
    /// welcome message in the status line.
    pub fn new() -> (app: App)
        ensures
            app@.nav.wf(),
            app@.nav.mode is Databases,
            app@.nav.current_database is None,
            app@.nav.current_table is None,
            app@.nav.sql_history =~= Seq::<Seq<char>>::empty(),
            app@.nav.sql_input =~= Seq::<char>::empty(),
            app@.nav.sql_result is None,
            !app@.should_quit,
            app@.status_message == welcome_status(),
    {
        App {
            navigation: NavigationState::new(),
            should_quit: false,
            status_message: "Welcome to RMSQL - Press 'q' to quit, 'h' for help".to_owned(),
        }
    }

    /// The backend request that refreshing the current view stands for.
    pub fn refresh_target(&self) -> (r: RefreshTarget)
        requires
            self@.nav.wf(),
        ensures
            match r {
                RefreshTarget::Databases => self@.nav.mode is Databases,
                RefreshTarget::Tables(db) => self@.nav.mode is Tables && db@
                    == self@.nav.current_database->0,
                RefreshTarget::TableData(db, table) => self@.nav.mode is TableData && db@
                    == self@.nav.current_database->0 && table@ == self@.nav.current_table->0,
                RefreshTarget::SqlHistory => self@.nav.mode is SqlEditor,
            },
    {
        match self.navigation.mode {
            ViewMode::Databases => RefreshTarget::Databases,
            ViewMode::Tables => {
                let db = match &self.navigation.current_database {
                    Some(db) => db.clone(),
                    None => String::new(),
                };
                RefreshTarget::Tables(db)
            },
            ViewMode::TableData => {
                let db = match &self.navigation.current_database {
                    Some(db) => db.clone(),
                    None => String::new(),
                };
                let table = match &self.navigation.current_table {
                    Some(t) => t.clone(),
                    None => String::new(),
                };
                RefreshTarget::TableData(db, table)
            },
            ViewMode::SqlEditor => RefreshTarget::SqlHistory,
        }
    }

    /// Show the key summary in the status line.
    pub fn show_help(&mut self)
        ensures
            final(self)@ == old(self)@.with_status(help_status()),
    {
        self.status_message =
            "Help: j/k=up/down, h/l=back/forward, r=refresh, 1/2/3=modes, i=SQL editor, Space=expand, q=quit".to_owned();
        proof {
            assert(self@ =~= old(self)@.with_status(help_status()));
        }
    }

    /// The status a refresh of the current view settles on, as a string.
    fn build_refresh_status(&self) -> (r: String)
        ensures
            r@ == self@.refresh_status(),
    {
        match self.navigation.mode {
            ViewMode::Databases => "Databases loaded".to_owned(),
            ViewMode::Tables => match &self.navigation.current_database {
                Some(db) => {
                    let mut s = "Tables loaded for database: ".to_owned();
                    s.append(db.as_str());
                    s
                },
                None => self.status_message.clone(),
            },
            ViewMode::TableData => match (&self.navigation.current_database, &self.navigation.current_table) {
                (Some(db), Some(table)) => {
                    let mut s = "Data loaded for table: ".to_owned();
                    s.append(db.as_str());
                    s.append(".");
                    s.append(table.as_str());
                    proof {
                        assert(s@ =~= data_loaded_status(db@, table@));
                    }
                    s
                },
                _ => self.status_message.clone(),
            },
            ViewMode::SqlEditor => self.status_message.clone(),
        }
    }

    /// Rewrite the status line with the current horizontal window, while the
    /// data view is expanded.
    pub fn update_scroll_status(&mut self)
        requires
            old(self)@.nav.wf(),
            old(self)@.nav.table_columns.len() < usize::MAX,
        ensures
            final(self)@ == if old(self)@.nav.expanded_columns {
                old(self)@.with_status(scroll_status(old(self)@.nav))
            } else {
                old(self)@
            },
    {
        if self.navigation.expanded_columns {
            let (start, end) = self.navigation.get_visible_columns();
            let total = self.navigation.table_columns.len();
            let mut s = "Expanded: Columns ".to_owned();
            numfmt::push_decimal(&mut s, start as u64 + 1);
            s.append("-");
            numfmt::push_decimal(&mut s, end as u64);
            s.append(" of ");
            numfmt::push_decimal(&mut s, total as u64);
            s.append(" | <-> scroll, Space exit, h back");
            self.status_message = s;
            proof {
                assert(self@.status_message =~= scroll_status(old(self)@.nav));
                assert(self@ =~= old(self)@.with_status(scroll_status(old(self)@.nav)));
            }
        }
    }

    /// Open the selected database or table; with nothing selected, a silent
    /// no-op. Returns whether the caller must refresh the view.
    pub fn navigate_forward(&mut self) -> (refresh: bool)
        requires
            old(self)@.nav.wf(),
        ensures
            final(self)@ == old(self)@.nav_forward(),
            final(self)@.nav.wf(),
            refresh == (old(self)@.nav_forward_action() is Refresh),
    {
        match self.navigation.mode {
            ViewMode::Databases => {
                let selected = match self.navigation.get_selected_database() {
                    Some(name) => Some(name.clone()),
                    None => None,
                };
                match selected {
                    Some(name) => {
                        self.navigation.set_current_database(name.clone());
                        self.navigation.set_mode(ViewMode::Tables);
                        let mut s = "Switched to database: ".to_owned();
                        s.append(name.as_str());
                        self.status_message = s;
                        proof {
                            assert(self@ =~= old(self)@.nav_forward());
                        }
                        true
                    },
                    None => false,
                }
            },
            ViewMode::Tables => {
                let selected = match self.navigation.get_selected_table() {
                    Some(name) => Some(name.clone()),
                    None => None,
                };
                match selected {
                    Some(name) => {
                        self.navigation.set_current_table(name.clone());
                        self.navigation.set_mode(ViewMode::TableData);
                        let mut s = "Viewing table: ".to_owned();
                        s.append(name.as_str());
                        self.status_message = s;
                        proof {
                            assert(self@ =~= old(self)@.nav_forward());
                        }
                        true
                    },
                    None => false,
                }
            },
            _ => false,
        }
    }

    /// One level back up the catalogue; from the editor, to the deepest view
    /// consistent with the current selection. Returns whether the caller
    /// must refresh the view.
    pub fn navigate_back(&mut self) -> (refresh: bool)
        requires
            old(self)@.nav.wf(),
        ensures
            final(self)@ == old(self)@.nav_back(),
            final(self)@.nav.wf(),
            refresh == (old(self)@.nav_back_action() is Refresh),
    {
        match self.navigation.mode {
            ViewMode::Tables => {
                self.navigation.set_mode(ViewMode::Databases);
                self.status_message = "Switched to databases view".to_owned();
                proof {
                    assert(self@ =~= old(self)@.nav_back());
                }
                true
            },
            ViewMode::TableData => {
                self.navigation.set_mode(ViewMode::Tables);
                self.status_message = "Switched to tables view".to_owned();
                proof {
                    assert(self@ =~= old(self)@.nav_back());
                }
                true
            },
            ViewMode::SqlEditor => {
                if self.navigation.current_table.is_some() {
                    self.navigation.set_mode(ViewMode::TableData);
                } else if self.navigation.current_database.is_some() {
                    self.navigation.set_mode(ViewMode::Tables);
                } else {
                    self.navigation.set_mode(ViewMode::Databases);
                }
                self.status_message = "Exited SQL Editor mode".to_owned();
                proof {
                    assert(self@ =~= old(self)@.nav_back());
                }
                true
            },
            ViewMode::Databases => false,
        }
    }

    /// One step of the editor key map.
    pub fn handle_sql_editor_key(&mut self, key: Key) -> (r: Action)
        requires
            old(self)@.nav.wf(),
        ensures
            final(self)@ == old(self)@.editor_step(key),
            final(self)@.nav.wf(),
            match r {
                Action::Nothing => old(self)@.editor_step_action(key) is Nothing,
                Action::Refresh => old(self)@.editor_step_action(key) is Refresh,
                Action::Execute(sql) => old(self)@.editor_step_action(key) is Execute && sql@
                    == trim_of(old(self)@.nav.sql_input),
            },
    {
        match key {
            Key::Esc => {
                let _ = self.navigate_back();
                Action::Refresh
            },
            Key::Enter => {
                let sql = self.navigation.execute_sql();
                proof {
                    assert(self@ =~= old(self)@.editor_step(key));
                }
                if !sql.as_str().is_empty() {
                    Action::Execute(sql)
                } else {
                    Action::Nothing
                }
            },
            Key::Up => {
                self.navigation.navigate_history_up();
                proof {
                    assert(self@ =~= old(self)@.editor_step(key));
                }
                Action::Nothing
            },
            Key::Down => {
                self.navigation.navigate_history_down();
                proof {
                    assert(self@ =~= old(self)@.editor_step(key));
                }
                Action::Nothing
            },
            Key::Backspace => {
                self.navigation.backspace_sql_input();
                proof {
                    assert(self@ =~= old(self)@.editor_step(key));
                }
                Action::Nothing
            },
            Key::Char(c) => {
                self.navigation.add_to_sql_input(c);
                proof {
                    assert(self@ =~= old(self)@.editor_step(key));
                }
                Action::Nothing
            },
            _ => Action::Nothing,
        }
    }

    /// One controller step: dispatch the key by the current mode, mutate the
    /// state, and answer with the backend request the caller must perform.
    pub fn handle_key_event(&mut self, key: Key, terminal_width: u16) -> (r: Action)
        requires
            old(self)@.nav.wf(),
            old(self)@.nav.table_columns.len() < usize::MAX,
        ensures
            final(self)@ == old(self)@.step(key, terminal_width),
            final(self)@.nav.wf(),
            match r {
                Action::Nothing => old(self)@.step_action(key, terminal_width) is Nothing,
                Action::Refresh => old(self)@.step_action(key, terminal_width) is Refresh,
                Action::Execute(sql) => old(self)@.step_action(key, terminal_width) is Execute
                    && sql@ == trim_of(old(self)@.nav.sql_input),
            },
    {
        if self.navigation.mode == ViewMode::SqlEditor {
            return self.handle_sql_editor_key(key);
        }
        match key {
            Key::Char(c) => {
                if c == 'q' {
                    self.should_quit = true;
                    proof {
                        assert(self@ =~= old(self)@.step(key, terminal_width));
                    }
                    Action::Nothing
                } else if c == 'j' {
                    self.navigation.move_down();
                    proof {
                        assert(self@ =~= old(self)@.step(key, terminal_width));
                    }
                    Action::Nothing
                } else if c == 'k' {
                    self.navigation.move_up();
                    proof {
                        assert(self@ =~= old(self)@.step(key, terminal_width));
                    }
                    Action::Nothing
                } else if c == 'h' {
                    self.left_key(key, terminal_width)
                } else if c == 'l' {
                    self.right_key(key, terminal_width)
                } else if c == 'g' {
                    self.navigation.move_to_top();
                    proof {
                        assert(self@ =~= old(self)@.step(key, terminal_width));
                    }
                    Action::Nothing
                } else if c == 'G' {
                    self.navigation.move_to_bottom();
                    proof {
                        assert(self@ =~= old(self)@.step(key, terminal_width));
                    }
                    Action::Nothing
                } else if c == 'r' {
                    self.status_message = self.build_refresh_status();
                    proof {
                        assert(self@ =~= old(self)@.step(key, terminal_width));
                    }
                    Action::Refresh
                } else if c == '?' {
                    self.show_help();
                    proof {
                        assert(self@ =~= old(self)@.step(key, terminal_width));
                    }
                    Action::Nothing
                } else if c == ' ' {
                    self.space_key(terminal_width);
                    proof {
                        assert(self@ =~= old(self)@.step(key, terminal_width));
                    }
                    Action::Nothing
                } else if c == 'i' {
                    self.navigation.set_mode(ViewMode::SqlEditor);
                    self.navigation.clear_sql_result();
                    self.status_message =
                        "Entered SQL Editor mode - Type SQL and press Enter to execute".to_owned();
                    proof {
                        assert(self@ =~= old(self)@.step(key, terminal_width));
                    }
                    Action::Refresh
                } else if c == '1' {
                    self.navigation.set_mode(ViewMode::Databases);
                    self.status_message = self.build_refresh_status();
                    proof {
                        assert(self@ =~= old(self)@.step(key, terminal_width));
                    }
                    Action::Refresh
                } else if c == '2' {
                    if self.navigation.current_database.is_some() {
                        self.navigation.set_mode(ViewMode::Tables);
                        self.status_message = self.build_refresh_status();
                        proof {
                            assert(self@ =~= old(self)@.step(key, terminal_width));
                        }
                        Action::Refresh
                    } else {
                        Action::Nothing
                    }
                } else if c == '3' {
                    if self.navigation.current_table.is_some() {
                        self.navigation.set_mode(ViewMode::TableData);
                        self.status_message = self.build_refresh_status();
                        proof {
                            assert(self@ =~= old(self)@.step(key, terminal_width));
                        }
                        Action::Refresh
                    } else {
                        Action::Nothing
                    }
                } else {
                    Action::Nothing
                }
            },
            Key::Down => {
                self.navigation.move_down();
                proof {
                    assert(self@ =~= old(self)@.step(key, terminal_width));
                }
                Action::Nothing
            },
            Key::Up => {
                self.navigation.move_up();
                proof {
                    assert(self@ =~= old(self)@.step(key, terminal_width));
                }
                Action::Nothing
            },
            Key::Enter => {
                let refresh = self.navigate_forward();
                if refresh {
                    Action::Refresh
                } else {
                    Action::Nothing
                }
            },
            Key::Esc => {
                let refresh = self.navigate_back();
                if refresh {
                    Action::Refresh
                } else {
                    Action::Nothing
                }
            },
            Key::Left => self.left_key(key, terminal_width),
            Key::Right => self.right_key(key, terminal_width),
            _ => Action::Nothing,
        }
    }

    /// The `h`/left behaviour outside the editor.
    fn left_key(&mut self, key: Key, terminal_width: u16) -> (r: Action)
        requires
            old(self)@.nav.wf(),
            !(old(self)@.nav.mode is SqlEditor),
            old(self)@.nav.table_columns.len() < usize::MAX,
            key == Key::Char('h') || key == Key::Left,
        ensures
            final(self)@ == old(self)@.step(key, terminal_width),
            final(self)@.nav.wf(),
            match r {
                Action::Nothing => old(self)@.step_action(key, terminal_width) is Nothing,
                Action::Refresh => old(self)@.step_action(key, terminal_width) is Refresh,
                Action::Execute(sql) => false,
            },
    {
        if self.navigation.mode == ViewMode::TableData && self.navigation.expanded_columns {
            self.navigation.scroll_left();
            self.update_scroll_status();
            proof {
                assert(self@ =~= old(self)@.step(key, terminal_width));
            }
            Action::Nothing
        } else {
            let refresh = self.navigate_back();
            if refresh {
                Action::Refresh
            } else {
                Action::Nothing
            }
        }
    }

    /// The `l`/right behaviour outside the editor.
    fn right_key(&mut self, key: Key, terminal_width: u16) -> (r: Action)
        requires
            old(self)@.nav.wf(),
            !(old(self)@.nav.mode is SqlEditor),
            old(self)@.nav.table_columns.len() < usize::MAX,
            key == Key::Char('l') || key == Key::Right,
        ensures
            final(self)@ == old(self)@.step(key, terminal_width),
            final(self)@.nav.wf(),
            match r {
                Action::Nothing => old(self)@.step_action(key, terminal_width) is Nothing,
                Action::Refresh => old(self)@.step_action(key, terminal_width) is Refresh,
                Action::Execute(sql) => false,
            },
    {
        if self.navigation.mode == ViewMode::TableData && self.navigation.expanded_columns {
            self.navigation.scroll_right();
            self.update_scroll_status();
            proof {
                assert(self@ =~= old(self)@.step(key, terminal_width));
            }
            Action::Nothing
        } else {
            let refresh = self.navigate_forward();
            if refresh {
                Action::Refresh
            } else {
                Action::Nothing
            }
        }
    }

    /// The space key: toggle the horizontal window in the data view and, on
    /// enabling, size it to the terminal.
    fn space_key(&mut self, terminal_width: u16)
        requires
            old(self)@.nav.wf(),
        ensures
            final(self)@ == old(self)@.toggle_step(terminal_width),
            final(self)@.nav.wf(),
    {
        if self.navigation.mode == ViewMode::TableData && !self.navigation.table_columns.is_empty()
        {
            self.navigation.toggle_expanded_columns();
            if self.navigation.expanded_columns {
                let available: u16 = if terminal_width >= 4 {
                    terminal_width - 4
                } else {
                    0
                };
                let fit16: u16 = available / 22;
                let fit: usize = if fit16 >= 1 {
                    fit16 as usize
                } else {
                    1
                };
                let ncols = self.navigation.table_columns.len();
                let optimal = if fit <= ncols {
                    fit
                } else {
                    ncols
                };
                self.navigation.set_visible_columns(optimal);
                let mut s = "Expanded mode: ".to_owned();
                numfmt::push_decimal(&mut s, self.navigation.visible_columns as u64);
                s.append(" columns (");
                numfmt::push_decimal(&mut s, terminal_width as u64);
                s.append("px wide), use <-> to navigate, Space to exit");
                self.status_message = s;
                proof {
                    assert(self@ =~= old(self)@.toggle_step(terminal_width));
                }
            } else {
                self.status_message = "Normal mode: Press Space to expand columns".to_owned();
                proof {
                    assert(self@ =~= old(self)@.toggle_step(terminal_width));
                }
            }
        }
    }

    /// Record the outcome of a successful statement: the result panel shows
    /// the columns, rows and message, and the status line shows the message.
    pub fn apply_sql_result(&mut self, columns: Vec<String>, rows: Vec<Vec<String>>, message: String)
        ensures
            final(self)@.nav == old(self)@.nav.set_sql_result(
                crate::navigation::ResultModel {
                    columns: columns.deep_view(),
                    rows: rows.deep_view(),
                    message: message@,
                },
            ),
            final(self)@.status_message == message@,
            final(self)@.should_quit == old(self)@.should_quit,
            old(self)@.nav.wf() ==> final(self)@.nav.wf(),
    {
        self.status_message = message.clone();
        self.navigation.set_sql_result(crate::navigation::SqlResult { columns, rows, message });
    }

    /// Record the outcome of a failed statement: an empty result whose
    /// message carries the error, and an error status line.
    pub fn apply_sql_error(&mut self, error: String)
        ensures
            final(self)@.nav == old(self)@.nav.set_sql_result(
                crate::navigation::ResultModel {
                    columns: Seq::empty(),
                    rows: Seq::empty(),
                    message: error_result_message(error@),
                },
            ),
            final(self)@.status_message == sql_error_status(error@),
            final(self)@.should_quit == old(self)@.should_quit,
            old(self)@.nav.wf() ==> final(self)@.nav.wf(),
    {
        let mut message = "Error: ".to_owned();
        message.append(error.as_str());
        let mut status = "SQL Error: ".to_owned();
        status.append(error.as_str());
        self.status_message = status;
        self.navigation.set_sql_result(
            crate::navigation::SqlResult { columns: Vec::new(), rows: Vec::new(), message },
        );
        proof {
            assert(self@.nav.sql_result->0 =~= crate::navigation::ResultModel {
                columns: Seq::empty(),
                rows: Seq::empty(),
                message: error_result_message(error@),
            });
            assert(self@.nav =~= old(self)@.nav.set_sql_result(
                crate::navigation::ResultModel {
                    columns: Seq::empty(),
                    rows: Seq::empty(),
                    message: error_result_message(error@),
                },
            ));
        }
    }
}

} // verus!
