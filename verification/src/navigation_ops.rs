//! Snapshot setters, the horizontal window, and the path projection.

use vstd::prelude::*;
use vstd::string::StringExecFns;

use crate::cursor::ListCursor;
use crate::navigation::{max_scroll, rebound_cursor, NavModel, NavigationState, ViewMode};

verus! {

/// The horizontal scroll clamped into the legal range for `columns` columns
/// and a window of `visible` columns.
pub open spec fn clamp_scroll(scroll: usize, columns: nat, visible: nat) -> usize {
    if (scroll as nat) <= max_scroll(columns, visible) {
        scroll
    } else {
        max_scroll(columns, visible) as usize
    }
}

impl NavModel {
    /// `set_mode` switches the view; everything else is left alone.
    pub open spec fn set_mode(self, mode: ViewMode) -> NavModel {
        NavModel { mode, ..self }
    }

    /// `move_to_top` sets the current view's cursor to row 0 unless the view
    /// is empty (then the cursor stays cleared).
    pub open spec fn move_to_top(self) -> NavModel {
        match self.mode {
            ViewMode::Databases => NavModel {
                database_list_state: if self.databases.len() > 0 {
                    Some(0usize)
                } else {
                    self.database_list_state
                },
                ..self
            },
            ViewMode::Tables => NavModel {
                table_list_state: if self.tables.len() > 0 {
                    Some(0usize)
                } else {
                    self.table_list_state
                },
                ..self
            },
            ViewMode::TableData => NavModel {
                data_table_state: if self.table_rows.len() > 0 {
                    Some(0usize)
                } else {
                    self.data_table_state
                },
                ..self
            },
            ViewMode::SqlEditor => self,
        }
    }

    /// `move_to_bottom` sets the current view's cursor to the last row; a
    /// no-op on an empty view.
    pub open spec fn move_to_bottom(self) -> NavModel {
        match self.mode {
            ViewMode::Databases => NavModel {
                database_list_state: if self.databases.len() > 0 {
                    Some(((self.databases.len() - 1) as usize))
                } else {
                    self.database_list_state
                },
                ..self
            },
            ViewMode::Tables => NavModel {
                table_list_state: if self.tables.len() > 0 {
                    Some(((self.tables.len() - 1) as usize))
                } else {
                    self.table_list_state
                },
                ..self
            },
            ViewMode::TableData => NavModel {
                data_table_state: if self.table_rows.len() > 0 {
                    Some(((self.table_rows.len() - 1) as usize))
                } else {
                    self.data_table_state
                },
                ..self
            },
            ViewMode::SqlEditor => self,
        }
    }

    /// `set_current_database` records the database about to be browsed and
    /// forgets everything that belonged to the previous one: the selected
    /// table, the table list and the table-data snapshot, whose cursors are
    /// cleared until fresh snapshots arrive.
    pub open spec fn set_current_database(self, database: Seq<char>) -> NavModel {
        NavModel {
            current_database: Some(database),
            current_table: None,
            tables: Seq::empty(),
            table_columns: Seq::empty(),
            table_rows: Seq::empty(),
            table_list_state: None,
            data_table_state: None,
            horizontal_scroll: 0,
            ..self
        }
    }

    /// `set_current_table` records the table about to be viewed and clears
    /// the previous data snapshot together with its cursor.
    pub open spec fn set_current_table(self, table: Seq<char>) -> NavModel {
        NavModel {
            current_table: Some(table),
            table_columns: Seq::empty(),
            table_rows: Seq::empty(),
            data_table_state: None,
            horizontal_scroll: 0,
            ..self
        }
    }

    /// `set_databases` replaces the catalogue snapshot and keeps the cursor
    /// legal: cleared when the list is empty, initialised to 0 when it was
    /// cleared, clamped to the last entry when the list shrank past it.
    pub open spec fn set_databases(self, databases: Seq<Seq<char>>) -> NavModel {
        NavModel {
            databases,
            database_list_state: rebound_cursor(self.database_list_state, databases.len()),
            ..self
        }
    }

    /// `set_tables` does for the table list what `set_databases` does for
    /// the catalogue.
    pub open spec fn set_tables(self, tables: Seq<Seq<char>>) -> NavModel {
        NavModel {
            tables,
            table_list_state: rebound_cursor(self.table_list_state, tables.len()),
            ..self
        }
    }

    /// `set_table_data` replaces the column labels and the row prefix; the
    /// data cursor is kept legal the same way, and the horizontal scroll is
    /// clamped into the range the new column count allows.
    pub open spec fn set_table_data(self, columns: Seq<Seq<char>>, rows: Seq<Seq<Seq<char>>>) -> NavModel {
        NavModel {
            table_columns: columns,
            table_rows: rows,
            data_table_state: rebound_cursor(self.data_table_state, rows.len()),
            horizontal_scroll: clamp_scroll(
                self.horizontal_scroll,
                columns.len(),
                self.visible_columns as nat,
            ),
            ..self
        }
    }

    /// `toggle_expanded_columns` flips the horizontal-window flag and resets
    /// the scroll on either transition.
    pub open spec fn toggle_expanded_columns(self) -> NavModel {
        NavModel { expanded_columns: !self.expanded_columns, horizontal_scroll: 0, ..self }
    }

    /// `scroll_right` moves the window one column towards the end, clamped;
    /// only meaningful while expanded with at least one column.
    pub open spec fn scroll_right(self) -> NavModel {
        if self.expanded_columns && self.table_columns.len() > 0 && (self.horizontal_scroll as nat)
            < max_scroll(self.table_columns.len(), self.visible_columns as nat) {
            NavModel { horizontal_scroll: (self.horizontal_scroll + 1) as usize, ..self }
        } else {
            self
        }
    }

    /// `scroll_left` moves the window one column towards the start.
    pub open spec fn scroll_left(self) -> NavModel {
        if self.expanded_columns && self.horizontal_scroll > 0 {
            NavModel { horizontal_scroll: (self.horizontal_scroll - 1) as usize, ..self }
        } else {
            self
        }
    }

    /// `set_visible_columns` sets the window width, at least one column, and
    /// keeps the scroll inside the range the new width allows.
    pub open spec fn set_visible_columns(self, count: usize) -> NavModel {
        let width = if count >= 1 {
            count
        } else {
            1usize
        };
        NavModel {
            visible_columns: width,
            horizontal_scroll: clamp_scroll(
                self.horizontal_scroll,
                self.table_columns.len(),
                width as nat,
            ),
            ..self
        }
    }

    /// The `(start, end)` column window the data table shows: everything
    /// when not expanded (or with no columns at all), otherwise a window of
    /// at most `visible_columns` columns starting at the scroll position.
    pub open spec fn visible_range(self) -> (usize, usize) {
        if !self.expanded_columns || self.table_columns.len() == 0 {
            (0usize, self.table_columns.len() as usize)
        } else {
            let end = if self.horizontal_scroll as nat + self.visible_columns as nat
                <= self.table_columns.len() {
                (self.horizontal_scroll + self.visible_columns) as usize
            } else {
                self.table_columns.len() as usize
            };
            (self.horizontal_scroll, end)
        }
    }

    /// The name under the catalogue cursor, when it points inside the
    /// snapshot.
    pub open spec fn selected_database(self) -> Option<Seq<char>> {
        if self.database_list_state is Some && (self.database_list_state->0 as nat)
            < self.databases.len() {
            Some(self.databases[self.database_list_state->0 as int])
        } else {
            None
        }
    }

    /// The name under the table-list cursor, when it points inside the
    /// snapshot.
    pub open spec fn selected_table(self) -> Option<Seq<char>> {
        if self.table_list_state is Some && (self.table_list_state->0 as nat)
            < self.tables.len() {
            Some(self.tables[self.table_list_state->0 as int])
        } else {
            None
        }
    }

    /// The header path: `db/table`, `db`, or `/`, depending on what is set.
    pub open spec fn current_path(self) -> Seq<char> {
        match (self.current_database, self.current_table) {
            (Some(db), Some(table)) => db + seq!['/'] + table,
            (Some(db), None) => db,
            _ => seq!['/'],
        }
    }
}

impl NavigationState {
    pub fn set_mode(&mut self, mode: ViewMode)
        ensures
            final(self)@ == old(self)@.set_mode(mode),
    {
        self.mode = mode;
        proof {
            assert(self@ =~= old(self)@.set_mode(mode));
        }
    }

    /// Jump the current view's cursor to the first row.
    pub fn move_to_top(&mut self)
        ensures
            final(self)@ == old(self)@.move_to_top(),
            old(self)@.wf() ==> final(self)@.wf(),
    {
        match self.mode {
            ViewMode::Databases => {
                if self.databases.len() > 0 {
                    self.database_list_state.select(Some(0));
                }
            },
            ViewMode::Tables => {
                if self.tables.len() > 0 {
                    self.table_list_state.select(Some(0));
                }
            },
            ViewMode::TableData => {
                if self.table_rows.len() > 0 {
                    self.data_table_state.select(Some(0));
                }
            },
            ViewMode::SqlEditor => {},
        }
        proof {
            assert(self@ =~= old(self)@.move_to_top());
        }
    }

    /// Jump the current view's cursor to the last row; a no-op on an empty
    /// view.
    pub fn move_to_bottom(&mut self)
        ensures
            final(self)@ == old(self)@.move_to_bottom(),
            old(self)@.wf() ==> final(self)@.wf(),
    {
        match self.mode {
            ViewMode::Databases => {
                if self.databases.len() > 0 {
                    let last = self.databases.len() - 1;
                    self.database_list_state.select(Some(last));
                }
            },
            ViewMode::Tables => {
                if self.tables.len() > 0 {
                    let last = self.tables.len() - 1;
                    self.table_list_state.select(Some(last));
                }
            },
            ViewMode::TableData => {
                if self.table_rows.len() > 0 {
                    let last = self.table_rows.len() - 1;
                    self.data_table_state.select(Some(last));
                }
            },
            ViewMode::SqlEditor => {},
        }
        proof {
            assert(self@ =~= old(self)@.move_to_bottom());
        }
    }

    /// Record the database about to be browsed; see the model transformer.
    pub fn set_current_database(&mut self, database: String)
        ensures
            final(self)@ == old(self)@.set_current_database(database@),
            old(self)@.wf() && !(old(self)@.mode is TableData) ==> final(self)@.wf(),
    {
        self.current_database = Some(database);
        self.current_table = None;
        self.tables = Vec::new();
        self.table_rows = Vec::new();
        self.table_columns = Vec::new();
        self.table_list_state.select(None);
        self.data_table_state.select(None);
        self.horizontal_scroll = 0;
        proof {
            assert(self@ =~= old(self)@.set_current_database(self@.current_database->0));
        }
    }

    /// Record the table about to be viewed; see the model transformer.
    pub fn set_current_table(&mut self, table: String)
        ensures
            final(self)@ == old(self)@.set_current_table(table@),
            old(self)@.wf() && old(self)@.current_database is Some ==> final(self)@.wf(),
    {
        self.current_table = Some(table);
        self.table_rows = Vec::new();
        self.table_columns = Vec::new();
        self.data_table_state.select(None);
        self.horizontal_scroll = 0;
        proof {
            assert(self@ =~= old(self)@.set_current_table(self@.current_table->0));
        }
    }

    /// Replace the catalogue snapshot, keeping the cursor legal.
    pub fn set_databases(&mut self, databases: Vec<String>)
        ensures
            final(self)@ == old(self)@.set_databases(databases.deep_view()),
            old(self)@.wf() ==> final(self)@.wf(),
    {
        self.databases = databases;
        let len = self.databases.len();
        Self::fix_cursor(&mut self.database_list_state, len);
        proof {
            assert(self@ =~= old(self)@.set_databases(self@.databases));
        }
    }

    /// Replace the table-list snapshot, keeping the cursor legal.
    pub fn set_tables(&mut self, tables: Vec<String>)
        ensures
            final(self)@ == old(self)@.set_tables(tables.deep_view()),
            old(self)@.wf() ==> final(self)@.wf(),
    {
        self.tables = tables;
        let len = self.tables.len();
        Self::fix_cursor(&mut self.table_list_state, len);
        proof {
            assert(self@ =~= old(self)@.set_tables(self@.tables));
        }
    }

    /// Replace the table-data snapshot, keeping the data cursor and the
    /// horizontal scroll legal.
    pub fn set_table_data(&mut self, columns: Vec<String>, rows: Vec<Vec<String>>)
        ensures
            final(self)@ == old(self)@.set_table_data(columns.deep_view(), rows.deep_view()),
            old(self)@.wf() ==> final(self)@.wf(),
    {
        self.table_columns = columns;
        self.table_rows = rows;
        let len = self.table_rows.len();
        Self::fix_cursor(&mut self.data_table_state, len);
        let max = if self.table_columns.len() > self.visible_columns {
            self.table_columns.len() - self.visible_columns
        } else {
            0
        };
        if self.horizontal_scroll > max {
            self.horizontal_scroll = max;
        }
        proof {
            assert(self@ =~= old(self)@.set_table_data(self@.table_columns, self@.table_rows));
        }
    }

    /// Apply `rebound_cursor` to one cursor for a backing list of `len`
    /// entries.
    fn fix_cursor(cursor: &mut ListCursor, len: usize)
        ensures
            final(cursor).selected == rebound_cursor(old(cursor).selected, len as nat),
    {
        if len == 0 {
            cursor.select(None);
        } else {
            match cursor.selected() {
                None => cursor.select(Some(0)),
                Some(i) => {
                    if i >= len {
                        cursor.select(Some(len - 1));
                    }
                },
            }
        }
    }

    /// Flip the horizontal-window flag, resetting the scroll.
    pub fn toggle_expanded_columns(&mut self)
        ensures
            final(self)@ == old(self)@.toggle_expanded_columns(),
            old(self)@.wf() ==> final(self)@.wf(),
    {
        self.expanded_columns = !self.expanded_columns;
        self.horizontal_scroll = 0;
        proof {
            assert(self@ =~= old(self)@.toggle_expanded_columns());
        }
    }

    /// Move the window one column towards the end, clamped at the last
    /// window position.
    pub fn scroll_right(&mut self)
        ensures
            final(self)@ == old(self)@.scroll_right(),
            old(self)@.wf() ==> final(self)@.wf(),
    {
        if self.expanded_columns && self.table_columns.len() > 0 {
            let max = if self.table_columns.len() > self.visible_columns {
                self.table_columns.len() - self.visible_columns
            } else {
                0
            };
            if self.horizontal_scroll < max {
                self.horizontal_scroll = self.horizontal_scroll + 1;
            }
        }
        proof {
            assert(self@ =~= old(self)@.scroll_right());
        }
    }

    /// Move the window one column towards the start.
    pub fn scroll_left(&mut self)
        ensures
            final(self)@ == old(self)@.scroll_left(),
            old(self)@.wf() ==> final(self)@.wf(),
    {
        if self.expanded_columns && self.horizontal_scroll > 0 {
            self.horizontal_scroll = self.horizontal_scroll - 1;
        }
        proof {
            assert(self@ =~= old(self)@.scroll_left());
        }
    }

    /// Set the window width (at least one column), keeping the scroll legal.
    pub fn set_visible_columns(&mut self, count: usize)
        ensures
            final(self)@ == old(self)@.set_visible_columns(count),
            old(self)@.wf() ==> final(self)@.wf(),
    {
        self.visible_columns = if count >= 1 {
            count
        } else {
            1
        };
        let max = if self.table_columns.len() > self.visible_columns {
            self.table_columns.len() - self.visible_columns
        } else {
            0
        };
        if self.horizontal_scroll > max {
            self.horizontal_scroll = max;
        }
        proof {
            assert(self@ =~= old(self)@.set_visible_columns(count));
        }
    }

    /// The database name under the catalogue cursor, if the cursor points
    /// inside the snapshot.
    pub fn get_selected_database(&self) -> (r: Option<&String>)
        ensures
            r.deep_view() == self@.selected_database(),
    {
        match self.database_list_state.selected() {
            Some(i) => if i < self.databases.len() {
                Some(&self.databases[i])
            } else {
                None
            },
            None => None,
        }
    }

    /// The table name under the table-list cursor, if the cursor points
    /// inside the snapshot.
    pub fn get_selected_table(&self) -> (r: Option<&String>)
        ensures
            r.deep_view() == self@.selected_table(),
    {
        match self.table_list_state.selected() {
            Some(i) => if i < self.tables.len() {
                Some(&self.tables[i])
            } else {
                None
            },
            None => None,
        }
    }

    /// The header path: `db/table`, `db`, or `/`.
    pub fn get_current_path(&self) -> (r: String)
        ensures
            r@ == self@.current_path(),
    {
        match (&self.current_database, &self.current_table) {
            (Some(db), Some(table)) => {
                let mut path = db.clone();
                path.append("/");
                path.append(table.as_str());
                proof {
                    reveal_strlit("/");
                    assert(path@ =~= self@.current_path());
                }
                path
            },
            (Some(db), None) => db.clone(),
            _ => {
                let path = "/".to_owned();
                proof {
                    reveal_strlit("/");
                    assert(path@ =~= self@.current_path());
                }
                path
            },
        }
    }

    /// The `(start, end)` window of column indices the data table shows.
    /// With the invariants in force the window is always inside the column
    /// list, at most `visible_columns` wide when expanded, and the whole
    /// list when not.
    pub fn get_visible_columns(&self) -> (r: (usize, usize))
        requires
            self@.wf(),
        ensures
            r == self@.visible_range(),
            r.0 <= r.1 <= self@.table_columns.len(),
            self@.expanded_columns && self@.table_columns.len() > 0 ==> r.1 - r.0
                <= self@.visible_columns,
            !self@.expanded_columns ==> r.0 == 0 && r.1 == self@.table_columns.len(),
    {
        if !self.expanded_columns || self.table_columns.is_empty() {
            return (0, self.table_columns.len());
        }
        let start = self.horizontal_scroll;
        let end = if self.visible_columns <= self.table_columns.len() - start {
            start + self.visible_columns
        } else {
            self.table_columns.len()
        };
        (start, end)
    }
}

} // verus!
