//! The navigation and editor state machine.
//!
//! `NavigationState` owns everything the views read: the current mode, the
//! catalogue snapshots, the per-view cursors, the horizontal window over wide
//! tables, and the SQL editor (input buffer, history cursor, last result).
//! Every operation is a pure mutation; none performs I/O. Each one carries a
//! full functional contract phrased over `NavModel`, the mathematical view of
//! the state, so that laws relating several operations can be stated and
//! proved against the same models.

use vstd::prelude::*;

use crate::cursor::{cursor_down, cursor_up, ListCursor};

verus! {

/// The four top-level views the session can occupy.
#[derive(Debug, Clone, PartialEq, Eq, Structural)]
pub enum ViewMode {
    Databases,
    Tables,
    TableData,
    SqlEditor,
}

/// The output of one executed statement: column labels, stringified row
/// cells, and a human-readable message.
#[derive(Debug, Clone)]
pub struct SqlResult {
    pub columns: Vec<String>,
    pub rows: Vec<Vec<String>>,
    pub message: String,
}

/// Mathematical view of a result: every string as a sequence of characters.
#[verifier::ext_equal]
pub ghost struct ResultModel {
    pub columns: Seq<Seq<char>>,
    pub rows: Seq<Seq<Seq<char>>>,
    pub message: Seq<char>,
}

impl View for SqlResult {
    type V = ResultModel;

    open spec fn view(&self) -> ResultModel {
        ResultModel {
            columns: self.columns.deep_view(),
            rows: self.rows.deep_view(),
            message: self.message@,
        }
    }
}

/// Mathematical view of the whole navigation state. The exec operations
/// promise exactly `final(self)@ == old(self)@.op(...)` for the spec
/// transformer of the same name, so two-step laws can be proved once over
/// these models.
#[verifier::ext_equal]
pub ghost struct NavModel {
    pub mode: ViewMode,
    pub current_database: Option<Seq<char>>,
    pub current_table: Option<Seq<char>>,
    pub databases: Seq<Seq<char>>,
    pub tables: Seq<Seq<char>>,
    pub table_columns: Seq<Seq<char>>,
    pub table_rows: Seq<Seq<Seq<char>>>,
    pub expanded_columns: bool,
    pub horizontal_scroll: usize,
    pub visible_columns: usize,
    pub sql_input: Seq<char>,
    pub sql_history: Seq<Seq<char>>,
    pub sql_history_index: Option<usize>,
    pub sql_result: Option<ResultModel>,
    pub database_list_state: Option<usize>,
    pub table_list_state: Option<usize>,
    pub data_table_state: Option<usize>,
}

/// A cursor is cleared exactly when its backing sequence is empty, and
/// otherwise selects an index inside it.
pub open spec fn cursor_wf(sel: Option<usize>, len: nat) -> bool {
    &&& sel is Some ==> (sel->0 as nat) < len
    &&& len == 0 ==> sel is None
}

impl NavModel {
    /// The state invariants, maintained by every operation:
    /// a selected table implies a selected database; the `Tables` and
    /// `TableData` modes are only occupied while the names they browse are
    /// set; every cursor is inside its backing sequence (or cleared, exactly
    /// when the sequence is empty); the horizontal window starts within
    /// range; the window is at least one column wide; and the history cursor
    /// is inside the history.
    pub open spec fn wf(self) -> bool {
        &&& self.current_table is Some ==> self.current_database is Some
        &&& self.mode is Tables ==> self.current_database is Some
        &&& self.mode is TableData ==> self.current_database is Some
            && self.current_table is Some
        &&& cursor_wf(self.database_list_state, self.databases.len())
        &&& cursor_wf(self.table_list_state, self.tables.len())
        &&& cursor_wf(self.data_table_state, self.table_rows.len())
        &&& self.horizontal_scroll <= max_scroll(
            self.table_columns.len(),
            self.visible_columns as nat,
        )
        &&& self.visible_columns >= 1
        &&& self.sql_history_index is Some ==> (self.sql_history_index->0 as nat)
            < self.sql_history.len()
    }
}

/// The largest legal `horizontal_scroll`: column count minus window width,
/// or 0 when the window already covers every column.
pub open spec fn max_scroll(columns: nat, visible: nat) -> nat {
    if columns > visible {
        (columns - visible) as nat
    } else {
        0
    }
}

/// Clamp a selection to a (possibly shorter) new backing sequence: clear it
/// when the sequence is empty, initialise it to 0 when it was clear, keep it
/// otherwise, moved to the last entry if it now points past the end.
pub open spec fn rebound_cursor(sel: Option<usize>, len: nat) -> Option<usize> {
    if len == 0 {
        None
    } else if sel is None {
        Some(0usize)
    } else if (sel->0 as nat) < len {
        sel
    } else {
        Some(((len - 1) as usize))
    }
}

pub proof fn rebound_cursor_wf(sel: Option<usize>, len: nat)
    requires
        len <= usize::MAX,
    ensures
        cursor_wf(rebound_cursor(sel, len), len),
{
}

impl NavigationState {
    /// The mathematical view of the state.
    pub open spec fn model(&self) -> NavModel {
        NavModel {
            mode: self.mode,
            current_database: self.current_database.deep_view(),
            current_table: self.current_table.deep_view(),
            databases: self.databases.deep_view(),
            tables: self.tables.deep_view(),
            table_columns: self.table_columns.deep_view(),
            table_rows: self.table_rows.deep_view(),
            expanded_columns: self.expanded_columns,
            horizontal_scroll: self.horizontal_scroll,
            visible_columns: self.visible_columns,
            sql_input: self.sql_input@,
            sql_history: self.sql_history.deep_view(),
            sql_history_index: self.sql_history_index,
            sql_result: match self.sql_result {
                Some(r) => Some(r@),
                None => None,
            },
            database_list_state: self.database_list_state.selected,
            table_list_state: self.table_list_state.selected,
            data_table_state: self.data_table_state.selected,
        }
    }
}

impl View for NavigationState {
    type V = NavModel;

    open spec fn view(&self) -> NavModel {
        self.model()
    }
}

/// The navigation and editor state. Created once per session in the
/// `Databases` view and mutated only through the operations below.
#[derive(Debug)]
pub struct NavigationState {
    pub mode: ViewMode,
    pub current_database: Option<String>,
    pub current_table: Option<String>,
    pub databases: Vec<String>,
    pub tables: Vec<String>,
    pub table_columns: Vec<String>,
    pub table_rows: Vec<Vec<String>>,
    pub expanded_columns: bool,
    pub horizontal_scroll: usize,
    pub visible_columns: usize,
    pub sql_input: String,
    pub sql_history: Vec<String>,
    pub sql_history_index: Option<usize>,
    pub sql_result: Option<SqlResult>,
    pub database_list_state: ListCursor,
    pub table_list_state: ListCursor,
    pub data_table_state: ListCursor,
}

impl NavModel {
    /// `move_up` steps the cursor of the current view one row towards the
    /// top without wrapping; the editor has no cursor to move.
    pub open spec fn move_up(self) -> NavModel {
        match self.mode {
            ViewMode::Databases => NavModel {
                database_list_state: cursor_up(self.database_list_state),
                ..self
            },
            ViewMode::Tables => NavModel {
                table_list_state: cursor_up(self.table_list_state),
                ..self
            },
            ViewMode::TableData => NavModel {
                data_table_state: cursor_up(self.data_table_state),
                ..self
            },
            ViewMode::SqlEditor => self,
        }
    }

    /// `move_down` steps the cursor of the current view one row towards the
    /// end, clamped at the last row.
    pub open spec fn move_down(self) -> NavModel {
        match self.mode {
            ViewMode::Databases => NavModel {
                database_list_state: cursor_down(self.database_list_state, self.databases.len()),
                ..self
            },
            ViewMode::Tables => NavModel {
                table_list_state: cursor_down(self.table_list_state, self.tables.len()),
                ..self
            },
            ViewMode::TableData => NavModel {
                data_table_state: cursor_down(self.data_table_state, self.table_rows.len()),
                ..self
            },
            ViewMode::SqlEditor => self,
        }
    }
}

impl NavigationState {
    /// A fresh session: `Databases` view, nothing selected, empty snapshots,
    /// an empty editor, and a three-column horizontal window.
    pub fn new() -> (nav: NavigationState)
        ensures
            nav@.wf(),
            nav@.mode == ViewMode::Databases,
            nav@.current_database is None,
            nav@.current_table is None,
            nav@.databases =~= Seq::<Seq<char>>::empty(),
            nav@.tables =~= Seq::<Seq<char>>::empty(),
            nav@.table_columns =~= Seq::<Seq<char>>::empty(),
            nav@.table_rows =~= Seq::<Seq<Seq<char>>>::empty(),
            !nav@.expanded_columns,
            nav@.horizontal_scroll == 0,
            nav@.visible_columns == 3,
            nav@.sql_input =~= Seq::<char>::empty(),
            nav@.sql_history =~= Seq::<Seq<char>>::empty(),
            nav@.sql_history_index is None,
            nav@.sql_result is None,
            nav@.database_list_state is None,
            nav@.table_list_state is None,
            nav@.data_table_state is None,
    {
        NavigationState {
            mode: ViewMode::Databases,
            current_database: None,
            current_table: None,
            databases: Vec::new(),
            tables: Vec::new(),
            table_columns: Vec::new(),
            table_rows: Vec::new(),
            expanded_columns: false,
            horizontal_scroll: 0,
            visible_columns: 3,
            sql_input: String::new(),
            sql_history: Vec::new(),
            sql_history_index: None,
            sql_result: None,
            database_list_state: ListCursor::new(),
            table_list_state: ListCursor::new(),
            data_table_state: ListCursor::new(),
        }
    }

    /// Step the current view's cursor one row towards the top.
    pub fn move_up(&mut self)
        ensures
            final(self)@ == old(self)@.move_up(),
            old(self)@.wf() ==> final(self)@.wf(),
    {
        match self.mode {
            ViewMode::Databases => self.database_list_state.up(),
            ViewMode::Tables => self.table_list_state.up(),
            ViewMode::TableData => self.data_table_state.up(),
            ViewMode::SqlEditor => {},
        }
        proof {
            assert(self@ =~= old(self)@.move_up());
        }
    }

    /// Step the current view's cursor one row towards the end, clamped at
    /// the last row.
    pub fn move_down(&mut self)
        ensures
            final(self)@ == old(self)@.move_down(),
            old(self)@.wf() ==> final(self)@.wf(),
    {
        match self.mode {
            ViewMode::Databases => {
                let len = self.databases.len();
                self.database_list_state.down(len);
            },
            ViewMode::Tables => {
                let len = self.tables.len();
                self.table_list_state.down(len);
            },
            ViewMode::TableData => {
                let len = self.table_rows.len();
                self.data_table_state.down(len);
            },
            ViewMode::SqlEditor => {},
        }
        proof {
            assert(self@ =~= old(self)@.move_down());
        }
    }
}

} // verus!
