//! The texts of the frame: headers, titles, the status bar, and the column
//! strip. Every builder returns exactly the characters its spec names.

use vstd::prelude::*;
use vstd::string::StringExecFns;

use crate::navigation::{NavigationState, ViewMode};
use crate::numfmt;
use crate::numfmt::dec_rep;

verus! {

/// `join_upto(cols, sep, i)`: the first `i` entries joined by `sep`.
pub open spec fn join_upto(cols: Seq<Seq<char>>, sep: Seq<char>, i: int) -> Seq<char>
    decreases i,
{
    if i <= 0 {
        Seq::empty()
    } else if i == 1 {
        cols[0]
    } else {
        join_upto(cols, sep, i - 1) + sep + cols[i - 1]
    }
}

/// All entries joined by `sep`.
pub open spec fn join_sep(cols: Seq<Seq<char>>, sep: Seq<char>) -> Seq<char> {
    join_upto(cols, sep, cols.len() as int)
}

/// Join the column labels of the window `[start, end)` with ` | `.
#[verifier::loop_isolation(false)]
pub fn join_columns(cols: &Vec<String>, start: usize, end: usize) -> (r: String)
    requires
        start <= end <= cols.len(),
    ensures
        r@ == join_sep(cols.deep_view().subrange(start as int, end as int), " | "@),
{
    let ghost window = cols.deep_view().subrange(start as int, end as int);
    let mut out = String::new();
    let mut i: usize = start;
    while i < end
        invariant
            start <= i <= end,
            out@ == join_upto(window, " | "@, i - start),
        decreases end - i,
    {
        proof {
            assert(window[(i - start) as int] == cols@[i as int]@);
        }
        if i > start {
            out.append(" | ");
        }
        out.append(cols[i].as_str());
        i = i + 1;
    }
    out
}

/// The column strip above the data table: in expanded mode the window
/// `Columns s-e of n: ...` over the visible labels, otherwise every label.
pub open spec fn column_info_text(
    cols: Seq<Seq<char>>,
    expanded: bool,
    start: int,
    end: int,
) -> Seq<char> {
    if expanded {
        "Columns "@ + dec_rep((start + 1) as nat) + "-"@ + dec_rep(end as nat) + " of "@ + dec_rep(
            cols.len(),
        ) + ": "@ + join_sep(cols.subrange(start, end), " | "@)
    } else {
        join_sep(cols, " | "@)
    }
}

impl NavigationState {
    /// The column strip above the data table.
    pub fn column_info(&self) -> (r: String)
        requires
            self@.wf(),
            self@.table_columns.len() < usize::MAX,
        ensures
            r@ == column_info_text(
                self@.table_columns,
                self@.expanded_columns,
                self@.visible_range().0 as int,
                self@.visible_range().1 as int,
            ),
    {
        let (start, end) = self.get_visible_columns();
        if self.expanded_columns {
            let mut out = "Columns ".to_owned();
            numfmt::push_decimal(&mut out, start as u64 + 1);
            out.append("-");
            numfmt::push_decimal(&mut out, end as u64);
            out.append(" of ");
            numfmt::push_decimal(&mut out, self.table_columns.len() as u64);
            out.append(": ");
            let joined = join_columns(&self.table_columns, start, end);
            out.append(joined.as_str());
            proof {
                assert(out@ =~= column_info_text(
                    self@.table_columns,
                    self@.expanded_columns,
                    self@.visible_range().0 as int,
                    self@.visible_range().1 as int,
                ));
            }
            out
        } else {
            let joined = join_columns(&self.table_columns, 0, self.table_columns.len());
            proof {
                assert(self@.table_columns.subrange(0, self@.table_columns.len() as int)
                    =~= self@.table_columns);
            }
            joined
        }
    }
}

/// The window title of each view.
pub open spec fn view_title(mode: ViewMode) -> Seq<char> {
    match mode {
        ViewMode::Databases => "RMSQL - Databases"@,
        ViewMode::Tables => "RMSQL - Tables"@,
        ViewMode::TableData => "RMSQL - Table Data"@,
        ViewMode::SqlEditor => "RMSQL - SQL Editor"@,
    }
}

/// The header line: the view title and the current path in brackets.
pub open spec fn header_text_of(mode: ViewMode, path: Seq<char>) -> Seq<char> {
    view_title(mode) + " ["@ + path + "]"@
}

impl NavigationState {
    /// The header line of the frame.
    pub fn header_text(&self) -> (r: String)
        ensures
            r@ == header_text_of(self@.mode, self@.current_path()),
    {
        let mut out = match self.mode {
            ViewMode::Databases => "RMSQL - Databases".to_owned(),
            ViewMode::Tables => "RMSQL - Tables".to_owned(),
            ViewMode::TableData => "RMSQL - Table Data".to_owned(),
            ViewMode::SqlEditor => "RMSQL - SQL Editor".to_owned(),
        };
        out.append(" [");
        let path = self.get_current_path();
        out.append(path.as_str());
        out.append("]");
        proof {
            assert(out@ =~= header_text_of(self@.mode, self@.current_path()));
        }
        out
    }
}

/// The mode label at the left of the status bar.
pub open spec fn mode_label(mode: ViewMode) -> Seq<char> {
    match mode {
        ViewMode::Databases => "[1] Databases"@,
        ViewMode::Tables => "[2] Tables"@,
        ViewMode::TableData => "[3] Data"@,
        ViewMode::SqlEditor => "[i] SQL Editor"@,
    }
}

/// The fixed key summary at the right of the status bar.
pub open spec fn status_help_text() -> Seq<char> {
    "Press '?' for help | q: quit | r: refresh | 1/2/3: switch modes | i: SQL editor | Space: expand columns"@
}

/// The status bar: mode label, current status message, key summary.
pub open spec fn status_bar_text_of(mode: ViewMode, status: Seq<char>) -> Seq<char> {
    mode_label(mode) + " | "@ + status + " | "@ + status_help_text()
}

/// Build the status bar line.
pub fn status_bar_text(mode: &ViewMode, status_message: &String) -> (r: String)
    ensures
        r@ == status_bar_text_of(*mode, status_message@),
{
    let mut out = match mode {
        ViewMode::Databases => "[1] Databases".to_owned(),
        ViewMode::Tables => "[2] Tables".to_owned(),
        ViewMode::TableData => "[3] Data".to_owned(),
        ViewMode::SqlEditor => "[i] SQL Editor".to_owned(),
    };
    out.append(" | ");
    out.append(status_message.as_str());
    out.append(" | ");
    out.append(
        "Press '?' for help | q: quit | r: refresh | 1/2/3: switch modes | i: SQL editor | Space: expand columns",
    );
    proof {
        assert(out@ =~= status_bar_text_of(*mode, status_message@));
    }
    out
}

/// The single-line history indicator of the editor.
pub open spec fn history_info_text(count: nat) -> Seq<char> {
    if count == 0 {
        "No SQL history yet"@
    } else {
        "History: "@ + dec_rep(count) + " queries saved"@
    }
}

/// Build the history indicator for a history of `count` statements.
pub fn history_info(count: usize) -> (r: String)
    ensures
        r@ == history_info_text(count as nat),
{
    if count == 0 {
        "No SQL history yet".to_owned()
    } else {
        let mut out = "History: ".to_owned();
        numfmt::push_decimal(&mut out, count as u64);
        out.append(" queries saved");
        proof {
            assert(out@ =~= history_info_text(count as nat));
        }
        out
    }
}

/// The title of the data table: table name, and in expanded mode the window
/// position.
pub open spec fn data_table_title_of(
    table: Option<Seq<char>>,
    expanded: bool,
    start: int,
    end: int,
    total: nat,
) -> Seq<char> {
    let name = match table {
        Some(t) => t,
        None => "Unknown"@,
    };
    if expanded {
        "Data from '"@ + name + "' [EXPANDED "@ + dec_rep((start + 1) as nat) + "-"@ + dec_rep(
            end as nat,
        ) + "/"@ + dec_rep(total) + "] (<-> navigate, Space compress, h back)"@
    } else {
        "Data from '"@ + name + "' (h to go back, Space to expand, showing first 100 rows)"@
    }
}

impl NavigationState {
    /// The title of the data table.
    pub fn data_table_title(&self) -> (r: String)
        requires
            self@.wf(),
            self@.table_columns.len() < usize::MAX,
        ensures
            r@ == data_table_title_of(
                self@.current_table,
                self@.expanded_columns,
                self@.visible_range().0 as int,
                self@.visible_range().1 as int,
                self@.table_columns.len(),
            ),
    {
        let mut out = "Data from '".to_owned();
        match &self.current_table {
            Some(t) => out.append(t.as_str()),
            None => out.append("Unknown"),
        }
        if self.expanded_columns {
            let (start, end) = self.get_visible_columns();
            out.append("' [EXPANDED ");
            numfmt::push_decimal(&mut out, start as u64 + 1);
            out.append("-");
            numfmt::push_decimal(&mut out, end as u64);
            out.append("/");
            numfmt::push_decimal(&mut out, self.table_columns.len() as u64);
            out.append("] (<-> navigate, Space compress, h back)");
        } else {
            out.append("' (h to go back, Space to expand, showing first 100 rows)");
        }
        proof {
            assert(out@ =~= data_table_title_of(
                self@.current_table,
                self@.expanded_columns,
                self@.visible_range().0 as int,
                self@.visible_range().1 as int,
                self@.table_columns.len(),
            ));
        }
        out
    }
}

/// The title of the editor's input panel, naming the database statements
/// run against.
pub open spec fn sql_input_title_of(db: Option<Seq<char>>) -> Seq<char> {
    let name = match db {
        Some(d) => d,
        None => "none"@,
    };
    "SQL Editor - Database: "@ + name
        + " (Enter to execute, Esc to exit, Up/Down for history)"@
}

impl NavigationState {
    /// The title of the editor's input panel.
    pub fn sql_input_title(&self) -> (r: String)
        ensures
            r@ == sql_input_title_of(self@.current_database),
    {
        let mut out = "SQL Editor - Database: ".to_owned();
        match &self.current_database {
            Some(d) => out.append(d.as_str()),
            None => out.append("none"),
        }
        out.append(" (Enter to execute, Esc to exit, Up/Down for history)");
        proof {
            assert(out@ =~= sql_input_title_of(self@.current_database));
        }
        out
    }
}

/// The title of a populated result panel: `Result - ` and the message.
pub open spec fn result_title_of(message: Seq<char>) -> Seq<char> {
    "Result - "@ + message
}

/// Build the title of a populated result panel.
pub fn result_title(message: &String) -> (r: String)
    ensures
        r@ == result_title_of(message@),
{
    let mut out = "Result - ".to_owned();
    out.append(message.as_str());
    out
}

/// The title of the table list, naming the open database.
pub open spec fn tables_list_title_of(db: Option<Seq<char>>) -> Seq<char> {
    let name = match db {
        Some(d) => d,
        None => "None"@,
    };
    "Tables in '"@ + name + "' (h to go back, l/Enter to view data)"@
}

/// Build the title of the table list.
pub fn tables_list_title(db: &Option<String>) -> (r: String)
    ensures
        r@ == tables_list_title_of(db.deep_view()),
{
    let mut out = "Tables in '".to_owned();
    match db {
        Some(d) => out.append(d.as_str()),
        None => out.append("None"),
    }
    out.append("' (h to go back, l/Enter to view data)");
    proof {
        assert(out@ =~= tables_list_title_of(db.deep_view()));
    }
    out
}

} // verus!
