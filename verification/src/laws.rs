//! Laws relating several operations of the navigation state, stated over
//! the same models the operations' own contracts use. The preservation of
//! the state invariants by every controller step is
//! `controller::step_preserves_wf`.

use vstd::prelude::*;

use crate::navigation::{NavModel, ViewMode};

verus! {

/// The cursor the current view moves, as `move_up` / `move_down` see it.
pub open spec fn view_cursor(m: NavModel) -> Option<usize> {
    match m.mode {
        ViewMode::Databases => m.database_list_state,
        ViewMode::Tables => m.table_list_state,
        ViewMode::TableData => m.data_table_state,
        ViewMode::SqlEditor => None,
    }
}

/// The length of the sequence backing the current view's cursor.
pub open spec fn view_len(m: NavModel) -> nat {
    match m.mode {
        ViewMode::Databases => m.databases.len(),
        ViewMode::Tables => m.tables.len(),
        ViewMode::TableData => m.table_rows.len(),
        ViewMode::SqlEditor => 0,
    }
}

/// Toggling the horizontal window twice returns the flag to its original
/// value and leaves the scroll at 0; nothing else changes at all.
pub proof fn toggle_expanded_columns_involution(m: NavModel)
    ensures
        m.toggle_expanded_columns().toggle_expanded_columns().expanded_columns
            == m.expanded_columns,
        m.toggle_expanded_columns().toggle_expanded_columns().horizontal_scroll == 0,
        m.toggle_expanded_columns().toggle_expanded_columns() == (NavModel {
            horizontal_scroll: 0,
            ..m
        }),
{
    assert(m.toggle_expanded_columns().toggle_expanded_columns() =~= (NavModel {
        horizontal_scroll: 0,
        ..m
    }));
}

/// From a valid selection that is not at the end of its list, `move_down`
/// followed by `move_up` restores the whole state.
pub proof fn move_down_then_up_restores(m: NavModel)
    requires
        !(m.mode is SqlEditor),
        view_cursor(m) is Some,
        (view_cursor(m)->0 as nat) + 1 < view_len(m),
        view_len(m) <= usize::MAX,
    ensures
        m.move_down().move_up() == m,
{
    assert(m.move_down().move_up() =~= m);
}

/// From the fresh line with a non-empty history, one step up followed by
/// one step down returns to the fresh line with an empty buffer.
pub proof fn history_up_down_round_trip(m: NavModel)
    requires
        m.sql_history_index is None,
        0 < m.sql_history.len() <= usize::MAX,
    ensures
        m.navigate_history_up().navigate_history_down().sql_history_index is None,
        m.navigate_history_up().navigate_history_down().sql_input =~= Seq::<char>::empty(),
        m.navigate_history_up().navigate_history_down().sql_history == m.sql_history,
{
}

} // verus!
