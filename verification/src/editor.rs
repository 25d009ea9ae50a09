//! The SQL editor: input buffer, history browsing, execution, result panel.

use vstd::prelude::*;
use vstd::string::StringExecFns;

use crate::navigation::{NavModel, NavigationState, ResultModel, SqlResult};
use crate::strops;
use crate::strops::trim_of;

verus! {

impl NavModel {
    /// `add_to_sql_input` appends one character to the editor buffer.
    pub open spec fn add_to_sql_input(self, c: char) -> NavModel {
        NavModel { sql_input: self.sql_input.push(c), ..self }
    }

    /// `backspace_sql_input` removes the last character of the buffer, one
    /// full code point; a no-op on an empty buffer.
    pub open spec fn backspace_sql_input(self) -> NavModel {
        if self.sql_input.len() > 0 {
            NavModel { sql_input: self.sql_input.drop_last(), ..self }
        } else {
            self
        }
    }

    /// `execute_sql`: a buffer that is blank once trimmed changes nothing;
    /// otherwise the trimmed statement is appended to the session history,
    /// the history cursor returns to the fresh line, and the buffer is
    /// cleared.
    pub open spec fn execute_sql(self) -> NavModel {
        if trim_of(self.sql_input).len() > 0 {
            NavModel {
                sql_history: self.sql_history.push(trim_of(self.sql_input)),
                sql_history_index: None,
                sql_input: Seq::empty(),
                ..self
            }
        } else {
            self
        }
    }

    /// `navigate_history_up`: from the fresh line, jump to the newest entry;
    /// from entry `i > 0`, step to `i - 1`; at the oldest entry, or with no
    /// history at all, nothing changes. The entry stepped to is loaded into
    /// the buffer.
    pub open spec fn navigate_history_up(self) -> NavModel {
        if self.sql_history.len() == 0 {
            self
        } else {
            match self.sql_history_index {
                None => NavModel {
                    sql_history_index: Some(((self.sql_history.len() - 1) as usize)),
                    sql_input: self.sql_history.last(),
                    ..self
                },
                Some(i) => if i > 0 {
                    NavModel {
                        sql_history_index: Some((i - 1) as usize),
                        sql_input: self.sql_history[i - 1],
                        ..self
                    }
                } else {
                    self
                },
            }
        }
    }

    /// `navigate_history_down`: only acts while browsing; steps to the next
    /// entry and loads it, or, from the newest entry, returns to the fresh
    /// line with an empty buffer.
    pub open spec fn navigate_history_down(self) -> NavModel {
        match self.sql_history_index {
            Some(i) => if (i as nat) + 1 < self.sql_history.len() {
                NavModel {
                    sql_history_index: Some((i + 1) as usize),
                    sql_input: self.sql_history[i + 1],
                    ..self
                }
            } else {
                NavModel { sql_history_index: None, sql_input: Seq::empty(), ..self }
            },
            None => self,
        }
    }

    /// `set_sql_result` stores the output of the last executed statement.
    pub open spec fn set_sql_result(self, r: ResultModel) -> NavModel {
        NavModel { sql_result: Some(r), ..self }
    }

    /// `clear_sql_result` empties the result panel.
    pub open spec fn clear_sql_result(self) -> NavModel {
        NavModel { sql_result: None, ..self }
    }

    /// `set_sql_history` replaces the in-memory history (the persisted
    /// recents, seeded on entry to the editor) and returns the history
    /// cursor to the fresh line.
    pub open spec fn set_sql_history(self, history: Seq<Seq<char>>) -> NavModel {
        NavModel { sql_history: history, sql_history_index: None, ..self }
    }
}

impl NavigationState {
    /// Append one character to the editor buffer.
    pub fn add_to_sql_input(&mut self, ch: char)
        ensures
            final(self)@ == old(self)@.add_to_sql_input(ch),
            old(self)@.wf() ==> final(self)@.wf(),
    {
        strops::push_char(&mut self.sql_input, ch);
        proof {
            assert(self@ =~= old(self)@.add_to_sql_input(ch));
        }
    }

    /// Remove the last code point of the editor buffer, if any.
    pub fn backspace_sql_input(&mut self)
        ensures
            final(self)@ == old(self)@.backspace_sql_input(),
            old(self)@.wf() ==> final(self)@.wf(),
    {
        let _ = strops::pop_char(&mut self.sql_input);
        proof {
            assert(self@ =~= old(self)@.backspace_sql_input());
        }
    }

    /// Take the statement out of the editor: returns the trimmed buffer,
    /// which, when it is not blank, is also appended to the session history
    /// while the buffer is cleared and the history cursor returns to the
    /// fresh line. A blank buffer returns the empty string and changes
    /// nothing.
    pub fn execute_sql(&mut self) -> (r: String)
        ensures
            final(self)@ == old(self)@.execute_sql(),
            trim_of(old(self)@.sql_input).len() > 0 ==> r@ == trim_of(old(self)@.sql_input),
            trim_of(old(self)@.sql_input).len() == 0 ==> r@ == Seq::<char>::empty(),
            old(self)@.wf() ==> final(self)@.wf(),
    {
        let trimmed = strops::trim(self.sql_input.as_str());
        if !trimmed.is_empty() {
            let sql = trimmed.to_owned();
            self.sql_history.push(sql.clone());
            self.sql_history_index = None;
            self.sql_input = String::new();
            proof {
                assert(self@ =~= old(self)@.execute_sql());
            }
            return sql;
        }
        proof {
            assert(self@ =~= old(self)@.execute_sql());
        }
        String::new()
    }

    /// Step the history cursor towards older entries; see the transformer.
    pub fn navigate_history_up(&mut self)
        requires
            old(self)@.wf(),
        ensures
            final(self)@ == old(self)@.navigate_history_up(),
            final(self)@.wf(),
    {
        if !self.sql_history.is_empty() {
            match self.sql_history_index {
                None => {
                    let last = self.sql_history.len() - 1;
                    self.sql_history_index = Some(last);
                    self.sql_input = self.sql_history[last].clone();
                },
                Some(index) => {
                    if index > 0 {
                        self.sql_history_index = Some(index - 1);
                        self.sql_input = self.sql_history[index - 1].clone();
                    }
                },
            }
        }
        proof {
            assert(self@ =~= old(self)@.navigate_history_up());
        }
    }

    /// Step the history cursor towards newer entries, back to the fresh
    /// line after the newest one; see the transformer.
    pub fn navigate_history_down(&mut self)
        requires
            old(self)@.wf(),
        ensures
            final(self)@ == old(self)@.navigate_history_down(),
            final(self)@.wf(),
    {
        if let Some(index) = self.sql_history_index {
            if index < self.sql_history.len() - 1 {
                self.sql_history_index = Some(index + 1);
                self.sql_input = self.sql_history[index + 1].clone();
            } else {
                self.sql_history_index = None;
                self.sql_input = String::new();
            }
        }
        proof {
            assert(self@ =~= old(self)@.navigate_history_down());
        }
    }

    /// Store the output of the last executed statement.
    pub fn set_sql_result(&mut self, result: SqlResult)
        ensures
            final(self)@ == old(self)@.set_sql_result(result@),
            old(self)@.wf() ==> final(self)@.wf(),
    {
        self.sql_result = Some(result);
        proof {
            assert(self@ =~= old(self)@.set_sql_result(self.sql_result->0@));
        }
    }

    /// Empty the result panel.
    pub fn clear_sql_result(&mut self)
        ensures
            final(self)@ == old(self)@.clear_sql_result(),
            old(self)@.wf() ==> final(self)@.wf(),
    {
        self.sql_result = None;
        proof {
            assert(self@ =~= old(self)@.clear_sql_result());
        }
    }

    /// Replace the in-memory history with the persisted recents; the
    /// history cursor returns to the fresh line.
    pub fn set_sql_history(&mut self, history: Vec<String>)
        ensures
            final(self)@ == old(self)@.set_sql_history(history.deep_view()),
            old(self)@.wf() ==> final(self)@.wf(),
    {
        self.sql_history = history;
        self.sql_history_index = None;
        proof {
            assert(self@ =~= old(self)@.set_sql_history(self@.sql_history));
        }
    }
}

} // verus!
