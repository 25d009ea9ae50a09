//! Per-user state: known databases with access times and favorites, the
//! persisted SQL history, and preferences. Timestamps are kept as plain
//! milliseconds since the epoch; the binary converts real clock values on
//! its side of the boundary, and also owns the files these structures are
//! saved in.

use vstd::prelude::*;

verus! {

/// One database a connection has seen, with its last access time (epoch
/// milliseconds) and favorite flag.
#[derive(Debug)]
pub struct DatabaseInfo {
    pub name: String,
    pub connection_id: String,
    pub last_accessed: Option<i64>,
    pub favorite: bool,
}

impl Clone for DatabaseInfo {
    /// A clone is the same record.
    fn clone(&self) -> (res: Self)
        ensures
            res == *self,
    {
        DatabaseInfo {
            name: self.name.clone(),
            connection_id: self.connection_id.clone(),
            last_accessed: self.last_accessed,
            favorite: self.favorite,
        }
    }
}

/// One executed statement, as the history store keeps it.
#[derive(Debug)]
pub struct SqlHistoryEntry {
    pub sql: String,
    pub timestamp: i64,
    pub database: Option<String>,
    pub connection_id: String,
    pub execution_time_ms: Option<u64>,
    pub success: bool,
    pub error_message: Option<String>,
}

impl Clone for SqlHistoryEntry {
    /// A clone is the same record.
    fn clone(&self) -> (res: Self)
        ensures
            res == *self,
    {
        SqlHistoryEntry {
            sql: self.sql.clone(),
            timestamp: self.timestamp,
            database: match &self.database {
                Some(db) => Some(db.clone()),
                None => None,
            },
            connection_id: self.connection_id.clone(),
            execution_time_ms: self.execution_time_ms,
            success: self.success,
            error_message: match &self.error_message {
                Some(e) => Some(e.clone()),
                None => None,
            },
        }
    }
}

/// User preferences.
#[derive(Debug)]
pub struct UserPreferences {
    pub auto_save_history: bool,
    pub max_history_entries: usize,
    pub show_execution_time: bool,
    pub confirm_dangerous_queries: bool,
    pub default_limit: Option<usize>,
}

impl Default for UserPreferences {
    /// History saving on, 1000 entries kept, execution times shown,
    /// dangerous statements confirmed, a 100-row default limit.
    fn default() -> (r: Self)
        ensures
            r.auto_save_history,
            r.max_history_entries == 1000,
            r.show_execution_time,
            r.confirm_dangerous_queries,
            r.default_limit == Some(100usize),
    {
        UserPreferences {
            auto_save_history: true,
            max_history_entries: 1000,
            show_execution_time: true,
            confirm_dangerous_queries: true,
            default_limit: Some(100),
        }
    }
}

/// Some entry belongs to the given connection and database name.
pub open spec fn has_database(
    dbs: Seq<DatabaseInfo>,
    conn: Seq<char>,
    name: Seq<char>,
) -> bool {
    exists|j: int|
        0 <= j < dbs.len() && (#[trigger] dbs[j].connection_id@) == conn && dbs[j].name@ == name
}

/// The known databases, the last selection, and the preferences.
#[derive(Debug)]
pub struct UserConfig {
    pub databases: Vec<DatabaseInfo>,
    pub last_selected_database: Option<String>,
    pub last_connection_id: Option<String>,
    pub preferences: UserPreferences,
}

impl Default for UserConfig {
    /// No databases known, nothing selected, default preferences.
    fn default() -> (r: Self)
        ensures
            r.wf(),
            r.databases@.len() == 0,
            r.last_selected_database is None,
            r.last_connection_id is None,
            r.preferences.auto_save_history,
            r.preferences.max_history_entries == 1000,
    {
        UserConfig {
            databases: Vec::new(),
            last_selected_database: None,
            last_connection_id: None,
            preferences: UserPreferences::default(),
        }
    }
}

impl UserConfig {
    /// The connection id and name together key the collection: no pair
    /// occurs twice.
    pub open spec fn wf(self) -> bool {
        forall|i: int, j: int|
            0 <= i < j < self.databases@.len() ==> !((#[trigger] self.databases@[i].connection_id@)
                == (#[trigger] self.databases@[j].connection_id@)
                && self.databases@[i].name@ == self.databases@[j].name@)
    }

    /// The index of the entry for the given connection and name, if any.
    fn find_database(&self, connection_id: &String, database_name: &String) -> (r: Option<usize>)
        ensures
            match r {
                Some(i) => i < self.databases@.len() && self.databases@[i as int].connection_id@
                    == connection_id@ && self.databases@[i as int].name@ == database_name@,
                None => !has_database(self.databases@, connection_id@, database_name@),
            },
    {
        let mut i: usize = 0;
        while i < self.databases.len()
            invariant
                i <= self.databases@.len(),
                forall|j: int|
                    0 <= j < i ==> !((#[trigger] self.databases@[j].connection_id@)
                        == connection_id@ && self.databases@[j].name@ == database_name@),
            decreases self.databases@.len() - i,
        {
            if self.databases[i].connection_id == *connection_id && self.databases[i].name
                == *database_name {
                return Some(i);
            }
            i = i + 1;
        }
        None
    }

    /// Record that a database was seen now: a fresh record (not favorite,
    /// last accessed `now`) replaces any entry under the same key, or is
    /// appended. (The binary persists the collection after every mutation,
    /// and passes the clock value in.)
    pub fn add_database(&mut self, connection_id: String, database_name: String, now: i64)
        requires
            old(self).wf(),
        ensures
            final(self).wf(),
            final(self).last_selected_database == old(self).last_selected_database,
            final(self).last_connection_id == old(self).last_connection_id,
            final(self).preferences == old(self).preferences,
            has_database(old(self).databases@, connection_id@, database_name@) ==> exists|j: int|
                {
                    &&& 0 <= j < old(self).databases@.len()
                    &&& (#[trigger] old(self).databases@[j].connection_id@) == connection_id@
                    &&& old(self).databases@[j].name@ == database_name@
                    &&& final(self).databases@ == old(self).databases@.update(
                        j,
                        (DatabaseInfo {
                            name: database_name,
                            connection_id: connection_id,
                            last_accessed: Some(now),
                            favorite: false,
                        }),
                    )
                },
            !has_database(old(self).databases@, connection_id@, database_name@) ==> final(self).databases@
                == old(self).databases@.push(
                (DatabaseInfo {
                    name: database_name,
                    connection_id: connection_id,
                    last_accessed: Some(now),
                    favorite: false,
                }),
            ),
    {
        let found = self.find_database(&connection_id, &database_name);
        let info = DatabaseInfo {
            name: database_name,
            connection_id,
            last_accessed: Some(now),
            favorite: false,
        };
        match found {
            Some(i) => {
                self.databases.remove(i);
                self.databases.insert(i, info);
                proof {
                    assert(self.databases@ =~= old(self).databases@.update(
                        i as int,
                        self.databases@[i as int],
                    ));
                }
            },
            None => {
                self.databases.push(info);
            },
        }
    }

    /// Forget a database; returns whether anything was removed.
    pub fn remove_database(&mut self, connection_id: &String, database_name: &String) -> (removed:
        bool)
        requires
            old(self).wf(),
        ensures
            final(self).wf(),
            removed == has_database(old(self).databases@, connection_id@, database_name@),
            !removed ==> *final(self) == *old(self),
            removed ==> exists|j: int|
                0 <= j < old(self).databases@.len() && (#[trigger] old(
                    self,
                ).databases@[j].connection_id@) == connection_id@ && old(
                    self,
                ).databases@[j].name@ == database_name@ && final(self).databases@ == old(
                    self,
                ).databases@.remove(j),
            final(self).last_selected_database == old(self).last_selected_database,
            final(self).last_connection_id == old(self).last_connection_id,
            final(self).preferences == old(self).preferences,
    {
        let found = self.find_database(connection_id, database_name);
        match found {
            Some(i) => {
                self.databases.remove(i);
                true
            },
            None => false,
        }
    }

    /// Mark or unmark a database as favorite; a no-op for an unknown one.
    pub fn set_database_favorite(
        &mut self,
        connection_id: &String,
        database_name: &String,
        favorite: bool,
    )
        requires
            old(self).wf(),
        ensures
            final(self).wf(),
            !has_database(old(self).databases@, connection_id@, database_name@) ==> *final(self)
                == *old(self),
            has_database(old(self).databases@, connection_id@, database_name@) ==> exists|j: int|
                0 <= j < old(self).databases@.len() && (#[trigger] old(
                    self,
                ).databases@[j].connection_id@) == connection_id@ && old(
                    self,
                ).databases@[j].name@ == database_name@ && final(self).databases@ == old(
                    self,
                ).databases@.update(
                    j,
                    DatabaseInfo { favorite, ..old(self).databases@[j] },
                ),
            final(self).last_selected_database == old(self).last_selected_database,
            final(self).last_connection_id == old(self).last_connection_id,
            final(self).preferences == old(self).preferences,
    {
        let found = self.find_database(connection_id, database_name);
        match found {
            Some(i) => {
                let entry = self.databases[i].clone();
                self.databases.remove(i);
                self.databases.insert(
                    i,
                    DatabaseInfo { favorite, ..entry },
                );
                proof {
                    assert(self.databases@ =~= old(self).databases@.update(
                        i as int,
                        (DatabaseInfo { favorite, ..old(self).databases@[i as int] }),
                    ));
                }
            },
            None => {},
        }
    }

    /// Stamp a database's last access time; a no-op for an unknown one.
    pub fn update_database_access(&mut self, connection_id: &String, database_name: &String, now: i64)
        requires
            old(self).wf(),
        ensures
            final(self).wf(),
            !has_database(old(self).databases@, connection_id@, database_name@) ==> *final(self)
                == *old(self),
            has_database(old(self).databases@, connection_id@, database_name@) ==> exists|j: int|
                0 <= j < old(self).databases@.len() && (#[trigger] old(
                    self,
                ).databases@[j].connection_id@) == connection_id@ && old(
                    self,
                ).databases@[j].name@ == database_name@ && final(self).databases@ == old(
                    self,
                ).databases@.update(
                    j,
                    DatabaseInfo { last_accessed: Some(now), ..old(self).databases@[j] },
                ),
            final(self).last_selected_database == old(self).last_selected_database,
            final(self).last_connection_id == old(self).last_connection_id,
            final(self).preferences == old(self).preferences,
    {
        let found = self.find_database(connection_id, database_name);
        match found {
            Some(i) => {
                let entry = self.databases[i].clone();
                self.databases.remove(i);
                self.databases.insert(
                    i,
                    DatabaseInfo { last_accessed: Some(now), ..entry },
                );
                proof {
                    assert(self.databases@ =~= old(self).databases@.update(
                        i as int,
                        (DatabaseInfo {
                            last_accessed: Some(now),
                            ..old(self).databases@[i as int]
                        }),
                    ));
                }
            },
            None => {},
        }
    }

    /// The databases a connection has seen, in stored order.
    pub fn get_databases_for_connection(&self, connection_id: &String) -> (r: Vec<DatabaseInfo>)
        ensures
            r@ == self.databases@.filter(
                |d: DatabaseInfo| d.connection_id@ == connection_id@,
            ),
    {
        let ghost pred = |d: DatabaseInfo| d.connection_id@ == connection_id@;
        let mut out: Vec<DatabaseInfo> = Vec::new();
        let mut i: usize = 0;
        proof {
            reveal(Seq::filter);
            assert(self.databases@.subrange(0, 0).filter(pred) =~= Seq::<DatabaseInfo>::empty());
        }
        while i < self.databases.len()
            invariant
                i <= self.databases@.len(),
                out@ == self.databases@.subrange(0, i as int).filter(pred),
                pred == (|d: DatabaseInfo| d.connection_id@ == connection_id@),
            decreases self.databases@.len() - i,
        {
            proof {
                reveal(Seq::filter);
                assert(self.databases@.subrange(0, i as int + 1).drop_last()
                    =~= self.databases@.subrange(0, i as int));
            }
            if self.databases[i].connection_id == *connection_id {
                let item = self.databases[i].clone();
                out.push(item);
            }
            i = i + 1;
        }
        proof {
            assert(self.databases@.subrange(0, self.databases@.len() as int) =~= self.databases@);
        }
        out
    }

    /// The databases marked favorite, in stored order.
    pub fn get_favorite_databases(&self) -> (r: Vec<DatabaseInfo>)
        ensures
            r@ == self.databases@.filter(|d: DatabaseInfo| d.favorite),
    {
        let ghost pred = |d: DatabaseInfo| d.favorite;
        let mut out: Vec<DatabaseInfo> = Vec::new();
        let mut i: usize = 0;
        proof {
            reveal(Seq::filter);
            assert(self.databases@.subrange(0, 0).filter(pred) =~= Seq::<DatabaseInfo>::empty());
        }
        while i < self.databases.len()
            invariant
                i <= self.databases@.len(),
                out@ == self.databases@.subrange(0, i as int).filter(pred),
                pred == (|d: DatabaseInfo| d.favorite),
            decreases self.databases@.len() - i,
        {
            proof {
                reveal(Seq::filter);
                assert(self.databases@.subrange(0, i as int + 1).drop_last()
                    =~= self.databases@.subrange(0, i as int));
            }
            if self.databases[i].favorite {
                let item = self.databases[i].clone();
                out.push(item);
            }
            i = i + 1;
        }
        proof {
            assert(self.databases@.subrange(0, self.databases@.len() as int) =~= self.databases@);
        }
        out
    }

    /// Remember the database last opened and the connection it belongs to.
    pub fn set_last_database(&mut self, connection_id: String, database: String)
        ensures
            final(self).last_connection_id == Some(connection_id),
            final(self).last_selected_database == Some(database),
            final(self).databases == old(self).databases,
            final(self).preferences == old(self).preferences,
            old(self).wf() ==> final(self).wf(),
    {
        self.last_connection_id = Some(connection_id);
        self.last_selected_database = Some(database);
    }

    /// The most recently accessed databases, newest first, at most `limit`
    /// of them. Entries that share an access time keep no particular order;
    /// a never-accessed entry counts as epoch time 0.
    pub fn get_recent_databases(&self, limit: usize) -> (r: Vec<DatabaseInfo>)
        ensures
            exists|full: Seq<DatabaseInfo>|
                {
                    &&& #[trigger] full.to_multiset() == self.databases@.to_multiset()
                    &&& sorted_recent(full)
                    &&& r@ == full.subrange(
                        0,
                        if limit <= full.len() {
                            limit as int
                        } else {
                            full.len() as int
                        },
                    )
                },
    {
        let mut out: Vec<DatabaseInfo> = Vec::new();
        let mut i: usize = 0;
        proof {
            assert(self.databases@.subrange(0, 0) =~= Seq::<DatabaseInfo>::empty());
        }
        while i < self.databases.len()
            invariant
                i <= self.databases@.len(),
                sorted_recent(out@),
                out@.to_multiset() == self.databases@.subrange(0, i as int).to_multiset(),
            decreases self.databases@.len() - i,
        {
            let item = self.databases[i].clone();
            insert_sorted_recent(&mut out, item);
            proof {
                broadcast use vstd::seq_lib::to_multiset_build;

                assert(self.databases@.subrange(0, i as int + 1) =~= self.databases@.subrange(
                    0,
                    i as int,
                ).push(self.databases@[i as int]));
            }
            i = i + 1;
        }
        proof {
            assert(self.databases@.subrange(0, self.databases@.len() as int) =~= self.databases@);
        }
        let ghost full = out@;
        out.truncate(limit);
        proof {
            assert(out@ =~= full.subrange(
                0,
                if limit <= full.len() {
                    limit as int
                } else {
                    full.len() as int
                },
            ));
        }
        out
    }

    /// The last connection id and database name, when both are set.
    pub fn get_last_database(&self) -> (r: Option<(String, String)>)
        ensures
            match r {
                Some(pair) => self.last_connection_id == Some(pair.0) && self
                    .last_selected_database == Some(pair.1),
                None => self.last_connection_id is None || self.last_selected_database is None,
            },
    {
        match (&self.last_connection_id, &self.last_selected_database) {
            (Some(conn), Some(db)) => Some((conn.clone(), db.clone())),
            _ => None,
        }
    }
}

/// The access time an entry sorts by: its last access, or epoch 0 when it
/// was never stamped.
pub open spec fn access_key(d: DatabaseInfo) -> int {
    match d.last_accessed {
        Some(t) => t as int,
        None => 0,
    }
}

/// Sorted by access time, newest first.
pub open spec fn sorted_recent(s: Seq<DatabaseInfo>) -> bool {
    forall|i: int| 0 <= i < s.len() - 1 ==> access_key(#[trigger] s[i]) >= access_key(s[i + 1])
}

/// Insert one record into a newest-first vector, keeping it sorted.
fn insert_sorted_recent(out: &mut Vec<DatabaseInfo>, x: DatabaseInfo)
    requires
        sorted_recent(old(out)@),
    ensures
        sorted_recent(final(out)@),
        final(out)@.to_multiset() == old(out)@.to_multiset().insert(x),
{
    let key: i64 = match x.last_accessed {
        Some(t) => t,
        None => 0,
    };
    let mut p: usize = 0;
    while p < out.len()
        invariant_except_break
            p <= out@.len(),
            out@ == old(out)@,
            forall|j: int| 0 <= j < p ==> access_key(#[trigger] out@[j]) >= key as int,
        ensures
            p <= out@.len(),
            out@ == old(out)@,
            forall|j: int| 0 <= j < p ==> access_key(#[trigger] out@[j]) >= key as int,
            p < out@.len() ==> key as int >= access_key(out@[p as int]),
        decreases out@.len() - p,
    {
        let entry_key: i64 = match out[p].last_accessed {
            Some(t) => t,
            None => 0,
        };
        if key >= entry_key {
            break;
        }
        p = p + 1;
    }
    proof {
        assert(access_key(x) == key as int);
    }
    out.insert(p, x);
    proof {
        broadcast use vstd::seq_lib::to_multiset_insert;

        let s = out@;
        let prev = old(out)@;
        assert forall|k: int| 0 <= k < s.len() - 1 implies access_key(#[trigger] s[k])
            >= access_key(s[k + 1]) by {
            if k + 1 < p {
                assert(s[k] == prev[k] && s[k + 1] == prev[k + 1]);
            } else if k + 1 == p {
                assert(s[k] == prev[k] && s[k + 1] == x);
            } else if k == p {
                assert(s[k] == x && s[k + 1] == prev[k]);
            } else {
                assert(s[k] == prev[k - 1] && s[k + 1] == prev[k]);
            }
        }
    }
}

/// The persisted SQL history: entries oldest first, kept to a bound by
/// dropping the oldest.
#[derive(Debug)]
pub struct SqlHistory {
    pub entries: Vec<SqlHistoryEntry>,
    pub max_entries: usize,
}

impl Default for SqlHistory {
    /// Empty, keeping at most 1000 entries.
    fn default() -> (r: Self)
        ensures
            r.entries@.len() == 0,
            r.max_entries == 1000,
    {
        SqlHistory { entries: Vec::new(), max_entries: 1000 }
    }
}

/// What appending to a bounded history yields: the entry goes at the end,
/// and the oldest entries are dropped until at most `max` remain.
pub open spec fn bounded_push(
    entries: Seq<SqlHistoryEntry>,
    e: SqlHistoryEntry,
    max: nat,
) -> Seq<SqlHistoryEntry> {
    let pushed = entries.push(e);
    if pushed.len() > max {
        pushed.subrange((pushed.len() - max) as int, pushed.len() as int)
    } else {
        pushed
    }
}

impl SqlHistory {
    /// Append one executed statement, when history saving is on, dropping
    /// the oldest entries beyond the bound. Returns whether it was stored.
    /// (The preference flag is passed in; the binary persists afterwards.)
    pub fn add_sql_history(&mut self, entry: SqlHistoryEntry, auto_save: bool) -> (stored: bool)
        ensures
            final(self).max_entries == old(self).max_entries,
            !auto_save ==> *final(self) == *old(self) && !stored,
            auto_save ==> stored && final(self).entries@ == bounded_push(
                old(self).entries@,
                entry,
                old(self).max_entries as nat,
            ),
    {
        if !auto_save {
            return false;
        }
        let ghost pushed = old(self).entries@.push(entry);
        self.entries.push(entry);
        while self.entries.len() > self.max_entries
            invariant
                self.max_entries == old(self).max_entries,
                self.entries@.len() <= pushed.len(),
                self.entries@ == pushed.subrange(
                    pushed.len() - self.entries@.len(),
                    pushed.len() as int,
                ),
                self.entries@.len() >= self.max_entries || self.entries@ == pushed,
            decreases self.entries@.len(),
        {
            self.entries.remove(0);
            proof {
                assert(self.entries@ =~= pushed.subrange(
                    pushed.len() - self.entries@.len(),
                    pushed.len() as int,
                ));
            }
        }
        proof {
            assert(self.entries@ =~= bounded_push(
                old(self).entries@,
                entry,
                old(self).max_entries as nat,
            ));
        }
        true
    }

    /// All entries, oldest first.
    pub fn get_sql_history(&self) -> (r: &Vec<SqlHistoryEntry>)
        ensures
            r == &self.entries,
    {
        &self.entries
    }

    /// The entries of one connection, oldest first.
    pub fn get_sql_history_for_connection(&self, connection_id: &String) -> (r: Vec<
        SqlHistoryEntry,
    >)
        ensures
            r@ == self.entries@.filter(
                |e: SqlHistoryEntry| e.connection_id@ == connection_id@,
            ),
    {
        let ghost pred = |e: SqlHistoryEntry| e.connection_id@ == connection_id@;
        let mut out: Vec<SqlHistoryEntry> = Vec::new();
        let mut i: usize = 0;
        proof {
            reveal(Seq::filter);
            assert(self.entries@.subrange(0, 0).filter(pred) =~= Seq::<SqlHistoryEntry>::empty());
        }
        while i < self.entries.len()
            invariant
                i <= self.entries@.len(),
                out@ == self.entries@.subrange(0, i as int).filter(pred),
                pred == (|e: SqlHistoryEntry| e.connection_id@ == connection_id@),
            decreases self.entries@.len() - i,
        {
            proof {
                reveal(Seq::filter);
                assert(self.entries@.subrange(0, i as int + 1).drop_last()
                    =~= self.entries@.subrange(0, i as int));
            }
            if self.entries[i].connection_id == *connection_id {
                let item = self.entries[i].clone();
                out.push(item);
            }
            i = i + 1;
        }
        proof {
            assert(self.entries@.subrange(0, self.entries@.len() as int) =~= self.entries@);
        }
        out
    }

    /// The entries of one connection that ran against the named database,
    /// oldest first.
    pub fn get_sql_history_for_database(&self, connection_id: &String, database: &String) -> (r:
        Vec<SqlHistoryEntry>)
        ensures
            r@ == self.entries@.filter(
                |e: SqlHistoryEntry|
                    e.connection_id@ == connection_id@ && e.database is Some && e.database->0@
                        == database@,
            ),
    {
        let ghost pred = |e: SqlHistoryEntry|
            e.connection_id@ == connection_id@ && e.database is Some && e.database->0@
                == database@;
        let mut out: Vec<SqlHistoryEntry> = Vec::new();
        let mut i: usize = 0;
        proof {
            reveal(Seq::filter);
            assert(self.entries@.subrange(0, 0).filter(pred) =~= Seq::<SqlHistoryEntry>::empty());
        }
        while i < self.entries.len()
            invariant
                i <= self.entries@.len(),
                out@ == self.entries@.subrange(0, i as int).filter(pred),
                pred == (|e: SqlHistoryEntry|
                    e.connection_id@ == connection_id@ && e.database is Some && e.database->0@
                        == database@),
            decreases self.entries@.len() - i,
        {
            proof {
                reveal(Seq::filter);
                assert(self.entries@.subrange(0, i as int + 1).drop_last()
                    =~= self.entries@.subrange(0, i as int));
            }
            let keep = self.entries[i].connection_id == *connection_id && match &self.entries[i]
                .database {
                Some(db) => *db == *database,
                None => false,
            };
            if keep {
                let item = self.entries[i].clone();
                out.push(item);
            }
            i = i + 1;
        }
        proof {
            assert(self.entries@.subrange(0, self.entries@.len() as int) =~= self.entries@);
        }
        out
    }

    /// The statements of the most recent entries, newest first, at most
    /// `limit` of them.
    pub fn get_recent_sql_commands(&self, limit: usize) -> (r: Vec<String>)
        ensures
            r@.len() == if limit <= self.entries@.len() {
                limit as int
            } else {
                self.entries@.len() as int
            },
            forall|k: int|
                0 <= k < r@.len() ==> #[trigger] r@[k] == self.entries@[self.entries@.len() - 1
                    - k].sql,
    {
        let count = if limit <= self.entries.len() {
            limit
        } else {
            self.entries.len()
        };
        let mut out: Vec<String> = Vec::new();
        let mut k: usize = 0;
        while k < count
            invariant
                k <= count,
                count <= self.entries@.len(),
                out@.len() == k,
                forall|j: int|
                    0 <= j < k ==> #[trigger] out@[j] == self.entries@[self.entries@.len() - 1
                        - j].sql,
            decreases count - k,
        {
            let idx = self.entries.len() - 1 - k;
            let sql = self.entries[idx].sql.clone();
            out.push(sql);
            k = k + 1;
        }
        out
    }

    /// Forget every entry.
    pub fn clear_history(&mut self)
        ensures
            final(self).entries@.len() == 0,
            final(self).max_entries == old(self).max_entries,
    {
        self.entries.clear();
    }

    /// Forget every entry of one connection.
    pub fn clear_history_for_connection(&mut self, connection_id: &String)
        ensures
            final(self).entries@ == old(self).entries@.filter(
                |e: SqlHistoryEntry| e.connection_id@ != connection_id@,
            ),
            final(self).max_entries == old(self).max_entries,
    {
        let ghost pred = |e: SqlHistoryEntry| e.connection_id@ != connection_id@;
        let mut out: Vec<SqlHistoryEntry> = Vec::new();
        let mut i: usize = 0;
        proof {
            reveal(Seq::filter);
            assert(self.entries@.subrange(0, 0).filter(pred) =~= Seq::<SqlHistoryEntry>::empty());
        }
        while i < self.entries.len()
            invariant
                i <= self.entries@.len(),
                self.entries@ == old(self).entries@,
                self.max_entries == old(self).max_entries,
                out@ == self.entries@.subrange(0, i as int).filter(pred),
                pred == (|e: SqlHistoryEntry| e.connection_id@ != connection_id@),
            decreases self.entries@.len() - i,
        {
            proof {
                reveal(Seq::filter);
                assert(self.entries@.subrange(0, i as int + 1).drop_last()
                    =~= self.entries@.subrange(0, i as int));
            }
            if !(self.entries[i].connection_id == *connection_id) {
                let item = self.entries[i].clone();
                out.push(item);
            }
            i = i + 1;
        }
        proof {
            assert(self.entries@.subrange(0, self.entries@.len() as int) =~= self.entries@);
        }
        self.entries = out;
    }
}

} // verus!
