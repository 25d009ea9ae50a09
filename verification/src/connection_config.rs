//! Saved connections: the configuration record and the manager that holds
//! the collection, keyed by a generated id. Loading and saving the file the
//! collection persists in is the binary's concern.

use vstd::prelude::*;

verus! {

/// Whether a connection defaults to SSL: it does.
pub fn default_use_ssl() -> (r: bool)
    ensures
        r,
{
    true
}

/// One saved connection.
#[derive(Debug)]
pub struct ConnectionConfig {
    pub id: String,
    pub name: String,
    pub host: String,
    pub port: u16,
    pub username: String,
    pub password: String,
    pub default_database: Option<String>,
    pub use_ssl: bool,
}

impl Clone for ConnectionConfig {
    /// A clone is the same record.
    fn clone(&self) -> (res: Self)
        ensures
            res == *self,
    {
        ConnectionConfig {
            id: self.id.clone(),
            name: self.name.clone(),
            host: self.host.clone(),
            port: self.port,
            username: self.username.clone(),
            password: self.password.clone(),
            default_database: match &self.default_database {
                Some(db) => Some(db.clone()),
                None => None,
            },
            use_ssl: self.use_ssl,
        }
    }
}

/// Relies on `uuid::Uuid::new_v4` and its `Display` form: a fresh random
/// version-4 UUID, rendered in the 36-character hyphenated form. The value
/// is random, so only its length is stated.
#[verifier::external_body]
fn fresh_id() -> (r: String)
    ensures
        r@.len() == 36,
{
    uuid::Uuid::new_v4().to_string()
}

impl ConnectionConfig {
    /// A new record under a freshly generated id, with SSL on.
    pub fn new(
        name: String,
        host: String,
        port: u16,
        username: String,
        password: String,
        default_database: Option<String>,
    ) -> (r: ConnectionConfig)
        ensures
            r.id@.len() == 36,
            r.name == name,
            r.host == host,
            r.port == port,
            r.username == username,
            r.password == password,
            r.default_database == default_database,
            r.use_ssl,
    {
        ConnectionConfig {
            id: fresh_id(),
            name,
            host,
            port,
            username,
            password,
            default_database,
            use_ssl: true,
        }
    }
}

/// Lexicographic order on character sequences by code point. UTF-8 encodes
/// larger code points with byte-wise larger sequences, so this is also the
/// byte-wise order std's string comparison uses.
pub open spec fn str_le(a: Seq<char>, b: Seq<char>) -> bool
    decreases a.len(),
{
    if a.len() == 0 {
        true
    } else if b.len() == 0 {
        false
    } else if a[0] == b[0] {
        str_le(a.drop_first(), b.drop_first())
    } else {
        (a[0] as u32) < (b[0] as u32)
    }
}

/// The order is total.
pub proof fn str_le_total(a: Seq<char>, b: Seq<char>)
    ensures
        str_le(a, b) || str_le(b, a),
    decreases a.len(),
{
    if a.len() > 0 && b.len() > 0 && a[0] == b[0] {
        str_le_total(a.drop_first(), b.drop_first());
    } else if a.len() > 0 && b.len() > 0 {
        vstd::utf8::char_u32_cast(a[0], a[0] as u32);
        vstd::utf8::char_u32_cast(b[0], b[0] as u32);
    }
}

/// Compare two strings in the order `str_le`.
fn str_le_exec(a: &String, b: &String) -> (r: bool)
    ensures
        r == str_le(a@, b@),
{
    let an = a.as_str().unicode_len();
    let bn = b.as_str().unicode_len();
    let mut i: usize = 0;
    proof {
        assert(a@.subrange(0, an as int) =~= a@);
        assert(b@.subrange(0, bn as int) =~= b@);
    }
    while i < an && i < bn
        invariant
            i <= an,
            i <= bn,
            an == a@.len(),
            bn == b@.len(),
            str_le(a@, b@) == str_le(a@.subrange(i as int, an as int), b@.subrange(i as int, bn as int)),
        decreases an - i,
    {
        let ca = a.as_str().get_char(i);
        let cb = b.as_str().get_char(i);
        if ca != cb {
            proof {
                assert(a@.subrange(i as int, an as int)[0] == a@[i as int]);
                assert(b@.subrange(i as int, bn as int)[0] == b@[i as int]);
            }
            return (ca as u32) < (cb as u32);
        }
        proof {
            assert(a@.subrange(i as int, an as int).drop_first() =~= a@.subrange(
                i as int + 1,
                an as int,
            ));
            assert(b@.subrange(i as int, bn as int).drop_first() =~= b@.subrange(
                i as int + 1,
                bn as int,
            ));
        }
        i = i + 1;
    }
    proof {
        if i >= an {
            assert(a@.subrange(i as int, an as int).len() == 0);
        } else {
            assert(b@.subrange(i as int, bn as int).len() == 0);
            assert(a@.subrange(i as int, an as int).len() > 0);
        }
    }
    i >= an
}

/// The sequence is sorted by connection name.
pub open spec fn sorted_names(s: Seq<ConnectionConfig>) -> bool {
    forall|i: int| 0 <= i < s.len() - 1 ==> str_le(#[trigger] s[i].name@, s[i + 1].name@)
}

/// Some entry carries the given id.
pub open spec fn has_id(conns: Seq<ConnectionConfig>, id: Seq<char>) -> bool {
    exists|j: int| 0 <= j < conns.len() && #[trigger] conns[j].id@ == id
}

/// The saved connections, keyed by id, and the id last connected to.
#[derive(Debug)]
pub struct ConnectionManager {
    pub connections: Vec<ConnectionConfig>,
    pub last_used: Option<String>,
}

impl ConnectionManager {
    /// Ids are unique: the collection behaves as a map keyed by id.
    pub open spec fn wf(self) -> bool {
        forall|i: int, j: int|
            0 <= i < j < self.connections@.len() ==> (#[trigger] self.connections@[i].id@) != (
            #[trigger] self.connections@[j].id@)
    }

    /// An empty collection.
    pub fn new() -> (r: ConnectionManager)
        ensures
            r.wf(),
            r.connections@.len() == 0,
            r.last_used is None,
    {
        ConnectionManager { connections: Vec::new(), last_used: None }
    }

    /// The index of the entry with the given id, if any.
    fn find_index(&self, id: &String) -> (r: Option<usize>)
        ensures
            match r {
                Some(i) => i < self.connections@.len() && self.connections@[i as int].id@ == id@,
                None => !has_id(self.connections@, id@),
            },
    {
        let mut i: usize = 0;
        while i < self.connections.len()
            invariant
                i <= self.connections@.len(),
                forall|j: int| 0 <= j < i ==> (#[trigger] self.connections@[j].id@) != id@,
            decreases self.connections@.len() - i,
        {
            if self.connections[i].id == *id {
                return Some(i);
            }
            i = i + 1;
        }
        None
    }

    /// Store a connection: an entry with the same id is replaced, any other
    /// id is appended. (The binary persists the collection after every
    /// mutation.)
    pub fn add_connection(&mut self, config: ConnectionConfig)
        requires
            old(self).wf(),
        ensures
            final(self).wf(),
            final(self).last_used == old(self).last_used,
            has_id(old(self).connections@, config.id@) ==> exists|j: int|
                0 <= j < old(self).connections@.len() && (#[trigger] old(
                    self,
                ).connections@[j].id@) == config.id@ && final(self).connections@ == old(
                    self,
                ).connections@.update(j, config),
            !has_id(old(self).connections@, config.id@) ==> final(self).connections@ == old(
                self,
            ).connections@.push(config),
    {
        let found = self.find_index(&config.id);
        match found {
            Some(i) => {
                self.connections.remove(i);
                self.connections.insert(i, config);
                proof {
                    assert(self.connections@ =~= old(self).connections@.update(
                        i as int,
                        self.connections@[i as int],
                    ));
                }
            },
            None => {
                self.connections.push(config);
            },
        }
    }

    /// Remove the connection with the given id; clears `last_used` when it
    /// pointed at the removed entry. Returns whether anything was removed.
    pub fn remove_connection(&mut self, id: &str) -> (removed: bool)
        requires
            old(self).wf(),
        ensures
            final(self).wf(),
            removed == has_id(old(self).connections@, id@),
            !removed ==> *final(self) == *old(self),
            removed ==> exists|j: int|
                0 <= j < old(self).connections@.len() && (#[trigger] old(
                    self,
                ).connections@[j].id@) == id@ && final(self).connections@ == old(
                    self,
                ).connections@.remove(j),
            final(self).last_used == if old(self).last_used is Some && old(
                self,
            ).last_used->0@ == id@ && has_id(old(self).connections@, id@) {
                None::<String>
            } else {
                old(self).last_used
            },
    {
        let id_owned = id.to_owned();
        let found = self.find_index(&id_owned);
        match found {
            Some(i) => {
                self.connections.remove(i);
                let clear = match &self.last_used {
                    Some(last) => *last == id_owned,
                    None => false,
                };
                if clear {
                    self.last_used = None;
                }
                true
            },
            None => false,
        }
    }

    /// The saved connections, sorted by name. Entries that share a name
    /// keep no particular order among themselves.
    pub fn list_connections(&self) -> (r: Vec<ConnectionConfig>)
        ensures
            sorted_names(r@),
            r@.to_multiset() == self.connections@.to_multiset(),
    {
        let mut out: Vec<ConnectionConfig> = Vec::new();
        let mut i: usize = 0;
        proof {
            assert(self.connections@.subrange(0, 0) =~= Seq::<ConnectionConfig>::empty());
        }
        while i < self.connections.len()
            invariant
                i <= self.connections@.len(),
                sorted_names(out@),
                out@.to_multiset() == self.connections@.subrange(0, i as int).to_multiset(),
            decreases self.connections@.len() - i,
        {
            let item = self.connections[i].clone();
            insert_sorted(&mut out, item);
            proof {
                broadcast use vstd::seq_lib::to_multiset_build;

                assert(self.connections@.subrange(0, i as int + 1) =~= self.connections@.subrange(
                    0,
                    i as int,
                ).push(self.connections@[i as int]));
            }
            i = i + 1;
        }
        proof {
            assert(self.connections@.subrange(0, self.connections@.len() as int)
                =~= self.connections@);
        }
        out
    }

    /// Remember the id last connected to, if it names a saved connection.
    /// Returns whether anything changed.
    pub fn set_last_used(&mut self, id: &str) -> (set: bool)
        requires
            old(self).wf(),
        ensures
            final(self).wf(),
            final(self).connections == old(self).connections,
            set == has_id(old(self).connections@, id@),
            set ==> final(self).last_used is Some && final(self).last_used->0@ == id@,
            !set ==> final(self).last_used == old(self).last_used,
    {
        let id_owned = id.to_owned();
        let found = self.find_index(&id_owned);
        match found {
            Some(_) => {
                self.last_used = Some(id_owned);
                true
            },
            None => false,
        }
    }

    /// The connection last connected to, when it is still saved.
    pub fn get_last_used(&self) -> (r: Option<&ConnectionConfig>)
        ensures
            match r {
                Some(c) => self.last_used is Some && c.id@ == self.last_used->0@ && exists|j: int|
                    0 <= j < self.connections@.len() && #[trigger] self.connections@[j] == *c,
                None => self.last_used is None || !has_id(
                    self.connections@,
                    self.last_used->0@,
                ),
            },
    {
        match &self.last_used {
            Some(id) => {
                let found = self.find_index(id);
                match found {
                    Some(i) => Some(&self.connections[i]),
                    None => None,
                }
            },
            None => None,
        }
    }

    /// The implicit local root connection offered when running as root.
    pub fn create_root_connection() -> (r: ConnectionConfig)
        ensures
            r.id@.len() == 36,
            r.name@ == "Root (Local)"@,
            r.host@ == "localhost"@,
            r.port == 3306,
            r.username@ == "root"@,
            r.password@.len() == 0,
            r.default_database is None,
            r.use_ssl,
    {
        ConnectionConfig {
            id: fresh_id(),
            name: "Root (Local)".to_owned(),
            host: "localhost".to_owned(),
            port: 3306,
            username: "root".to_owned(),
            password: String::new(),
            default_database: None,
            use_ssl: true,
        }
    }
}

impl Default for ConnectionManager {
    /// The default collection is empty.
    fn default() -> (r: Self)
        ensures
            r.wf(),
            r.connections@.len() == 0,
            r.last_used is None,
    {
        ConnectionManager::new()
    }
}

/// Insert one record into a name-sorted vector, keeping it sorted.
fn insert_sorted(out: &mut Vec<ConnectionConfig>, x: ConnectionConfig)
    requires
        sorted_names(old(out)@),
    ensures
        sorted_names(final(out)@),
        final(out)@.to_multiset() == old(out)@.to_multiset().insert(x),
{
    let mut p: usize = 0;
    while p < out.len()
        invariant_except_break
            p <= out@.len(),
            out@ == old(out)@,
            forall|j: int| 0 <= j < p ==> str_le(#[trigger] out@[j].name@, x.name@),
        ensures
            p <= out@.len(),
            out@ == old(out)@,
            forall|j: int| 0 <= j < p ==> str_le(#[trigger] out@[j].name@, x.name@),
            p < out@.len() ==> str_le(x.name@, out@[p as int].name@),
        decreases out@.len() - p,
    {
        if str_le_exec(&x.name, &out[p].name) {
            break;
        }
        proof {
            str_le_total(x.name@, out@[p as int].name@);
        }
        p = p + 1;
    }
    out.insert(p, x);
    proof {
        broadcast use vstd::seq_lib::to_multiset_insert;

        let s = out@;
        let prev = old(out)@;
        assert forall|k: int| 0 <= k < s.len() - 1 implies str_le(
            #[trigger] s[k].name@,
            s[k + 1].name@,
        ) by {
            if k + 1 < p {
                assert(s[k] == prev[k] && s[k + 1] == prev[k + 1]);
            } else if k + 1 == p {
                assert(s[k] == prev[k] && s[k + 1] == x);
            } else if k == p {
                assert(s[k] == x && s[k + 1] == prev[k]);
            } else {
                assert(s[k] == prev[k - 1] && s[k + 1] == prev[k]);
            }
        }
    }
}

} // verus!
