//! The decisions of the query layer: which statements return a result set,
//! what the result messages say, and how raw cell bytes fall back to text.
//! The wire protocol itself lives in the binary; it hands this module plain
//! values and takes plain values back.

use vstd::prelude::*;
use vstd::string::StringExecFns;
use vstd::utf8::{decode_utf8, valid_utf8};

use crate::numfmt;
use crate::numfmt::dec_rep;
use crate::strops;
use crate::strops::{seq_starts_with, trim_of, upper_of};

verus! {

/// Whether a statement is query-like: after trimming and upper-casing it
/// starts with `SELECT`, `SHOW`, `DESCRIBE` or `EXPLAIN`. Such statements
/// return columns and rows; all others report an affected-row count.
pub open spec fn is_query_stmt(sql: Seq<char>) -> bool {
    let u = upper_of(trim_of(sql));
    ||| seq_starts_with(u, "SELECT"@)
    ||| seq_starts_with(u, "SHOW"@)
    ||| seq_starts_with(u, "DESCRIBE"@)
    ||| seq_starts_with(u, "EXPLAIN"@)
}

/// Classify a statement: `true` exactly when it is query-like and its
/// execution carries columns and rows.
pub fn is_query_statement(sql: &String) -> (r: bool)
    ensures
        r == is_query_stmt(sql@),
{
    let trimmed = strops::trim(sql.as_str());
    let upper = strops::to_uppercase(trimmed);
    strops::starts_with(upper.as_str(), "SELECT") || strops::starts_with(upper.as_str(), "SHOW")
        || strops::starts_with(upper.as_str(), "DESCRIBE") || strops::starts_with(
        upper.as_str(),
        "EXPLAIN",
    )
}

/// The message of a successful query-like statement that returned `n` rows.
pub open spec fn rows_returned_message_of(n: nat) -> Seq<char> {
    "Query executed successfully. "@ + dec_rep(n) + " rows returned."@
}

/// Build the message for a query-like statement that returned `n` rows.
pub fn rows_returned_message(n: usize) -> (r: String)
    ensures
        r@ == rows_returned_message_of(n as nat),
{
    let mut out = "Query executed successfully. ".to_owned();
    numfmt::push_decimal(&mut out, n as u64);
    out.append(" rows returned.");
    proof {
        assert(out@ =~= rows_returned_message_of(n as nat));
    }
    out
}

/// The message of a successful non-query statement that affected `n` rows.
pub open spec fn rows_affected_message_of(n: nat) -> Seq<char> {
    "Query executed successfully. "@ + dec_rep(n) + " rows affected."@
}

/// Build the message for a non-query statement that affected `n` rows.
pub fn rows_affected_message(n: u64) -> (r: String)
    ensures
        r@ == rows_affected_message_of(n as nat),
{
    let mut out = "Query executed successfully. ".to_owned();
    numfmt::push_decimal(&mut out, n);
    out.append(" rows affected.");
    proof {
        assert(out@ =~= rows_affected_message_of(n as nat));
    }
    out
}

/// What one cell displays when the driver could not hand it over as text:
/// decoded bytes when they are valid UTF-8, the `(binary data)` marker when
/// they are not, and the `NULL` literal when there is no value at all.
pub open spec fn cell_fallback_of(bytes: Option<Seq<u8>>) -> Seq<char> {
    match bytes {
        Some(b) => if valid_utf8(b) {
            decode_utf8(b)
        } else {
            "(binary data)"@
        },
        None => "NULL"@,
    }
}

/// Turn a raw cell into its display text; see `cell_fallback_of`.
pub fn cell_fallback(bytes: Option<Vec<u8>>) -> (r: String)
    ensures
        r@ == cell_fallback_of(match bytes {
            Some(b) => Some(b@),
            None => None,
        }),
{
    match bytes {
        Some(b) => {
            let ghost bv = b@;
            match strops::utf8_to_string(b) {
                Some(s) => s,
                None => "(binary data)".to_owned(),
            }
        },
        None => "NULL".to_owned(),
    }
}

/// Whether a schema is server-internal and kept out of the catalogue view.
pub open spec fn is_system_schema(name: Seq<char>) -> bool {
    name == "information_schema"@ || name == "performance_schema"@ || name == "sys"@
}

/// Drop the server-internal schemas from an enumeration, keeping the order
/// of the rest.
#[verifier::loop_isolation(false)]
pub fn filter_user_databases(databases: Vec<String>) -> (r: Vec<String>)
    ensures
        r.deep_view() == databases.deep_view().filter(
            |name: Seq<char>| !is_system_schema(name),
        ),
{
    let ghost pred = |name: Seq<char>| !is_system_schema(name);
    let mut out: Vec<String> = Vec::new();
    let mut i: usize = 0;
    proof {
        reveal(Seq::filter);
        assert(databases.deep_view().subrange(0, 0).filter(pred) =~= Seq::<Seq<char>>::empty());
    }
    while i < databases.len()
        invariant
            i <= databases@.len(),
            out.deep_view() == databases.deep_view().subrange(0, i as int).filter(pred),
        decreases databases@.len() - i,
    {
        proof {
            reveal(Seq::filter);
            assert(databases.deep_view().subrange(0, i as int + 1).drop_last()
                =~= databases.deep_view().subrange(0, i as int));
            assert(databases.deep_view()[i as int] == databases@[i as int]@);
        }
        let ghost pre = out.deep_view();
        let ghost prev = out@;
        let info_schema = "information_schema".to_owned();
        let perf_schema = "performance_schema".to_owned();
        let sys_schema = "sys".to_owned();
        let is_sys = databases[i] == info_schema || databases[i] == perf_schema || databases[i]
            == sys_schema;
        if !is_sys {
            let item = databases[i].clone();
            out.push(item);
            proof {
                assert forall|k: int| 0 <= k < out@.len() implies out.deep_view()[k] == pre.push(
                    databases.deep_view()[i as int],
                )[k] by {
                    assert(out.deep_view()[k] == out@[k]@);
                    if k < prev.len() {
                        assert(out@[k] == prev[k]);
                        assert(pre[k] == prev[k]@);
                    } else {
                        assert(out@[k] == databases@[i as int]);
                    }
                }
                assert(out.deep_view() =~= pre.push(databases.deep_view()[i as int]));
                assert(out.deep_view() =~= databases.deep_view().subrange(0, i as int + 1).filter(
                    pred,
                ));
            }
        } else {
            proof {
                assert(out.deep_view() =~= databases.deep_view().subrange(0, i as int + 1).filter(
                    pred,
                ));
            }
        }
        i = i + 1;
    }
    proof {
        assert(databases.deep_view().subrange(0, databases.deep_view().len() as int)
            =~= databases.deep_view());
    }
    out
}

/// The statement that switches the session to a database, with the
/// identifier quoted in backticks.
pub fn use_statement(database: &String) -> (r: String)
    ensures
        r@ == "USE `"@ + database@ + "`"@,
{
    let mut out = "USE `".to_owned();
    out.append(database.as_str());
    out.append("`");
    proof {
        assert(out@ =~= "USE `"@ + database@ + "`"@);
    }
    out
}

/// The statement that lists a table's columns.
pub fn describe_statement(table: &String) -> (r: String)
    ensures
        r@ == "DESCRIBE `"@ + table@ + "`"@,
{
    let mut out = "DESCRIBE `".to_owned();
    out.append(table.as_str());
    out.append("`");
    proof {
        assert(out@ =~= "DESCRIBE `"@ + table@ + "`"@);
    }
    out
}

/// The statement that fetches the bounded row prefix shown in the data
/// view: the first 100 rows of the table.
pub fn row_prefix_statement(table: &String) -> (r: String)
    ensures
        r@ == "SELECT * FROM `"@ + table@ + "` LIMIT 100"@,
{
    let mut out = "SELECT * FROM `".to_owned();
    out.append(table.as_str());
    out.append("` LIMIT 100");
    proof {
        assert(out@ =~= "SELECT * FROM `"@ + table@ + "` LIMIT 100"@);
    }
    out
}

/// The display label of a column: the name with the type in parentheses.
pub fn column_label(field: &String, type_info: &String) -> (r: String)
    ensures
        r@ == field@ + " ("@ + type_info@ + ")"@,
{
    let mut out = field.clone();
    out.append(" (");
    out.append(type_info.as_str());
    out.append(")");
    proof {
        assert(out@ =~= field@ + " ("@ + type_info@ + ")"@);
    }
    out
}

/// The fallback column name for result sets whose driver metadata names no
/// column: `Column_` and the index.
pub open spec fn fallback_column_name_of(i: nat) -> Seq<char> {
    "Column_"@ + dec_rep(i)
}

/// Build the fallback column name for column `i`.
pub fn fallback_column_name(i: usize) -> (r: String)
    ensures
        r@ == fallback_column_name_of(i as nat),
{
    let mut out = "Column_".to_owned();
    numfmt::push_decimal(&mut out, i as u64);
    out
}

} // verus!
