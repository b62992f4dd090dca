//! The datastore seen from the core: which store is open, the failures a
//! command reports, and the checks made before the generic table browser
//! touches the store.

use vstd::prelude::*;
use vstd::string::*;
use crate::text::{joined, same_text};

verus! {

/// How a command fails.
#[derive(Debug, Clone)]
pub enum DbError {
    /// No datastore has been chosen yet.
    NotConfigured,
    /// The task, note, run or store file asked for does not exist.
    NotFound(String),
    /// A table or field name was refused before any query ran.
    Validation(String),
    /// The store reported a failure; its message is kept as it was.
    Storage(String),
}

impl DbError {
    /// The text shown to the user.
    pub fn message(&self) -> (r: String)
        ensures
            self matches DbError::NotConfigured ==> r@ == "DB가 설정되지 않았습니다."@,
            self matches DbError::NotFound(m) ==> r@ == m@,
            self matches DbError::Validation(m) ==> r@ == m@,
            self matches DbError::Storage(m) ==> r@ == m@,
    {
        match self {
            DbError::NotConfigured => String::from_str("DB가 설정되지 않았습니다."),
            DbError::NotFound(m) => m.clone(),
            DbError::Validation(m) => m.clone(),
            DbError::Storage(m) => m.clone(),
        }
    }
}

/// The store chosen in this process, if any.
#[derive(Debug, Clone)]
pub struct DbState {
    pub db_path: Option<String>,
}

impl Default for DbState {
    fn default() -> (r: Self)
        ensures
            r.db_path is None,
    {
        DbState { db_path: None }
    }
}

impl DbState {
    /// The store to open: the one chosen in this process, else the one the
    /// configuration file names, else `NotConfigured`.
    pub fn resolve_path(&self, configured: Option<String>) -> (r: Result<String, DbError>)
        ensures
            r matches Ok(q) ==> Some(q@) == match self.db_path {
                Some(p) => Some(p@),
                None => match configured {
                    Some(p) => Some(p@),
                    None => None,
                },
            },
            r is Err <==> (self.db_path is None && configured is None),
            r matches Err(e) ==> e matches DbError::NotConfigured,
    {
        match &self.db_path {
            Some(p) => Ok(p.clone()),
            None => match configured {
                Some(p) => Ok(p),
                None => Err(DbError::NotConfigured),
            },
        }
    }
}

/// What `char::is_alphanumeric` says of a character.
pub uninterp spec fn alphanumeric(c: char) -> bool;

/// Relies on `char::is_alphanumeric`: whether the character is alphabetic or
/// numeric in Unicode's terms; ASCII letters and digits are, other ASCII
/// characters are not.
#[verifier::external_body]
fn is_alphanumeric(c: char) -> (r: bool)
    ensures
        r == alphanumeric(c),
        ('a' <= c <= 'z' || 'A' <= c <= 'Z' || '0' <= c <= '9') ==> r,
        (c as u32) < 128 && !('a' <= c <= 'z' || 'A' <= c <= 'Z' || '0' <= c <= '9') ==> !r,
{
    c.is_alphanumeric()
}

/// Whether a name may reach the table browser: it starts with `tbl_` and
/// holds only alphanumeric characters and `_`.
pub open spec fn valid_table_name(n: Seq<char>) -> bool {
    &&& n.len() >= 4
    &&& n.take(4) == "tbl_"@
    &&& forall|i: int| 0 <= i < n.len() ==> alphanumeric(#[trigger] n[i]) || n[i] == '_'
}

/// Checks a table name against `valid_table_name`.
pub fn is_valid_table_name(name: &str) -> (r: bool)
    ensures
        r == valid_table_name(name@),
{
    let n = name.unicode_len();
    if n < 4 || !same_text(name.substring_char(0, 4), "tbl_") {
        return false;
    }
    let mut i: usize = 0;
    while i < n
        invariant
            0 <= i <= n,
            n == name@.len(),
            forall|j: int| 0 <= j < i ==> alphanumeric(#[trigger] name@[j]) || name@[j] == '_',
        decreases n - i,
    {
        let c = name.get_char(i);
        if !(is_alphanumeric(c) || c == '_') {
            return false;
        }
        i = i + 1;
    }
    true
}

/// Rows the table browser returns when the caller names no limit.
pub const DEFAULT_ROW_LIMIT: i64 = 100;

/// A read of the table browser: the statement, with the limit and the offset
/// as its two parameters.
pub struct TableQuery {
    pub sql: String,
    pub limit: i64,
    pub offset: i64,
}

/// Plans a read of the table browser. A name that `valid_table_name` refuses
/// gives a validation error before any query; otherwise at most `limit` rows
/// (100 by default) from `offset` (0 by default).
pub fn plan_table_query(table_name: &str, limit: Option<i64>, offset: Option<i64>) -> (r: Result<
    TableQuery,
    DbError,
>)
    ensures
        !valid_table_name(table_name@) <==> r is Err,
        r matches Err(e) ==> e matches DbError::Validation(m) && m@ == "유효하지 않은 테이블명입니다."@,
        r matches Ok(q) ==> q.sql@ == "SELECT * FROM "@ + table_name@ + " LIMIT ?1 OFFSET ?2"@
            && q.limit == match limit {
            Some(l) => l,
            None => DEFAULT_ROW_LIMIT,
        } && q.offset == match offset {
            Some(o) => o,
            None => 0,
        },
{
    if !is_valid_table_name(table_name) {
        return Err(DbError::Validation(String::from_str("유효하지 않은 테이블명입니다.")));
    }
    let a = joined("SELECT * FROM ", table_name);
    let sql = joined(a.as_str(), " LIMIT ?1 OFFSET ?2");
    let limit = match limit {
        Some(l) => l,
        None => DEFAULT_ROW_LIMIT,
    };
    let offset = match offset {
        Some(o) => o,
        None => 0,
    };
    Ok(TableQuery { sql, limit, offset })
}

} // verus!
