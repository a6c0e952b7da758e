//! Query results as plain values: rows in arrival order under the
//! statement's column names, plus the derived readers the session offers.

use vstd::prelude::*;
use crate::error::Error;
use crate::text::str_eq;

verus! {

/// A single result or parameter value, as the plain data the connector
/// reasons about.
#[derive(Debug, PartialEq, Eq)]
pub enum Value {
    Null,
    Boolean(bool),
    Int32(i32),
    Int64(i64),
    Text(String),
    Bytes(Vec<u8>),
}

impl Value {
    /// The text carried by a `Text` value.
    pub fn as_text(&self) -> (r: Option<String>)
        ensures
            match r {
                Some(t) => self matches Value::Text(s) && t@ == s@,
                None => !(self is Text),
            },
    {
        match self {
            Value::Text(s) => Some(s.clone()),
            _ => None,
        }
    }
}

/// The result of a query: the statement's column names and the decoded
/// rows in arrival order.
pub struct ResultSet {
    pub columns: Vec<String>,
    pub rows: Vec<Vec<Value>>,
}

/// The position of the first column named `name` at or after `i`.
pub open spec fn col_index_from(cols: Seq<Seq<char>>, name: Seq<char>, i: int) -> Option<int>
    decreases cols.len() - i,
{
    if i < 0 || i >= cols.len() {
        None
    } else if cols[i] == name {
        Some(i)
    } else {
        col_index_from(cols, name, i + 1)
    }
}

impl ResultSet {
    pub fn new(columns: Vec<String>, rows: Vec<Vec<Value>>) -> (r: ResultSet)
        ensures
            r.columns == columns,
            r.rows == rows,
    {
        ResultSet { columns, rows }
    }

    /// How many rows arrived.
    pub fn len(&self) -> (r: usize)
        ensures
            r == self.rows@.len(),
    {
        self.rows.len()
    }

    /// The row at `i`, in arrival order.
    pub fn get(&self, i: usize) -> (r: Option<&Vec<Value>>)
        ensures
            match r {
                Some(row) => i < self.rows@.len() && row == &self.rows@[i as int],
                None => i >= self.rows@.len(),
            },
    {
        if i < self.rows.len() {
            Some(&self.rows[i])
        } else {
            None
        }
    }

    /// The position of the first column with the given name.
    pub fn column_index(&self, name: &str) -> (r: Option<usize>)
        ensures
            match r {
                Some(i) => col_index_from(self.columns.deep_view(), name@, 0) == Some(i as int),
                None => col_index_from(self.columns.deep_view(), name@, 0) is None,
            },
    {
        let mut i: usize = 0;
        let n = self.columns.len();
        while i < n
            invariant
                0 <= i <= n,
                n == self.columns@.len(),
                col_index_from(self.columns.deep_view(), name@, 0) == col_index_from(
                    self.columns.deep_view(),
                    name@,
                    i as int,
                ),
            decreases n - i,
        {
            if str_eq(self.columns[i].as_str(), name) {
                return Some(i);
            }
            i = i + 1;
        }
        None
    }
}

/// What `version()` reads from its result set: the `version` column of the
/// first row, when it is there and textual.
pub open spec fn spec_version_of(rs: &ResultSet) -> Option<Seq<char>> {
    match col_index_from(rs.columns.deep_view(), "version"@, 0) {
        None => None,
        Some(c) => if rs.rows@.len() > 0 && 0 <= c < rs.rows@[0]@.len() {
            match rs.rows@[0]@[c] {
                Value::Text(s) => Some(s@),
                _ => None,
            }
        } else {
            None
        },
    }
}

/// Extract the server version string from the result of `SELECT
/// version()`.
pub fn version_from(rs: &ResultSet) -> (r: Option<String>)
    ensures
        match r {
            Some(v) => spec_version_of(rs) == Some(v@),
            None => spec_version_of(rs) is None,
        },
{
    match rs.column_index("version") {
        None => None,
        Some(c) => {
            if rs.rows.len() > 0 {
                let row = &rs.rows[0];
                if c < row.len() {
                    row[c].as_text()
                } else {
                    None
                }
            } else {
                None
            }
        },
    }
}

/// The position of the first row that failed to decode, at or after `i`.
pub open spec fn err_index_from(s: Seq<Result<Vec<Value>, Error>>, i: int) -> Option<int>
    decreases s.len() - i,
{
    if i < 0 || i >= s.len() {
        None
    } else if s[i] is Err {
        Some(i)
    } else {
        err_index_from(s, i + 1)
    }
}

/// Keep the decoded rows when every one decoded, or surface the first
/// decoding error, as query assembly demands.
pub fn collect_rows(decoded: Vec<Result<Vec<Value>, Error>>) -> (r: Result<Vec<Vec<Value>>, Error>)
    ensures
        match r {
            Ok(rows) => err_index_from(decoded@, 0) is None && rows@.len() == decoded@.len() && (
            forall|i: int|
                0 <= i < decoded@.len() ==> ((#[trigger] decoded@[i]) matches Ok(row) && rows@[i]
                    == row)),
            Err(e) => err_index_from(decoded@, 0) matches Some(i) && (decoded@[i] matches Err(e2)
                && e == e2),
        },
{
    let ghost orig = decoded@;
    let mut rest = decoded;
    let mut rows: Vec<Vec<Value>> = Vec::new();
    while rest.len() > 0
        invariant
            orig == decoded@,
            rows@.len() + rest@.len() == orig.len(),
            rest@ == orig.skip(rows@.len() as int),
            err_index_from(orig, 0) == err_index_from(orig, rows@.len() as int),
            forall|i: int|
                0 <= i < rows@.len() ==> ((#[trigger] orig[i]) matches Ok(row) && rows@[i] == row),
        decreases rest@.len(),
    {
        let ghost k = rows@.len() as int;
        proof {
            assert(rest@[0] == orig[k]);
            assert(rest@.skip(1) =~= orig.skip(k + 1));
        }
        let head = rest.remove(0);
        proof {
            assert(rest@ =~= orig.skip(k + 1));
        }
        match head {
            Ok(row) => {
                rows.push(row);
            },
            Err(e) => {
                proof {
                    assert(err_index_from(orig, 0) == Some(k));
                }
                return Err(e);
            },
        }
    }
    proof {
        assert(err_index_from(orig, rows@.len() as int) is None);
    }
    Ok(rows)
}

} // verus!
