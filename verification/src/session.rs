//! The verified core of a session: its plain state (pooler flag, socket
//! timeout, liveness, statement cache), the validations every query
//! operation runs before touching the network, and the exact strings of
//! the session-initialization batch.

use vstd::prelude::*;
use vstd::string::StringExecFns;
use crate::cache::StatementCache;
use crate::connection_url::PostgresUrl;
use crate::error::{Error, ErrorKind};
use crate::text::{dec_str, u64_to_string};

verus! {

/// Upper bound on the number of bind parameters a single PostgreSQL
/// prepared statement may carry.
pub const MAX_BIND_PARAMETERS: usize = 32767;

/// The message rejecting an over-long parameter list.
pub open spec fn spec_bind_limit_message(n: int) -> Seq<char> {
    "too many bind variables in prepared statement, expected maximum of "@ + dec_str(32767)
        + ", received "@ + dec_str(n)
}

/// The session-initialization clause that sets the search path: the schema
/// name between double quotes, verbatim. The caller is expected to supply
/// a valid identifier; embedded quotes are not escaped.
pub open spec fn spec_set_search_path(schema: Option<Seq<char>>) -> Seq<char> {
    match schema {
        Some(s) => "SET search_path = \""@ + s + "\";\n"@,
        None => Seq::<char>::empty(),
    }
}

/// The whole session-initialization batch: the optional search-path
/// clause, then the client-encoding statement.
pub open spec fn spec_session_initialization(schema: Option<Seq<char>>) -> Seq<char> {
    "\n            "@ + spec_set_search_path(schema)
        + "\n            SET NAMES 'UTF8';\n            "@
}

/// Render the search-path clause.
pub fn set_search_path_clause(schema: Option<&str>) -> (r: String)
    ensures
        r@ == spec_set_search_path(
            match schema {
                Some(s) => Some(s@),
                None => None,
            },
        ),
{
    match schema {
        Some(s) => {
            let mut out = "SET search_path = \"".to_owned();
            out.append(s);
            out.append("\";\n");
            out
        },
        None => String::new(),
    }
}

/// Render the session-initialization batch issued right after connecting.
pub fn session_initialization(schema: Option<&str>) -> (r: String)
    ensures
        r@ == spec_session_initialization(
            match schema {
                Some(s) => Some(s@),
                None => None,
            },
        ),
{
    let mut out = "\n            ".to_owned();
    let clause = set_search_path_clause(schema);
    out.append(clause.as_str());
    out.append("\n            SET NAMES 'UTF8';\n            ");
    out
}

/// The verified state of a live session. The protocol client itself is
/// I/O and lives with the caller; everything the session decides with is
/// here.
pub struct PostgreSql {
    pub pg_bouncer: bool,
    pub socket_timeout: Option<u64>,
    pub is_healthy: bool,
    pub statement_cache: StatementCache,
}

impl PostgreSql {
    /// The session state a freshly connected session starts from: healthy,
    /// with a fresh statement cache sized by the URL.
    pub fn new(url: &PostgresUrl) -> (s: PostgreSql)
        ensures
            s.pg_bouncer == url.query_params.pg_bouncer,
            s.socket_timeout == url.query_params.socket_timeout,
            s.is_healthy,
            s.statement_cache@.capacity == url.spec_cache_capacity(),
            s.statement_cache@.entries.len() == 0,
            s.statement_cache.wf(),
    {
        PostgreSql {
            pg_bouncer: url.pg_bouncer(),
            socket_timeout: url.socket_timeout(),
            is_healthy: true,
            statement_cache: url.cache(),
        }
    }

    /// Whether the session has seen its connection close underneath it.
    pub fn is_healthy(&self) -> (r: bool)
        ensures
            r == self.is_healthy,
    {
        self.is_healthy
    }

    /// Record the outcome of an I/O operation: a connection-closed error
    /// makes the session terminally unhealthy; nothing else changes it.
    pub fn record_io_result(&mut self, connection_closed: bool)
        ensures
            final(self).is_healthy == (old(self).is_healthy && !connection_closed),
            final(self).pg_bouncer == old(self).pg_bouncer,
            final(self).socket_timeout == old(self).socket_timeout,
            final(self).statement_cache == old(self).statement_cache,
    {
        if connection_closed {
            self.is_healthy = false;
        }
    }

    /// Reject a parameter list over the PostgreSQL bind limit before any
    /// I/O happens.
    pub fn check_bind_variables_len(&self, params_len: usize) -> (r: Result<(), Error>)
        ensures
            match r {
                Ok(_) => params_len <= MAX_BIND_PARAMETERS,
                Err(e) => params_len > MAX_BIND_PARAMETERS && (e.kind matches
                    ErrorKind::QueryInvalidInput(m) && m@ == spec_bind_limit_message(
                    params_len as int,
                )),
            },
    {
        if params_len > MAX_BIND_PARAMETERS {
            let mut m = "too many bind variables in prepared statement, expected maximum of "
                .to_owned();
            let limit = u64_to_string(32767);
            m.append(limit.as_str());
            m.append(", received ");
            let got = u64_to_string(params_len as u64);
            m.append(got.as_str());
            Err(Error::new(ErrorKind::QueryInvalidInput(m)))
        } else {
            Ok(())
        }
    }

    /// A prepared statement must be invoked with exactly the number of
    /// parameters it was prepared with.
    pub fn verify_parameter_count(&self, expected: usize, actual: usize) -> (r: Result<(), Error>)
        ensures
            match r {
                Ok(_) => expected == actual,
                Err(e) => expected != actual && (e.kind matches
                    ErrorKind::IncorrectNumberOfParameters { expected: x, actual: y } && x
                    == expected && y == actual),
            },
    {
        if expected != actual {
            Err(Error::new(ErrorKind::IncorrectNumberOfParameters { expected, actual }))
        } else {
            Ok(())
        }
    }

    /// The statement a pool reset runs inside a fresh transaction: pooler
    /// mode deallocates every named prepared statement; otherwise nothing
    /// is to be done.
    pub fn server_reset_command(&self) -> (r: Option<&'static str>)
        ensures
            match r {
                Some(c) => self.pg_bouncer && c@ == "DEALLOCATE ALL"@,
                None => !self.pg_bouncer,
            },
    {
        if self.pg_bouncer {
            Some("DEALLOCATE ALL")
        } else {
            None
        }
    }

    /// PostgreSQL accepts the isolation statement after `BEGIN`.
    pub fn requires_isolation_first(&self) -> (r: bool)
        ensures
            !r,
    {
        false
    }
}

} // verus!
