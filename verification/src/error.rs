use vstd::prelude::*;
use crate::text::{first_quoted, spec_first_quoted, str_eq};

verus! {

/// The error categories the connector distinguishes.
///
/// `original_code` and `original_message` of the surrounding [`Error`] keep
/// whatever the server reported, so no information is lost by the mapping.
#[derive(Debug, Clone, PartialEq, Eq)]
pub enum ErrorKind {
    /// A connection-string parameter had a malformed value.
    InvalidConnectionArguments,
    /// Certificate or identity material could not be resolved.
    TlsError { message: String },
    /// Establishing the session took longer than the configured bound.
    ConnectTimeout,
    /// A single I/O operation took longer than the configured bound.
    SocketTimeout,
    /// The peer closed the connection underneath an in-flight operation.
    ConnectionClosed,
    /// The query was rejected before any I/O, with a human-readable detail.
    QueryInvalidInput(String),
    /// A prepared statement was invoked with the wrong number of arguments.
    IncorrectNumberOfParameters { expected: usize, actual: usize },
    /// The server reported that the requested database does not exist.
    DatabaseDoesNotExist { db_name: String },
    /// The server rejected the credentials for the named user.
    AuthenticationFailed { user: String },
    /// The caller requested an isolation level the server does not offer.
    InvalidIsolationLevel(String),
}

/// An error of the connector, together with the server's own code and
/// message when the error originated server-side.
#[derive(Debug, Clone, PartialEq, Eq)]
pub struct Error {
    pub kind: ErrorKind,
    pub original_code: Option<String>,
    pub original_message: Option<String>,
}

impl Error {
    /// An error that did not originate from a server report.
    pub fn new(kind: ErrorKind) -> (r: Error)
        ensures
            r.kind == kind,
            r.original_code is None,
            r.original_message is None,
    {
        Error { kind, original_code: None, original_message: None }
    }

    /// An error mapped from a server report, keeping the raw code and message.
    pub fn with_server_details(kind: ErrorKind, code: String, message: String) -> (r: Error)
        ensures
            r.kind == kind,
            r.original_code matches Some(c) && c@ == code@,
            r.original_message matches Some(m) && m@ == message@,
    {
        Error { kind, original_code: Some(code), original_message: Some(message) }
    }

    pub fn kind(&self) -> (r: &ErrorKind)
        ensures
            r == &self.kind,
    {
        &self.kind
    }

    pub fn original_code(&self) -> (r: Option<&str>)
        ensures
            match r {
                Some(c) => self.original_code matches Some(oc) && oc@ == c@,
                None => self.original_code is None,
            },
    {
        match &self.original_code {
            Some(c) => Some(c.as_str()),
            None => None,
        }
    }

    pub fn original_message(&self) -> (r: Option<&str>)
        ensures
            match r {
                Some(m) => self.original_message matches Some(om) && om@ == m@,
                None => self.original_message is None,
            },
    {
        match &self.original_message {
            Some(m) => Some(m.as_str()),
            None => None,
        }
    }
}

/// The object a server message names: the contents of its first
/// double-quoted segment, or empty when the message quotes nothing.
pub open spec fn spec_quoted_name(message: Seq<char>) -> Seq<char> {
    match spec_first_quoted(message) {
        Some(q) => q,
        None => Seq::<char>::empty(),
    }
}

fn quoted_name(message: &str) -> (r: String)
    ensures
        r@ == spec_quoted_name(message@),
{
    match first_quoted(message) {
        Some(q) => q,
        None => String::new(),
    }
}

/// Map a server-reported SQLSTATE onto the error kinds the connector
/// distinguishes: a missing database and failed authentication, with the
/// database or user name read from the quoted part of the server message.
/// Every other code is left for the caller to surface as it came.
pub fn map_sqlstate(code: &str, message: &str) -> (r: Option<ErrorKind>)
    ensures
        code@ == "3D000"@ ==> (r matches Some(k) && (k matches ErrorKind::DatabaseDoesNotExist {
            db_name } && db_name@ == spec_quoted_name(message@))),
        code@ == "28P01"@ || code@ == "28000"@ ==> (r matches Some(k) && (k matches
            ErrorKind::AuthenticationFailed { user } && user@ == spec_quoted_name(message@))),
        code@ != "3D000"@ && code@ != "28P01"@ && code@ != "28000"@ ==> r is None,
{
    proof {
        reveal_strlit("3D000");
        reveal_strlit("28P01");
        reveal_strlit("28000");
        assert("3D000"@[0] != "28P01"@[0]);
        assert("3D000"@[0] != "28000"@[0]);
        assert("3D000"@ != "28P01"@);
        assert("3D000"@ != "28000"@);
    }
    if str_eq(code, "3D000") {
        Some(ErrorKind::DatabaseDoesNotExist { db_name: quoted_name(message) })
    } else if str_eq(code, "28P01") || str_eq(code, "28000") {
        Some(ErrorKind::AuthenticationFailed { user: quoted_name(message) })
    } else {
        None
    }
}

} // verus!
