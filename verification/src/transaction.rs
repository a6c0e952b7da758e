//! The owned-transaction facade: which statements a `begin` issues and in
//! which order, the Active/Committed/RolledBack lifecycle, and the
//! active-transaction gauge accounting.

use vstd::prelude::*;
use vstd::string::StringExecFns;
use crate::error::{Error, ErrorKind};

verus! {

/// The transaction isolation levels callers may request. PostgreSQL has no
/// Snapshot level; requesting it is rejected before any I/O.
#[derive(Debug, Clone, Copy, PartialEq, Eq, Structural)]
pub enum IsolationLevel {
    ReadUncommitted,
    ReadCommitted,
    RepeatableRead,
    Serializable,
    Snapshot,
}

/// How a transaction is to be opened: an optional isolation level, and
/// whether the isolation statement must precede the begin statement.
#[derive(Debug, Clone, Copy, PartialEq, Eq, Structural)]
pub struct TransactionOptions {
    pub isolation_level: Option<IsolationLevel>,
    pub isolation_first: bool,
}

/// The SQL name of an isolation level.
pub open spec fn spec_isolation_sql(l: IsolationLevel) -> Seq<char> {
    match l {
        IsolationLevel::ReadUncommitted => "READ UNCOMMITTED"@,
        IsolationLevel::ReadCommitted => "READ COMMITTED"@,
        IsolationLevel::RepeatableRead => "REPEATABLE READ"@,
        IsolationLevel::Serializable => "SERIALIZABLE"@,
        IsolationLevel::Snapshot => "SNAPSHOT"@,
    }
}

/// The statement that sets an isolation level.
pub open spec fn spec_isolation_stmt(l: IsolationLevel) -> Seq<char> {
    "SET TRANSACTION ISOLATION LEVEL "@ + spec_isolation_sql(l)
}

fn isolation_sql(level: IsolationLevel) -> (r: &'static str)
    ensures
        r@ == spec_isolation_sql(level),
{
    match level {
        IsolationLevel::ReadUncommitted => "READ UNCOMMITTED",
        IsolationLevel::ReadCommitted => "READ COMMITTED",
        IsolationLevel::RepeatableRead => "REPEATABLE READ",
        IsolationLevel::Serializable => "SERIALIZABLE",
        IsolationLevel::Snapshot => "SNAPSHOT",
    }
}

/// The statement that sets the given isolation level, or the error for the
/// one level PostgreSQL does not offer.
pub fn isolation_level_statement(level: IsolationLevel) -> (r: Result<String, Error>)
    ensures
        match r {
            Ok(s) => !(level is Snapshot) && s@ == spec_isolation_stmt(level),
            Err(e) => level is Snapshot && (e.kind matches ErrorKind::InvalidIsolationLevel(m)
                && m@ == "SNAPSHOT"@),
        },
{
    if let IsolationLevel::Snapshot = level {
        return Err(Error::new(ErrorKind::InvalidIsolationLevel("SNAPSHOT".to_owned())));
    }
    let mut s = "SET TRANSACTION ISOLATION LEVEL ".to_owned();
    s.append(isolation_sql(level));
    Ok(s)
}

/// The statements a successful `begin` issues, in order: the isolation
/// statement around the begin statement as the dialect demands, then the
/// pooler-mode deallocation inside the new transaction.
pub open spec fn spec_begin_statements(
    begin: Seq<char>,
    opts: TransactionOptions,
    pg_bouncer: bool,
) -> Seq<Seq<char>> {
    let core = match opts.isolation_level {
        None => seq![begin],
        Some(l) => if opts.isolation_first {
            seq![spec_isolation_stmt(l), begin]
        } else {
            seq![begin, spec_isolation_stmt(l)]
        },
    };
    if pg_bouncer {
        core.push("DEALLOCATE ALL"@)
    } else {
        core
    }
}

/// Plan the statements a `begin` issues. The first component is to be run
/// in order; when the second is an error, the statements before the
/// failure point have already been listed and the begin fails with it.
pub fn begin_statements(begin_stmt: &str, opts: &TransactionOptions, pg_bouncer: bool) -> (r: (
    Vec<String>,
    Option<Error>,
))
    ensures
        (opts.isolation_level matches Some(l) && l is Snapshot) ==> (r.1 matches Some(e) && (
        e.kind matches ErrorKind::InvalidIsolationLevel(m) && m@ == "SNAPSHOT"@) && (
        if opts.isolation_first {
            r.0.deep_view() == Seq::<Seq<char>>::empty()
        } else {
            r.0.deep_view() == seq![begin_stmt@]
        })),
        (match opts.isolation_level {
            Some(l) => !(l is Snapshot),
            None => true,
        }) ==> (r.1 is None && r.0.deep_view() == spec_begin_statements(
            begin_stmt@,
            *opts,
            pg_bouncer,
        )),
{
    let mut stmts: Vec<String> = Vec::new();
    if opts.isolation_first {
        if let Some(level) = opts.isolation_level {
            match isolation_level_statement(level) {
                Ok(s) => {
                    stmts.push(s);
                },
                Err(e) => {
                    proof {
                        assert(stmts.deep_view() =~= Seq::<Seq<char>>::empty());
                    }
                    return (stmts, Some(e));
                },
            }
        }
    }
    stmts.push(begin_stmt.to_owned());
    if !opts.isolation_first {
        if let Some(level) = opts.isolation_level {
            match isolation_level_statement(level) {
                Ok(s) => {
                    stmts.push(s);
                },
                Err(e) => {
                    proof {
                        assert(stmts.deep_view() =~= seq![begin_stmt@]);
                    }
                    return (stmts, Some(e));
                },
            }
        }
    }
    if pg_bouncer {
        stmts.push("DEALLOCATE ALL".to_owned());
    }
    proof {
        assert(stmts.deep_view() =~= spec_begin_statements(begin_stmt@, *opts, pg_bouncer));
    }
    (stmts, None)
}

/// The count after a transaction is opened.
pub open spec fn gauge_after_begin(c: int) -> int {
    c + 1
}

/// The count after a transaction is released, by commit or by rollback.
pub open spec fn gauge_after_release(c: int) -> int {
    if c > 0 {
        c - 1
    } else {
        0
    }
}

/// A begin followed by a single release returns the gauge to its prior
/// value.
pub proof fn lemma_gauge_round_trip(c: int)
    requires
        0 <= c < u64::MAX,
    ensures
        gauge_after_release(gauge_after_begin(c)) == c,
{
}

/// The model of the active-transaction gauge: how many transactions have
/// been opened and not yet released.
pub struct ActiveGauge {
    pub count: u64,
}

impl ActiveGauge {
    pub fn new() -> (r: ActiveGauge)
        ensures
            r.count == 0,
    {
        ActiveGauge { count: 0 }
    }

    /// Exactly one increment per successful begin.
    pub fn increment(&mut self)
        requires
            old(self).count < u64::MAX,
        ensures
            final(self).count == gauge_after_begin(old(self).count as int),
    {
        self.count = self.count + 1;
    }

    /// Exactly one decrement per commit or rollback.
    pub fn decrement(&mut self)
        ensures
            final(self).count == gauge_after_release(old(self).count as int),
    {
        if self.count > 0 {
            self.count = self.count - 1;
        }
    }
}

/// The lifecycle of an owned transaction.
#[derive(Debug, Clone, Copy, PartialEq, Eq, Structural)]
pub enum TxState {
    Active,
    Committed,
    RolledBack,
}

/// A transaction facade over a session. It is constructed only once the
/// begin statements have succeeded, which is when the gauge is
/// incremented; a failure during begin therefore never increments the
/// gauge. Releasing it, by commit or rollback, decrements the gauge
/// exactly once, before the closing statement is issued.
pub struct OwnedTransaction {
    pub state: TxState,
}

impl OwnedTransaction {
    /// Open the facade after a successful begin, incrementing the gauge as
    /// the final step.
    pub fn new(gauge: &mut ActiveGauge) -> (t: OwnedTransaction)
        requires
            old(gauge).count < u64::MAX,
        ensures
            t.state is Active,
            final(gauge).count == gauge_after_begin(old(gauge).count as int),
    {
        gauge.increment();
        OwnedTransaction { state: TxState::Active }
    }

    /// Commit: decrement the gauge, close the lifecycle, and hand back the
    /// statement to issue on the session.
    pub fn commit(&mut self, gauge: &mut ActiveGauge) -> (cmd: &'static str)
        requires
            old(self).state is Active,
        ensures
            final(self).state is Committed,
            final(gauge).count == gauge_after_release(old(gauge).count as int),
            cmd@ == "COMMIT"@,
    {
        gauge.decrement();
        self.state = TxState::Committed;
        "COMMIT"
    }

    /// Roll back: decrement the gauge, close the lifecycle, and hand back
    /// the statement to issue on the session.
    pub fn rollback(&mut self, gauge: &mut ActiveGauge) -> (cmd: &'static str)
        requires
            old(self).state is Active,
        ensures
            final(self).state is RolledBack,
            final(gauge).count == gauge_after_release(old(gauge).count as int),
            cmd@ == "ROLLBACK"@,
    {
        gauge.decrement();
        self.state = TxState::RolledBack;
        "ROLLBACK"
    }
}

} // verus!
