//! The connection-option surface: typed query parameters, their defaults,
//! and the verified parser that folds a URL's query pairs into a
//! configuration record.

use vstd::prelude::*;
use crate::error::{Error, ErrorKind};
use crate::text::{all_digits, numeric_part, parse_number_u64, parse_number_usize, str_eq, str_to_nat};

verus! {

/// Whether TLS is disabled, opportunistic, or mandatory.
#[derive(Debug, Clone, Copy, PartialEq, Eq, Structural)]
pub enum SslMode {
    Disable,
    Prefer,
    Require,
}

/// Whether the server certificate must validate, or invalid certificates
/// are accepted.
#[derive(Debug, Clone, Copy, PartialEq, Eq, Structural)]
pub enum SslAcceptMode {
    Strict,
    AcceptInvalidCerts,
}

/// Whether SCRAM channel binding is disabled, opportunistic, or mandatory.
#[derive(Debug, Clone, Copy, PartialEq, Eq, Structural)]
pub enum ChannelBinding {
    Disable,
    Prefer,
    Require,
}

/// The TLS subsection of the connection options.
///
/// `identity_password` is a secret; this type deliberately has no debug
/// rendering, so the secret cannot leak through one.
#[derive(Clone)]
pub struct SslParams {
    pub certificate_file: Option<String>,
    pub identity_file: Option<String>,
    pub identity_password: Option<String>,
    pub ssl_accept_mode: SslAcceptMode,
}

/// The full option record parsed from a connection URL's query string.
/// All durations are in seconds.
#[derive(Clone)]
pub struct PostgresUrlQueryParams {
    pub ssl_params: SslParams,
    pub connection_limit: Option<usize>,
    pub schema: Option<String>,
    pub ssl_mode: SslMode,
    pub pg_bouncer: bool,
    pub host: Option<String>,
    pub socket_timeout: Option<u64>,
    pub connect_timeout: Option<u64>,
    pub pool_timeout: Option<u64>,
    pub statement_cache_size: usize,
    pub max_connection_lifetime: Option<u64>,
    pub max_idle_connection_lifetime: Option<u64>,
    pub application_name: Option<String>,
    pub channel_binding: ChannelBinding,
    pub options: Option<String>,
}

/// The mathematical model of an option record.
pub ghost struct ParamsModel {
    pub certificate_file: Option<Seq<char>>,
    pub identity_file: Option<Seq<char>>,
    pub identity_password: Option<Seq<char>>,
    pub ssl_accept_mode: SslAcceptMode,
    pub connection_limit: Option<usize>,
    pub schema: Option<Seq<char>>,
    pub ssl_mode: SslMode,
    pub pg_bouncer: bool,
    pub host: Option<Seq<char>>,
    pub socket_timeout: Option<u64>,
    pub connect_timeout: Option<u64>,
    pub pool_timeout: Option<u64>,
    pub statement_cache_size: usize,
    pub max_connection_lifetime: Option<u64>,
    pub max_idle_connection_lifetime: Option<u64>,
    pub application_name: Option<Seq<char>>,
    pub channel_binding: ChannelBinding,
    pub options: Option<Seq<char>>,
}

/// The contents of an optional string.
pub open spec fn opt_str_view(o: Option<String>) -> Option<Seq<char>> {
    match o {
        Some(s) => Some(s@),
        None => None,
    }
}

impl View for PostgresUrlQueryParams {
    type V = ParamsModel;

    open spec fn view(&self) -> ParamsModel {
        ParamsModel {
            certificate_file: opt_str_view(self.ssl_params.certificate_file),
            identity_file: opt_str_view(self.ssl_params.identity_file),
            identity_password: opt_str_view(self.ssl_params.identity_password),
            ssl_accept_mode: self.ssl_params.ssl_accept_mode,
            connection_limit: self.connection_limit,
            schema: opt_str_view(self.schema),
            ssl_mode: self.ssl_mode,
            pg_bouncer: self.pg_bouncer,
            host: opt_str_view(self.host),
            socket_timeout: self.socket_timeout,
            connect_timeout: self.connect_timeout,
            pool_timeout: self.pool_timeout,
            statement_cache_size: self.statement_cache_size,
            max_connection_lifetime: self.max_connection_lifetime,
            max_idle_connection_lifetime: self.max_idle_connection_lifetime,
            application_name: opt_str_view(self.application_name),
            channel_binding: self.channel_binding,
            options: opt_str_view(self.options),
        }
    }
}

/// The options in force before any query pair is read.
pub open spec fn default_params_model() -> ParamsModel {
    ParamsModel {
        certificate_file: None,
        identity_file: None,
        identity_password: None,
        ssl_accept_mode: SslAcceptMode::AcceptInvalidCerts,
        connection_limit: None,
        schema: None,
        ssl_mode: SslMode::Prefer,
        pg_bouncer: false,
        host: None,
        socket_timeout: None,
        connect_timeout: Some(5),
        pool_timeout: Some(10),
        statement_cache_size: 100,
        max_connection_lifetime: None,
        max_idle_connection_lifetime: Some(300),
        application_name: None,
        channel_binding: ChannelBinding::Prefer,
        options: None,
    }
}

/// Base-10 parsing of a parameter value, as a partial function; one
/// leading plus sign is allowed, as the original string-to-number
/// conversion has it.
pub open spec fn spec_parse_u64(v: Seq<char>) -> Option<u64> {
    let d = numeric_part(v);
    if d.len() > 0 && all_digits(d) && str_to_nat(d) <= u64::MAX {
        Some(str_to_nat(d) as u64)
    } else {
        None
    }
}

/// Base-10 parsing of a parameter value into a `usize`.
pub open spec fn spec_parse_usize(v: Seq<char>) -> Option<usize> {
    let d = numeric_part(v);
    if d.len() > 0 && all_digits(d) && str_to_nat(d) <= usize::MAX {
        Some(str_to_nat(d) as usize)
    } else {
        None
    }
}

/// The sentinel `0` collapses a duration to "unset".
pub open spec fn zero_to_none(v: u64) -> Option<u64> {
    if v == 0 {
        None
    } else {
        Some(v)
    }
}

/// How a single recognized query pair updates the option record.
/// `None` is a malformed numeric or boolean value; an unrecognized key
/// leaves the record unchanged.
pub open spec fn step_param(m: ParamsModel, k: Seq<char>, v: Seq<char>) -> Option<ParamsModel> {
    if k == "pgbouncer"@ {
        if v == "true"@ {
            Some(ParamsModel { pg_bouncer: true, ..m })
        } else if v == "false"@ {
            Some(ParamsModel { pg_bouncer: false, ..m })
        } else {
            None
        }
    } else if k == "sslmode"@ {
        if v == "disable"@ {
            Some(ParamsModel { ssl_mode: SslMode::Disable, ..m })
        } else if v == "prefer"@ {
            Some(ParamsModel { ssl_mode: SslMode::Prefer, ..m })
        } else if v == "require"@ {
            Some(ParamsModel { ssl_mode: SslMode::Require, ..m })
        } else {
            Some(m)
        }
    } else if k == "sslcert"@ {
        Some(ParamsModel { certificate_file: Some(v), ..m })
    } else if k == "sslidentity"@ {
        Some(ParamsModel { identity_file: Some(v), ..m })
    } else if k == "sslpassword"@ {
        Some(ParamsModel { identity_password: Some(v), ..m })
    } else if k == "statement_cache_size"@ {
        match spec_parse_usize(v) {
            Some(n) => Some(ParamsModel { statement_cache_size: n, ..m }),
            None => None,
        }
    } else if k == "sslaccept"@ {
        if v == "strict"@ {
            Some(ParamsModel { ssl_accept_mode: SslAcceptMode::Strict, ..m })
        } else if v == "accept_invalid_certs"@ {
            Some(ParamsModel { ssl_accept_mode: SslAcceptMode::AcceptInvalidCerts, ..m })
        } else {
            Some(ParamsModel { ssl_accept_mode: SslAcceptMode::Strict, ..m })
        }
    } else if k == "schema"@ {
        Some(ParamsModel { schema: Some(v), ..m })
    } else if k == "connection_limit"@ {
        match spec_parse_usize(v) {
            Some(n) => Some(ParamsModel { connection_limit: Some(n), ..m }),
            None => None,
        }
    } else if k == "host"@ {
        Some(ParamsModel { host: Some(v), ..m })
    } else if k == "socket_timeout"@ {
        match spec_parse_u64(v) {
            Some(n) => Some(ParamsModel { socket_timeout: Some(n), ..m }),
            None => None,
        }
    } else if k == "connect_timeout"@ {
        match spec_parse_u64(v) {
            Some(n) => Some(ParamsModel { connect_timeout: zero_to_none(n), ..m }),
            None => None,
        }
    } else if k == "pool_timeout"@ {
        match spec_parse_u64(v) {
            Some(n) => Some(ParamsModel { pool_timeout: zero_to_none(n), ..m }),
            None => None,
        }
    } else if k == "max_connection_lifetime"@ {
        match spec_parse_u64(v) {
            Some(n) => Some(ParamsModel { max_connection_lifetime: zero_to_none(n), ..m }),
            None => None,
        }
    } else if k == "max_idle_connection_lifetime"@ {
        match spec_parse_u64(v) {
            Some(n) => Some(ParamsModel { max_idle_connection_lifetime: zero_to_none(n), ..m }),
            None => None,
        }
    } else if k == "application_name"@ {
        Some(ParamsModel { application_name: Some(v), ..m })
    } else if k == "channel_binding"@ {
        if v == "disable"@ {
            Some(ParamsModel { channel_binding: ChannelBinding::Disable, ..m })
        } else if v == "prefer"@ {
            Some(ParamsModel { channel_binding: ChannelBinding::Prefer, ..m })
        } else if v == "require"@ {
            Some(ParamsModel { channel_binding: ChannelBinding::Require, ..m })
        } else {
            Some(m)
        }
    } else if k == "options"@ {
        Some(ParamsModel { options: Some(v), ..m })
    } else {
        Some(m)
    }
}

/// The query pairs a step rejects: a recognized boolean or numeric key
/// whose value does not parse. Every other pair, recognized or not, is
/// accepted. The branches mirror [`step_param`] exactly.
pub open spec fn pair_malformed(k: Seq<char>, v: Seq<char>) -> bool {
    if k == "pgbouncer"@ {
        v != "true"@ && v != "false"@
    } else if k == "sslmode"@ {
        false
    } else if k == "sslcert"@ {
        false
    } else if k == "sslidentity"@ {
        false
    } else if k == "sslpassword"@ {
        false
    } else if k == "statement_cache_size"@ {
        spec_parse_usize(v) is None
    } else if k == "sslaccept"@ {
        false
    } else if k == "schema"@ {
        false
    } else if k == "connection_limit"@ {
        spec_parse_usize(v) is None
    } else if k == "host"@ {
        false
    } else if k == "socket_timeout"@ {
        spec_parse_u64(v) is None
    } else if k == "connect_timeout"@ {
        spec_parse_u64(v) is None
    } else if k == "pool_timeout"@ {
        spec_parse_u64(v) is None
    } else if k == "max_connection_lifetime"@ {
        spec_parse_u64(v) is None
    } else if k == "max_idle_connection_lifetime"@ {
        spec_parse_u64(v) is None
    } else if k == "application_name"@ {
        false
    } else if k == "channel_binding"@ {
        false
    } else if k == "options"@ {
        false
    } else {
        false
    }
}

/// A step fails exactly on a malformed pair, whatever the record so far.
proof fn lemma_step_param_none(m: ParamsModel, k: Seq<char>, v: Seq<char>)
    ensures
        step_param(m, k, v) is None <==> pair_malformed(k, v),
{
}

/// Folding the remaining query pairs, in URL order, over an option record.
pub open spec fn fold_params(pairs: Seq<(Seq<char>, Seq<char>)>, m: ParamsModel) -> Option<
    ParamsModel,
>
    decreases pairs.len(),
{
    if pairs.len() == 0 {
        Some(m)
    } else {
        match step_param(m, pairs[0].0, pairs[0].1) {
            None => None,
            Some(m2) => fold_params(pairs.drop_first(), m2),
        }
    }
}

/// The contents of a list of query pairs.
pub open spec fn pairs_view(pairs: Seq<(String, String)>) -> Seq<(Seq<char>, Seq<char>)> {
    pairs.map_values(|p: (String, String)| (p.0@, p.1@))
}

/// What the whole query string denotes: the defaults updated by every
/// recognized pair in order, or nothing when some value is malformed.
pub open spec fn spec_parse_params(pairs: Seq<(Seq<char>, Seq<char>)>) -> Option<ParamsModel> {
    fold_params(pairs, default_params_model())
}

proof fn lemma_fold_totality(pairs: Seq<(Seq<char>, Seq<char>)>, m: ParamsModel)
    ensures
        fold_params(pairs, m) is None <==> exists|i: int|
            0 <= i < pairs.len() && pair_malformed((#[trigger] pairs[i]).0, pairs[i].1),
    decreases pairs.len(),
{
    if pairs.len() > 0 {
        lemma_step_param_none(m, pairs[0].0, pairs[0].1);
        match step_param(m, pairs[0].0, pairs[0].1) {
            None => {
                assert(pair_malformed((pairs[0]).0, pairs[0].1));
            },
            Some(m2) => {
                let rest = pairs.drop_first();
                lemma_fold_totality(rest, m2);
                if fold_params(rest, m2) is None {
                    let j = choose|j: int|
                        0 <= j < rest.len() && pair_malformed((#[trigger] rest[j]).0, rest[j].1);
                    assert(pairs[j + 1] == rest[j]);
                } else {
                    if exists|i: int|
                        0 <= i < pairs.len() && pair_malformed(
                            (#[trigger] pairs[i]).0,
                            pairs[i].1,
                        ) {
                        let i = choose|i: int|
                            0 <= i < pairs.len() && pair_malformed(
                                (#[trigger] pairs[i]).0,
                                pairs[i].1,
                            );
                        assert(i != 0);
                        assert(rest[i - 1] == pairs[i]);
                        assert(false);
                    }
                }
            },
        }
    }
}

/// The query pairs are folded in URL order: parsing pairs followed by one
/// more pair is parsing the pairs and then applying that pair's update.
/// In particular, the last occurrence of a recognized key wins.
pub proof fn lemma_fold_params_snoc(
    pairs: Seq<(Seq<char>, Seq<char>)>,
    p: (Seq<char>, Seq<char>),
    m: ParamsModel,
)
    ensures
        fold_params(pairs.push(p), m) == (match fold_params(pairs, m) {
            Some(m2) => step_param(m2, p.0, p.1),
            None => None::<ParamsModel>,
        }),
    decreases pairs.len(),
{
    let pp = pairs.push(p);
    if pairs.len() == 0 {
        assert(pp[0] == p);
        assert(pp.drop_first() =~= Seq::<(Seq<char>, Seq<char>)>::empty());
        assert(fold_params(pp, m) == (match step_param(m, p.0, p.1) {
            None => None::<ParamsModel>,
            Some(m2) => fold_params(pp.drop_first(), m2),
        }));
        assert(fold_params(pairs, m) == Some(m));
    } else {
        assert(pp[0] == pairs[0]);
        assert(pp.drop_first() =~= pairs.drop_first().push(p));
        assert(fold_params(pp, m) == (match step_param(m, pairs[0].0, pairs[0].1) {
            None => None::<ParamsModel>,
            Some(m2) => fold_params(pp.drop_first(), m2),
        }));
        assert(fold_params(pairs, m) == (match step_param(m, pairs[0].0, pairs[0].1) {
            None => None::<ParamsModel>,
            Some(m2) => fold_params(pairs.drop_first(), m2),
        }));
        match step_param(m, pairs[0].0, pairs[0].1) {
            None => {
            },
            Some(m2) => {
                lemma_fold_params_snoc(pairs.drop_first(), p, m2);
            },
        }
    }
}

/// The last `host` pair of the query string decides the host option.
pub proof fn lemma_last_host_wins(pairs: Seq<(Seq<char>, Seq<char>)>, v: Seq<char>)
    ensures
        spec_parse_params(pairs.push(("host"@, v))) matches Some(m) ==> m.host == Some(v),
{
    reveal_strlit("host");
    reveal_strlit("pgbouncer");
    reveal_strlit("sslmode");
    reveal_strlit("sslcert");
    reveal_strlit("sslidentity");
    reveal_strlit("sslpassword");
    reveal_strlit("statement_cache_size");
    reveal_strlit("sslaccept");
    reveal_strlit("schema");
    reveal_strlit("connection_limit");
    assert("host"@[0] != "pgbouncer"@[0] && "host"@ != "pgbouncer"@);
    assert("host"@[0] != "sslmode"@[0] && "host"@ != "sslmode"@);
    assert("host"@[0] != "sslcert"@[0] && "host"@ != "sslcert"@);
    assert("host"@[0] != "sslidentity"@[0] && "host"@ != "sslidentity"@);
    assert("host"@[0] != "sslpassword"@[0] && "host"@ != "sslpassword"@);
    assert("host"@[0] != "statement_cache_size"@[0] && "host"@ != "statement_cache_size"@);
    assert("host"@[0] != "sslaccept"@[0] && "host"@ != "sslaccept"@);
    assert("host"@[0] != "schema"@[0] && "host"@ != "schema"@);
    assert("host"@[0] != "connection_limit"@[0] && "host"@ != "connection_limit"@);
    lemma_fold_params_snoc(pairs, ("host"@, v), default_params_model());
}

/// The parser is total but for malformed values: folding the query pairs
/// yields an option record unless some pair carries a recognized boolean
/// or numeric key with a value that does not parse, and always yields one
/// otherwise.
pub proof fn lemma_parse_params_totality(pairs: Seq<(Seq<char>, Seq<char>)>)
    ensures
        spec_parse_params(pairs) is None <==> exists|i: int|
            0 <= i < pairs.len() && pair_malformed((#[trigger] pairs[i]).0, pairs[i].1),
{
    lemma_fold_totality(pairs, default_params_model());
}

/// Parse a URL's query pairs into an option record.
///
/// Exactly the malformed numeric and boolean values of recognized keys are
/// rejected; unrecognized keys are discarded.
pub fn parse_query_params(pairs: &Vec<(String, String)>) -> (r: Result<
    PostgresUrlQueryParams,
    Error,
>)
    ensures
        match r {
            Ok(p) => spec_parse_params(pairs_view(pairs@)) == Some(p@),
            Err(e) => spec_parse_params(pairs_view(pairs@)) is None && e.kind
                is InvalidConnectionArguments,
        },
{
    let mut acc = PostgresUrlQueryParams {
        ssl_params: SslParams {
            certificate_file: None,
            identity_file: None,
            identity_password: None,
            ssl_accept_mode: SslAcceptMode::AcceptInvalidCerts,
        },
        connection_limit: None,
        schema: None,
        ssl_mode: SslMode::Prefer,
        pg_bouncer: false,
        host: None,
        socket_timeout: None,
        connect_timeout: Some(5),
        pool_timeout: Some(10),
        statement_cache_size: 100,
        max_connection_lifetime: None,
        max_idle_connection_lifetime: Some(300),
        application_name: None,
        channel_binding: ChannelBinding::Prefer,
        options: None,
    };
    let ghost pv = pairs_view(pairs@);
    let mut i: usize = 0;
    proof {
        assert(acc@ == default_params_model());
        assert(pv.skip(0) =~= pv);
    }
    while i < pairs.len()
        invariant
            0 <= i <= pairs.len(),
            pv == pairs_view(pairs@),
            pv.len() == pairs@.len(),
            fold_params(pv.skip(i as int), acc@) == spec_parse_params(pv),
        decreases pairs.len() - i,
    {
        let k: &String = &pairs[i].0;
        let v: &String = &pairs[i].1;
        let ghost m_before = acc@;
        proof {
            assert(pv[i as int] == (k@, v@));
            assert(pv.skip(i as int)[0] == pv[i as int]);
            assert(pv.skip(i as int).drop_first() =~= pv.skip(i as int + 1));
        }
        if str_eq(k.as_str(), "pgbouncer") {
            if str_eq(v.as_str(), "true") {
                acc.pg_bouncer = true;
            } else if str_eq(v.as_str(), "false") {
                acc.pg_bouncer = false;
            } else {
                return Err(Error::new(ErrorKind::InvalidConnectionArguments));
            }
        } else if str_eq(k.as_str(), "sslmode") {
            if str_eq(v.as_str(), "disable") {
                acc.ssl_mode = SslMode::Disable;
            } else if str_eq(v.as_str(), "prefer") {
                acc.ssl_mode = SslMode::Prefer;
            } else if str_eq(v.as_str(), "require") {
                acc.ssl_mode = SslMode::Require;
            }
        } else if str_eq(k.as_str(), "sslcert") {
            acc.ssl_params.certificate_file = Some(v.clone());
        } else if str_eq(k.as_str(), "sslidentity") {
            acc.ssl_params.identity_file = Some(v.clone());
        } else if str_eq(k.as_str(), "sslpassword") {
            acc.ssl_params.identity_password = Some(v.clone());
        } else if str_eq(k.as_str(), "statement_cache_size") {
            match parse_number_usize(v.as_str()) {
                Some(n) => {
                    acc.statement_cache_size = n;
                },
                None => {
                    return Err(Error::new(ErrorKind::InvalidConnectionArguments));
                },
            }
        } else if str_eq(k.as_str(), "sslaccept") {
            if str_eq(v.as_str(), "strict") {
                acc.ssl_params.ssl_accept_mode = SslAcceptMode::Strict;
            } else if str_eq(v.as_str(), "accept_invalid_certs") {
                acc.ssl_params.ssl_accept_mode = SslAcceptMode::AcceptInvalidCerts;
            } else {
                acc.ssl_params.ssl_accept_mode = SslAcceptMode::Strict;
            }
        } else if str_eq(k.as_str(), "schema") {
            acc.schema = Some(v.clone());
        } else if str_eq(k.as_str(), "connection_limit") {
            match parse_number_usize(v.as_str()) {
                Some(n) => {
                    acc.connection_limit = Some(n);
                },
                None => {
                    return Err(Error::new(ErrorKind::InvalidConnectionArguments));
                },
            }
        } else if str_eq(k.as_str(), "host") {
            acc.host = Some(v.clone());
        } else if str_eq(k.as_str(), "socket_timeout") {
            match parse_number_u64(v.as_str()) {
                Some(n) => {
                    acc.socket_timeout = Some(n);
                },
                None => {
                    return Err(Error::new(ErrorKind::InvalidConnectionArguments));
                },
            }
        } else if str_eq(k.as_str(), "connect_timeout") {
            match parse_number_u64(v.as_str()) {
                Some(n) => {
                    acc.connect_timeout = if n == 0 {
                        None
                    } else {
                        Some(n)
                    };
                },
                None => {
                    return Err(Error::new(ErrorKind::InvalidConnectionArguments));
                },
            }
        } else if str_eq(k.as_str(), "pool_timeout") {
            match parse_number_u64(v.as_str()) {
                Some(n) => {
                    acc.pool_timeout = if n == 0 {
                        None
                    } else {
                        Some(n)
                    };
                },
                None => {
                    return Err(Error::new(ErrorKind::InvalidConnectionArguments));
                },
            }
        } else if str_eq(k.as_str(), "max_connection_lifetime") {
            match parse_number_u64(v.as_str()) {
                Some(n) => {
                    acc.max_connection_lifetime = if n == 0 {
                        None
                    } else {
                        Some(n)
                    };
                },
                None => {
                    return Err(Error::new(ErrorKind::InvalidConnectionArguments));
                },
            }
        } else if str_eq(k.as_str(), "max_idle_connection_lifetime") {
            match parse_number_u64(v.as_str()) {
                Some(n) => {
                    acc.max_idle_connection_lifetime = if n == 0 {
                        None
                    } else {
                        Some(n)
                    };
                },
                None => {
                    return Err(Error::new(ErrorKind::InvalidConnectionArguments));
                },
            }
        } else if str_eq(k.as_str(), "application_name") {
            acc.application_name = Some(v.clone());
        } else if str_eq(k.as_str(), "channel_binding") {
            if str_eq(v.as_str(), "disable") {
                acc.channel_binding = ChannelBinding::Disable;
            } else if str_eq(v.as_str(), "prefer") {
                acc.channel_binding = ChannelBinding::Prefer;
            } else if str_eq(v.as_str(), "require") {
                acc.channel_binding = ChannelBinding::Require;
            }
        } else if str_eq(k.as_str(), "options") {
            acc.options = Some(v.clone());
        }
        proof {
            assert(step_param(m_before, k@, v@) == Some(acc@));
        }
        i = i + 1;
    }
    proof {
        assert(pv.skip(i as int) =~= Seq::<(Seq<char>, Seq<char>)>::empty());
    }
    Ok(acc)
}

} // verus!
