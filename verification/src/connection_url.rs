//! A parsed connection URL: the components of the URL itself together with
//! the typed option record read from its query string, and the derived
//! values a session is built from.

use vstd::prelude::*;
use url::Url;
use crate::cache::StatementCache;
use crate::error::Error;
use crate::params::{
    parse_query_params, pairs_view, spec_parse_params, opt_str_view, ChannelBinding,
    PostgresUrlQueryParams, SslParams,
};
use crate::url_api::{
    pct_decoded_utf8, percent_decode_utf8, url_first_path_segment, url_host_str, url_password,
    url_port, url_query_pairs, url_username,
};

verus! {

/// The schema used when the URL names none.
pub const DEFAULT_SCHEMA: &'static str = "public";

/// The plain components of a parsed URL that the connector reads.
pub struct UrlComponents {
    pub username: String,
    pub password: Option<String>,
    pub host: Option<String>,
    pub port: Option<u16>,
    pub first_path_segment: Option<String>,
    pub query_pairs: Vec<(String, String)>,
}

/// A connection URL together with the option record parsed from its query
/// string, exposing every default the connector applies.
pub struct PostgresUrl {
    pub url: Url,
    pub components: UrlComponents,
    pub query_params: PostgresUrlQueryParams,
}

impl PostgresUrl {
    /// The option record is exactly what the query pairs denote.
    pub open spec fn wf(&self) -> bool {
        spec_parse_params(pairs_view(self.components.query_pairs@)) == Some(self.query_params@)
    }

    /// The percent-decoded username, or the raw one when decoding fails.
    pub open spec fn spec_username(&self) -> Seq<char> {
        match pct_decoded_utf8(self.components.username@) {
            Some(d) => d,
            None => self.components.username@,
        }
    }

    /// The percent-decoded password; the raw one when decoding fails;
    /// empty when the URL has none.
    pub open spec fn spec_password(&self) -> Seq<char> {
        match self.components.password {
            Some(p) => match pct_decoded_utf8(p@) {
                Some(d) => d,
                None => p@,
            },
            None => Seq::<char>::empty(),
        }
    }

    /// The `host` query parameter wins over the URL host; an absent or
    /// empty URL host falls back to `localhost`.
    pub open spec fn spec_host(&self) -> Seq<char> {
        match self.query_params.host {
            Some(h) => h@,
            None => match self.components.host {
                Some(h) => if h@.len() == 0 {
                    "localhost"@
                } else {
                    h@
                },
                None => "localhost"@,
            },
        }
    }

    /// The first path segment, or `postgres` when the path has none.
    pub open spec fn spec_dbname(&self) -> Seq<char> {
        match self.components.first_path_segment {
            Some(s) => s@,
            None => "postgres"@,
        }
    }

    /// The port written in the URL, or 5432.
    pub open spec fn spec_port(&self) -> u16 {
        match self.components.port {
            Some(p) => p,
            None => 5432u16,
        }
    }

    /// The schema named in the query string, or `public`.
    pub open spec fn spec_schema(&self) -> Seq<char> {
        match self.query_params.schema {
            Some(s) => s@,
            None => DEFAULT_SCHEMA@,
        }
    }

    /// The statement-cache bound: the configured size, forced to 0 in
    /// pooler mode.
    pub open spec fn spec_cache_capacity(&self) -> usize {
        if self.query_params.pg_bouncer {
            0usize
        } else {
            self.query_params.statement_cache_size
        }
    }

    /// Parse a `Url` into a `PostgresUrl`. Fails exactly when a query
    /// parameter with a recognized numeric or boolean key carries a
    /// malformed value.
    pub fn new(url: Url) -> (r: Result<PostgresUrl, Error>)
        ensures
            match r {
                Ok(u) => u.wf(),
                Err(e) => e.kind is InvalidConnectionArguments,
            },
    {
        let components = UrlComponents {
            username: url_username(&url),
            password: url_password(&url),
            host: url_host_str(&url),
            port: url_port(&url),
            first_path_segment: url_first_path_segment(&url),
            query_pairs: url_query_pairs(&url),
        };
        let query_params = match parse_query_params(&components.query_pairs) {
            Ok(q) => q,
            Err(e) => {
                return Err(e);
            },
        };
        Ok(PostgresUrl { url, components, query_params })
    }

    /// The bare `Url` the components were read from.
    pub fn url(&self) -> (r: &Url) {
        &self.url
    }

    /// The percent-decoded database username.
    pub fn username(&self) -> (r: String)
        ensures
            r@ == self.spec_username(),
    {
        match percent_decode_utf8(self.components.username.as_str()) {
            Some(d) => d,
            None => self.components.username.clone(),
        }
    }

    /// The percent-decoded database password, empty when absent.
    pub fn password(&self) -> (r: String)
        ensures
            r@ == self.spec_password(),
    {
        match &self.components.password {
            Some(p) => match percent_decode_utf8(p.as_str()) {
                Some(d) => d,
                None => p.clone(),
            },
            None => String::new(),
        }
    }

    /// The database host. Taken first from the `host` query parameter,
    /// then from the host part of the URL; for socket connections the
    /// query parameter must be used. Defaults to `localhost`.
    pub fn host(&self) -> (r: String)
        ensures
            r@ == self.spec_host(),
    {
        match &self.query_params.host {
            Some(h) => h.clone(),
            None => match &self.components.host {
                Some(h) => {
                    if h.as_str().is_empty() {
                        "localhost".to_owned()
                    } else {
                        h.clone()
                    }
                },
                None => "localhost".to_owned(),
            },
        }
    }

    /// The name of the database to connect to. Defaults to `postgres`.
    pub fn dbname(&self) -> (r: String)
        ensures
            r@ == self.spec_dbname(),
    {
        match &self.components.first_path_segment {
            Some(s) => s.clone(),
            None => "postgres".to_owned(),
        }
    }

    /// The database port, defaults to 5432.
    pub fn port(&self) -> (r: u16)
        ensures
            r == self.spec_port(),
    {
        match self.components.port {
            Some(p) => p,
            None => 5432,
        }
    }

    /// The database schema, defaults to `public`.
    pub fn schema(&self) -> (r: String)
        ensures
            r@ == self.spec_schema(),
    {
        match &self.query_params.schema {
            Some(s) => s.clone(),
            None => DEFAULT_SCHEMA.to_owned(),
        }
    }

    /// Whether the pooler-compatibility mode is enabled.
    pub fn pg_bouncer(&self) -> (r: bool)
        ensures
            r == self.query_params.pg_bouncer,
    {
        self.query_params.pg_bouncer
    }

    /// The connection timeout in seconds.
    pub fn connect_timeout(&self) -> (r: Option<u64>)
        ensures
            r == self.query_params.connect_timeout,
    {
        self.query_params.connect_timeout
    }

    /// The pool check-out timeout in seconds.
    pub fn pool_timeout(&self) -> (r: Option<u64>)
        ensures
            r == self.query_params.pool_timeout,
    {
        self.query_params.pool_timeout
    }

    /// The socket timeout in seconds.
    pub fn socket_timeout(&self) -> (r: Option<u64>)
        ensures
            r == self.query_params.socket_timeout,
    {
        self.query_params.socket_timeout
    }

    /// The maximum connection lifetime in seconds.
    pub fn max_connection_lifetime(&self) -> (r: Option<u64>)
        ensures
            r == self.query_params.max_connection_lifetime,
    {
        self.query_params.max_connection_lifetime
    }

    /// The maximum idle connection lifetime in seconds.
    pub fn max_idle_connection_lifetime(&self) -> (r: Option<u64>)
        ensures
            r == self.query_params.max_idle_connection_lifetime,
    {
        self.query_params.max_idle_connection_lifetime
    }

    /// The custom application name.
    pub fn application_name(&self) -> (r: Option<String>)
        ensures
            opt_str_view(r) == opt_str_view(self.query_params.application_name),
    {
        match &self.query_params.application_name {
            Some(s) => Some(s.clone()),
            None => None,
        }
    }

    /// The requested channel-binding behaviour.
    pub fn channel_binding(&self) -> (r: ChannelBinding)
        ensures
            r == self.query_params.channel_binding,
    {
        self.query_params.channel_binding
    }

    /// The upper bound on pool connections, surfaced for the pool.
    pub fn connection_limit(&self) -> (r: Option<usize>)
        ensures
            r == self.query_params.connection_limit,
    {
        self.query_params.connection_limit
    }

    /// The server startup options passed through verbatim.
    pub fn options(&self) -> (r: Option<String>)
        ensures
            opt_str_view(r) == opt_str_view(self.query_params.options),
    {
        match &self.query_params.options {
            Some(s) => Some(s.clone()),
            None => None,
        }
    }

    /// The TLS subsection of the options.
    pub fn ssl_params(&self) -> (r: &SslParams)
        ensures
            r == &self.query_params.ssl_params,
    {
        &self.query_params.ssl_params
    }

    /// A fresh statement cache for a session on this URL: the configured
    /// capacity, or 0 in pooler mode so that nothing is ever retained.
    pub fn cache(&self) -> (r: StatementCache)
        ensures
            r@.capacity == self.spec_cache_capacity(),
            r@.entries.len() == 0,
            r.wf(),
    {
        if self.query_params.pg_bouncer {
            StatementCache::new(0)
        } else {
            StatementCache::new(self.query_params.statement_cache_size)
        }
    }
}

/// Pooler mode disables the statement cache: whenever the parsed URL has
/// `pg_bouncer` set, the cache a session is given has capacity 0.
pub proof fn lemma_pg_bouncer_disables_cache(u: &PostgresUrl)
    requires
        u.query_params.pg_bouncer,
    ensures
        u.spec_cache_capacity() == 0,
{
}

/// The facts a server configuration is built from, one field per value the
/// driver needs.
pub struct ServerConfig {
    pub user: String,
    pub password: String,
    pub host: String,
    pub port: u16,
    pub dbname: String,
    pub options: Option<String>,
    pub application_name: Option<String>,
    pub connect_timeout: Option<u64>,
    pub ssl_mode: crate::params::SslMode,
    pub channel_binding: ChannelBinding,
}

impl PostgresUrl {
    /// Collect everything the driver-side configuration needs, applying
    /// every default this type defines.
    pub fn to_config(&self) -> (r: ServerConfig)
        ensures
            r.user@ == self.spec_username(),
            r.password@ == self.spec_password(),
            r.host@ == self.spec_host(),
            r.port == self.spec_port(),
            r.dbname@ == self.spec_dbname(),
            opt_str_view(r.options) == opt_str_view(self.query_params.options),
            opt_str_view(r.application_name) == opt_str_view(self.query_params.application_name),
            r.connect_timeout == self.query_params.connect_timeout,
            r.ssl_mode == self.query_params.ssl_mode,
            r.channel_binding == self.query_params.channel_binding,
    {
        ServerConfig {
            user: self.username(),
            password: self.password(),
            host: self.host(),
            port: self.port(),
            dbname: self.dbname(),
            options: self.options(),
            application_name: self.application_name(),
            connect_timeout: self.connect_timeout(),
            ssl_mode: self.query_params.ssl_mode,
            channel_binding: self.channel_binding(),
        }
    }
}

} // verus!
