//! The verified core of a PostgreSQL connector: URL parsing with its full
//! option surface, the bounded prepared-statement cache, the session's
//! pre-I/O validations, and the owned-transaction lifecycle.

pub mod cache;
pub mod connection_url;
pub mod error;
pub mod params;
pub mod result_set;
pub mod session;
pub mod text;
pub mod tls;
pub mod transaction;
pub mod url_api;
