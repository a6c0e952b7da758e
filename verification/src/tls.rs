//! Resolving the TLS options into the material a connector is built from:
//! which file contents are used for the root certificate and the client
//! identity, the identity password defaulting, and the accept-mode policy.
//! Reading the files and parsing the material are the caller's I/O; this
//! module decides what every outcome means.

use vstd::prelude::*;
use vstd::string::StringExecFns;
use crate::error::{Error, ErrorKind};
use crate::params::{SslAcceptMode, SslParams};

verus! {

/// The resolved TLS material: the raw bytes of the optional root
/// certificate and client identity, the identity password (empty when none
/// was given), and whether invalid certificates are accepted.
pub struct SslAuth {
    pub certificate_pem: Option<Vec<u8>>,
    pub identity_bundle: Option<Vec<u8>>,
    pub identity_password: String,
    pub accept_invalid_certs: bool,
}

/// The error message naming the file role that could not be read.
pub open spec fn spec_file_error_message(role: Seq<char>, detail: Seq<char>) -> Seq<char> {
    role + " file not found ("@ + detail + ")"@
}

fn file_error(role_prefix: &str, detail: &str) -> (r: Error)
    ensures
        r.kind matches ErrorKind::TlsError { message } && message@ == spec_file_error_message(
            role_prefix@,
            detail@,
        ),
{
    let mut m = role_prefix.to_owned();
    m.append(" file not found (");
    m.append(detail);
    m.append(")");
    Error::new(ErrorKind::TlsError { message: m })
}

impl SslParams {
    /// Resolve the read file contents into TLS material.
    ///
    /// The caller reads each configured file and hands the outcome over:
    /// `cert_read` for the certificate file and `identity_read` for the
    /// identity file, present exactly when the corresponding file is
    /// configured, with the file's bytes or the reading error's rendering.
    /// A failed certificate read is reported first; the identity password
    /// defaults to the empty string.
    pub fn into_auth(
        self,
        cert_read: Option<Result<Vec<u8>, String>>,
        identity_read: Option<Result<Vec<u8>, String>>,
    ) -> (r: Result<SslAuth, Error>)
        requires
            cert_read is Some <==> self.certificate_file is Some,
            identity_read is Some <==> self.identity_file is Some,
        ensures
            match r {
                Ok(auth) => (match cert_read {
                    None => auth.certificate_pem is None,
                    Some(read) => read matches Ok(bytes) && (auth.certificate_pem matches Some(b)
                        && b@ == bytes@),
                }) && (match identity_read {
                    None => auth.identity_bundle is None,
                    Some(read) => read matches Ok(bytes) && (auth.identity_bundle matches Some(b)
                        && b@ == bytes@),
                }) && auth.identity_password@ == (match self.identity_password {
                    Some(p) => p@,
                    None => Seq::<char>::empty(),
                }) && auth.accept_invalid_certs == (self.ssl_accept_mode
                    is AcceptInvalidCerts),
                Err(e) => (e.kind matches ErrorKind::TlsError { message } && ((cert_read matches
                    Some(Err(d)) && message@ == spec_file_error_message("cert"@, d@))
                    || ((match cert_read {
                    Some(c) => c is Ok,
                    None => true,
                }) && (identity_read matches Some(Err(d)) && message@ == spec_file_error_message(
                    "identity"@,
                    d@,
                ))))),
            },
    {
        let accept_invalid_certs = match self.ssl_accept_mode {
            SslAcceptMode::AcceptInvalidCerts => true,
            SslAcceptMode::Strict => false,
        };
        let certificate_pem = match cert_read {
            None => None,
            Some(Ok(bytes)) => Some(bytes),
            Some(Err(detail)) => {
                return Err(file_error("cert", detail.as_str()));
            },
        };
        let identity_bundle = match identity_read {
            None => None,
            Some(Ok(bytes)) => Some(bytes),
            Some(Err(detail)) => {
                return Err(file_error("identity", detail.as_str()));
            },
        };
        let identity_password = match self.identity_password {
            Some(p) => p,
            None => String::new(),
        };
        Ok(
            SslAuth {
                certificate_pem,
                identity_bundle,
                identity_password,
                accept_invalid_certs,
            },
        )
    }
}

} // verus!
