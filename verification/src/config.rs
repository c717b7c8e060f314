//! Process configuration: the default ports, the request-body cap's
//! companion constants, and the selection of the run mode from the parsed
//! command-line flags. Flag parsing itself happens outside; which mode the
//! flags denote, and which combinations are rejected, is decided here.
use vstd::prelude::*;

verus! {

/// The upstream server's default port.
pub const DEFAULT_UPSTREAM_PORT: u16 = 8081;

/// The default bind port in the TLS modes.
pub const DEFAULT_HTTPS_PORT: u16 = 8443;

/// The default bind port without TLS.
pub const DEFAULT_HTTP_PORT: u16 = 8080;

/// Hours between two runs of the renewal check.
pub const RENEWAL_CHECK_INTERVAL_HOURS: u64 = 12;

/// Seconds an in-flight request may take to finish after the shutdown
/// signal; connections still open afterwards are closed hard.
pub const SHUTDOWN_GRACE_SECONDS: u64 = 10;

/// Whole-request timeout of the pooled upstream HTTP client, in seconds.
pub const UPSTREAM_REQUEST_TIMEOUT_SECONDS: u64 = 300;

/// Connect timeout of the pooled upstream HTTP client, in seconds.
pub const UPSTREAM_CONNECT_TIMEOUT_SECONDS: u64 = 10;

/// Idle connections the upstream HTTP client keeps pooled per host.
pub const UPSTREAM_MAX_IDLE_PER_HOST: usize = 100;

/// One of the three mutually exclusive ways the proxy runs.
#[derive(Debug)]
pub enum RunMode {
    /// Certificates obtained and renewed through the external ACME agent.
    AutoTls { domain: String, email: String, port: u16, upstream_port: u16 },
    /// Operator-supplied certificate and key files.
    ManualTls { cert_path: String, key_path: String, port: u16, upstream_port: u16 },
    /// Plain HTTP, for development.
    NoTls { port: u16, upstream_port: u16 },
}

/// Select the run mode from the parsed flags. Auto-TLS needs a domain and an
/// email; manual TLS needs both file paths; without TLS a still-default HTTPS
/// port is rewritten to the HTTP default; any other combination is rejected
/// with a usage message.
pub fn select_mode(
    auto_ssl: bool,
    cert: Option<String>,
    key: Option<String>,
    no_ssl: bool,
    domain: Option<String>,
    email: Option<String>,
    port: u16,
    upstream_port: u16,
) -> (r: Result<RunMode, String>)
    ensures
        auto_ssl && domain is None ==> (r matches Err(e) && e@
            == "Error: --domain is required with --auto-ssl"@),
        auto_ssl && domain is Some && email is None ==> (r matches Err(e) && e@
            == "Error: --email is required with --auto-ssl"@),
        auto_ssl && domain is Some && email is Some ==> (r matches Ok(mode)
            && mode matches RunMode::AutoTls { domain: rd, email: re, port: rp, upstream_port: ru }
            && rd@ == domain->0@ && re@ == email->0@ && rp == port && ru == upstream_port),
        !auto_ssl && cert is Some && key is Some ==> (r matches Ok(mode)
            && mode matches RunMode::ManualTls {
            cert_path: rc,
            key_path: rk,
            port: rp,
            upstream_port: ru,
        } && rc@ == cert->0@ && rk@ == key->0@ && rp == port && ru == upstream_port),
        !auto_ssl && !(cert is Some && key is Some) && no_ssl ==> (r matches Ok(mode)
            && mode matches RunMode::NoTls { port: rp, upstream_port: ru } && rp == (
        if port == DEFAULT_HTTPS_PORT {
            DEFAULT_HTTP_PORT
        } else {
            port
        }) && ru == upstream_port),
        !auto_ssl && !(cert is Some && key is Some) && !no_ssl ==> (r matches Err(e) && e@
            == "Error: Choose an SSL mode:\n\n  --auto-ssl --domain DOMAIN --email EMAIL\n\n  --cert FILE --key FILE\n\n  --no-ssl"@),
{
    if auto_ssl {
        let d = match domain {
            Some(d) => d,
            None => {
                return Err(String::from_str("Error: --domain is required with --auto-ssl"));
            },
        };
        let m = match email {
            Some(m) => m,
            None => {
                return Err(String::from_str("Error: --email is required with --auto-ssl"));
            },
        };
        return Ok(RunMode::AutoTls { domain: d, email: m, port, upstream_port });
    }
    if let (Some(c), Some(k)) = (cert, key) {
        return Ok(RunMode::ManualTls { cert_path: c, key_path: k, port, upstream_port });
    }
    if no_ssl {
        let p = if port == DEFAULT_HTTPS_PORT {
            DEFAULT_HTTP_PORT
        } else {
            port
        };
        return Ok(RunMode::NoTls { port: p, upstream_port });
    }
    Err(
        String::from_str(
            "Error: Choose an SSL mode:\n\n  --auto-ssl --domain DOMAIN --email EMAIL\n\n  --cert FILE --key FILE\n\n  --no-ssl",
        ),
    )
}

} // verus!
