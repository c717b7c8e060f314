//! The plain-HTTP endpoint on port 80: requests under the ACME challenge
//! prefix are served from the webroot, everything else is redirected
//! permanently to the HTTPS port. File reads happen outside; the path
//! resolution and the outcome of each read are decided here.
use vstd::prelude::*;

use crate::text::{before_colon, dec_spec, host_without_port, starts_with, u16_to_dec};

verus! {

/// The path prefix under which ACME HTTP-01 challenge tokens are served.
pub open spec fn acme_prefix() -> Seq<char> {
    "/.well-known/acme-challenge/"@
}

/// True iff `path` lies under the ACME challenge prefix.
pub open spec fn is_challenge_path(path: Seq<char>) -> bool {
    acme_prefix().len() <= path.len() && path.take(acme_prefix().len() as int) == acme_prefix()
}

/// The file that answers a challenge request:
/// `<webroot>/.well-known/acme-challenge/<token>`, the token being the path
/// with the prefix stripped.
pub open spec fn challenge_file_model(webroot: Seq<char>, path: Seq<char>) -> Seq<char> {
    webroot + "/.well-known/acme-challenge/"@ + path.skip(acme_prefix().len() as int)
}

/// The redirect target for every other path:
/// `https://<host-without-port>:<https_port><path>`, the host taken from the
/// `host` header and falling back to `localhost`.
pub open spec fn redirect_location_model(
    host_header: Option<Seq<char>>,
    https_port: u16,
    path: Seq<char>,
) -> Seq<char> {
    let host = match host_header {
        Some(h) => h,
        None => "localhost"@,
    };
    "https://"@ + before_colon(host) + ":"@ + dec_spec(https_port as nat) + path
}

/// What the port-80 endpoint does with one request.
pub enum Port80Action {
    /// Serve this file with status 200, 404 when it is missing, 500 when it
    /// cannot be read.
    ServeChallenge { file_path: String },
    /// Redirect with status 301 to this location.
    Redirect { location: String },
}

/// Decide what the port-80 endpoint does: challenge paths resolve to a file
/// under the webroot, every other path becomes a permanent redirect to the
/// HTTPS port.
pub fn classify_port80_request(
    path: &str,
    host_header: Option<&str>,
    acme_webroot: &str,
    https_port: u16,
) -> (r: Port80Action)
    ensures
        is_challenge_path(path@) ==> (r matches Port80Action::ServeChallenge { file_path }
            && file_path@ == challenge_file_model(acme_webroot@, path@)),
        !is_challenge_path(path@) ==> (r matches Port80Action::Redirect { location }
            && location@ == redirect_location_model(
            match host_header {
                Some(h) => Some(h@),
                None => None,
            },
            https_port,
            path@,
        )),
{
    if starts_with(path, "/.well-known/acme-challenge/") {
        let prefix_len = "/.well-known/acme-challenge/".unicode_len();
        let token = path.substring_char(prefix_len, path.unicode_len());
        let mut file_path = String::from_str(acme_webroot);
        file_path.append("/.well-known/acme-challenge/");
        file_path.append(token);
        assert(file_path@ =~= challenge_file_model(acme_webroot@, path@));
        Port80Action::ServeChallenge { file_path }
    } else {
        let host = match host_header {
            Some(h) => h,
            None => "localhost",
        };
        let mut location = String::from_str("https://");
        location.append(host_without_port(host));
        location.append(":");
        let dec = u16_to_dec(https_port);
        location.append(dec.as_str());
        location.append(path);
        Port80Action::Redirect { location }
    }
}

/// The status and body the challenge path answers with, given whether the
/// resolved file is a regular file and, when it is, what reading it gave.
pub fn challenge_outcome(file_is_file: bool, content: Option<String>) -> (r: (u16, String))
    ensures
        (match content {
            Some(c) => file_is_file ==> r.0 == 200 && r.1@ == c@,
            None => file_is_file ==> r.0 == 500 && r.1@ == "Failed to read challenge"@,
        }),
        !file_is_file ==> r.0 == 404 && r.1@ == "Challenge not found"@,
{
    if !file_is_file {
        return (404, String::from_str("Challenge not found"));
    }
    match content {
        Some(c) => (200, c),
        None => (500, String::from_str("Failed to read challenge")),
    }
}

} // verus!
