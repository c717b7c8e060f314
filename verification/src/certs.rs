//! Certificate lifecycle decisions: where certificates live for a domain,
//! whether they exist, whether renewal is due, how the external ACME agent is
//! invoked, and how its outcomes are interpreted. The filesystem probes and
//! the process invocations themselves happen outside; every decision about
//! their results is made here.
use vstd::prelude::*;

use crate::text::{str_views, trim, trim_spec};

verus! {

/// The paths the certificate manager works with, derived once from the base
/// directory and the domain and stable for the process lifetime.
pub struct CertManager {
    pub domain: String,
    pub email: String,
    pub cert_dir: String,
    pub cert_path: String,
    pub key_path: String,
    pub acme_webroot: String,
}

/// True iff `s` begins with `notAfter=`, the line a successful expiry probe
/// prints.
pub open spec fn has_not_after(s: Seq<char>) -> bool {
    "notAfter="@.len() <= s.len() && s.take("notAfter="@.len() as int) == "notAfter="@
}

/// The certbot binary locations tried in order, before a `PATH` lookup.
pub open spec fn certbot_candidate_model() -> Seq<Seq<char>> {
    seq!["/usr/bin/certbot"@, "/usr/local/bin/certbot"@, "/snap/bin/certbot"@]
}

/// The certbot path the search settles on: the first well-known candidate
/// that is a regular file, else the trimmed nonempty output of the `PATH`
/// lookup, else nothing.
pub open spec fn chosen_certbot(flags: Seq<bool>, which_output: Option<Seq<char>>) -> Option<
    Seq<char>,
> {
    if flags[0] {
        Some(certbot_candidate_model()[0])
    } else if flags[1] {
        Some(certbot_candidate_model()[1])
    } else if flags[2] {
        Some(certbot_candidate_model()[2])
    } else {
        match which_output {
            Some(w) => if trim_spec(w).len() > 0 {
                Some(trim_spec(w))
            } else {
                None
            },
            None => None,
        }
    }
}

impl CertManager {
    /// Derive the certificate paths for `domain` under `base_dir`:
    /// `base_dir/certs/<domain>/{fullchain.pem,privkey.pem}` and
    /// `base_dir/acme-webroot`.
    pub fn new(domain: String, email: String, base_dir: String) -> (r: CertManager)
        ensures
            r.domain@ == domain@,
            r.email@ == email@,
            r.cert_dir@ == base_dir@ + "/certs/"@ + domain@,
            r.cert_path@ == base_dir@ + "/certs/"@ + domain@ + "/fullchain.pem"@,
            r.key_path@ == base_dir@ + "/certs/"@ + domain@ + "/privkey.pem"@,
            r.acme_webroot@ == base_dir@ + "/acme-webroot"@,
    {
        let mut cert_dir = base_dir.clone();
        cert_dir.append("/certs/");
        cert_dir.append(domain.as_str());
        let mut cert_path = cert_dir.clone();
        cert_path.append("/fullchain.pem");
        let mut key_path = cert_dir.clone();
        key_path.append("/privkey.pem");
        let mut acme_webroot = base_dir;
        acme_webroot.append("/acme-webroot");
        CertManager { domain, email, cert_dir, cert_path, key_path, acme_webroot }
    }

    /// Certificates are present exactly when both the certificate file and
    /// the key file are regular files; the caller reports what the
    /// filesystem shows for `cert_path` and `key_path`.
    pub fn has_certificates(&self, cert_is_file: bool, key_is_file: bool) -> (r: bool)
        ensures
            r == (cert_is_file && key_is_file),
    {
        cert_is_file && key_is_file
    }

    /// Renewal is due unless both certificate files exist and the expiry
    /// probe (`openssl x509 -enddate -noout -in <cert_path>`) succeeded with
    /// a parseable `notAfter=` line; `expiry_output` is that probe's standard
    /// output, or `None` when the probe failed or was not run.
    pub fn needs_renewal(&self, cert_is_file: bool, key_is_file: bool, expiry_output: Option<
        &str,
    >) -> (r: bool)
        ensures
            r == !(cert_is_file && key_is_file && (match expiry_output {
                Some(out) => has_not_after(out@),
                None => false,
            })),
            !(cert_is_file && key_is_file) ==> r,
    {
        if !self.has_certificates(cert_is_file, key_is_file) {
            return true;
        }
        match expiry_output {
            Some(out) => {
                proof {
                    reveal_strlit("notAfter=");
                }
                !crate::text::starts_with(out, "notAfter=")
            },
            None => true,
        }
    }

    /// The argument list for obtaining a certificate: the webroot challenge
    /// method against `acme_webroot`, the domain and registration email,
    /// agreeing to the terms, non-interactively, with the certificate paths
    /// pointed into `cert_dir`.
    pub fn certbot_obtain_args(&self) -> (r: Vec<String>)
        ensures
            str_views(r@) == seq![
                "certonly"@,
                "--webroot"@,
                "--webroot-path"@,
                self.acme_webroot@,
                "--domain"@,
                self.domain@,
                "--email"@,
                self.email@,
                "--agree-tos"@,
                "--non-interactive"@,
                "--cert-path"@,
                self.cert_path@,
                "--key-path"@,
                self.key_path@,
                "--fullchain-path"@,
                self.cert_path@,
            ],
    {
        let mut r: Vec<String> = Vec::new();
        r.push(String::from_str("certonly"));
        r.push(String::from_str("--webroot"));
        r.push(String::from_str("--webroot-path"));
        r.push(self.acme_webroot.clone());
        r.push(String::from_str("--domain"));
        r.push(self.domain.clone());
        r.push(String::from_str("--email"));
        r.push(self.email.clone());
        r.push(String::from_str("--agree-tos"));
        r.push(String::from_str("--non-interactive"));
        r.push(String::from_str("--cert-path"));
        r.push(self.cert_path.clone());
        r.push(String::from_str("--key-path"));
        r.push(self.key_path.clone());
        r.push(String::from_str("--fullchain-path"));
        r.push(self.cert_path.clone());
        assert(str_views(r@) =~= seq![
            "certonly"@,
            "--webroot"@,
            "--webroot-path"@,
            self.acme_webroot@,
            "--domain"@,
            self.domain@,
            "--email"@,
            self.email@,
            "--agree-tos"@,
            "--non-interactive"@,
            "--cert-path"@,
            self.cert_path@,
            "--key-path"@,
            self.key_path@,
            "--fullchain-path"@,
            self.cert_path@,
        ]);
        r
    }

    /// The argument list for the renewal run.
    pub fn certbot_renew_args(&self) -> (r: Vec<String>)
        ensures
            str_views(r@) == seq!["renew"@, "--non-interactive"@, "--quiet"@],
    {
        let mut r: Vec<String> = Vec::new();
        r.push(String::from_str("renew"));
        r.push(String::from_str("--non-interactive"));
        r.push(String::from_str("--quiet"));
        assert(str_views(r@) =~= seq!["renew"@, "--non-interactive"@, "--quiet"@]);
        r
    }

    /// Interpret the obtain run: success is success, and a failure carries
    /// the agent's standard error in the message.
    pub fn obtain_result(&self, success: bool, stderr: &str) -> (r: Result<(), String>)
        ensures
            r is Ok <==> success,
            r matches Err(e) ==> e@ == "certbot failed: "@ + stderr@,
    {
        if success {
            Ok(())
        } else {
            let mut msg = String::from_str("certbot failed: ");
            msg.append(stderr);
            Err(msg)
        }
    }

    /// Interpret the renewal run, as `obtain_result` does.
    pub fn renew_result(&self, success: bool, stderr: &str) -> (r: Result<(), String>)
        ensures
            r is Ok <==> success,
            r matches Err(e) ==> e@ == "certbot renew failed: "@ + stderr@,
    {
        if success {
            Ok(())
        } else {
            let mut msg = String::from_str("certbot renew failed: ");
            msg.append(stderr);
            Err(msg)
        }
    }

    /// The ACME agent's canonical live directory for this domain.
    pub fn live_dir(&self) -> (r: String)
        ensures
            r@ == "/etc/letsencrypt/live/"@ + self.domain@,
    {
        let mut r = String::from_str("/etc/letsencrypt/live/");
        r.append(self.domain.as_str());
        r
    }

    /// The live-directory copy runs only when that directory exists and the
    /// destination is still empty — neither certificate file present: the
    /// copy is a best-effort initial materialization, never an overwrite.
    pub fn should_copy_live(&self, live_dir_is_dir: bool, cert_is_file: bool, key_is_file: bool)
        -> (r: bool)
        ensures
            r == (live_dir_is_dir && !cert_is_file && !key_is_file),
    {
        live_dir_is_dir && !cert_is_file && !key_is_file
    }

    /// The source/destination pairs of the live-directory copy.
    pub fn copy_pairs(&self) -> (r: Vec<(String, String)>)
        ensures
            r@.len() == 2,
            r@[0].0@ == "/etc/letsencrypt/live/"@ + self.domain@ + "/fullchain.pem"@,
            r@[0].1@ == self.cert_path@,
            r@[1].0@ == "/etc/letsencrypt/live/"@ + self.domain@ + "/privkey.pem"@,
            r@[1].1@ == self.key_path@,
    {
        let mut src_cert = self.live_dir();
        src_cert.append("/fullchain.pem");
        let mut src_key = self.live_dir();
        src_key.append("/privkey.pem");
        let mut r: Vec<(String, String)> = Vec::new();
        r.push((src_cert, self.cert_path.clone()));
        r.push((src_key, self.key_path.clone()));
        r
    }
}

/// The well-known certbot locations, in the order they are tried.
pub fn certbot_candidates() -> (r: Vec<String>)
    ensures
        str_views(r@) == certbot_candidate_model(),
{
    let mut r: Vec<String> = Vec::new();
    r.push(String::from_str("/usr/bin/certbot"));
    r.push(String::from_str("/usr/local/bin/certbot"));
    r.push(String::from_str("/snap/bin/certbot"));
    assert(str_views(r@) =~= certbot_candidate_model());
    r
}

/// Settle the certbot search, as `chosen_certbot` describes:
/// `candidate_is_file` reports, per well-known candidate, whether it is a
/// regular file, and `which_output` is the standard output of a successful
/// `PATH` lookup, or `None` when it failed.
pub fn choose_certbot(candidate_is_file: &Vec<bool>, which_output: Option<&str>) -> (r: Result<
    String,
    String,
>)
    requires
        candidate_is_file@.len() == 3,
    ensures
        r matches Ok(p) ==> chosen_certbot(candidate_is_file@, match which_output {
            Some(w) => Some(w@),
            None => None,
        }) == Some(p@),
        r is Err <==> chosen_certbot(candidate_is_file@, match which_output {
            Some(w) => Some(w@),
            None => None,
        }) is None,
        r matches Err(e) ==> e@ == "certbot not found. Install it with: sudo apt install certbot"@,
{
    let cands = certbot_candidates();
    proof {
        assert(str_views(cands@).len() == cands@.len());
        assert(certbot_candidate_model().len() == 3);
    }
    let mut i: usize = 0;
    while i < 3
        invariant
            cands@.len() == 3,
            str_views(cands@) == certbot_candidate_model(),
            candidate_is_file@.len() == 3,
            i <= 3,
            forall|m: int| 0 <= m < i ==> !candidate_is_file@[m],
        decreases 3 - i,
    {
        if candidate_is_file[i] {
            let p = cands[i].clone();
            assert(p@ == certbot_candidate_model()[i as int]);
            return Ok(p);
        }
        i = i + 1;
    }
    match which_output {
        Some(w) => {
            let t = trim(w);
            if t.unicode_len() > 0 {
                return Ok(String::from_str(t));
            }
        },
        None => {},
    }
    Err(String::from_str("certbot not found. Install it with: sudo apt install certbot"))
}

} // verus!
