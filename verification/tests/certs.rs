use rust_proxy::certs::{certbot_candidates, choose_certbot, CertManager};

fn manager() -> CertManager {
    CertManager::new(
        String::from("example.com"),
        String::from("admin@example.com"),
        String::from("/opt/app"),
    )
}

#[test]
fn paths_derived_from_base_and_domain() {
    let m = manager();
    assert_eq!(m.domain, "example.com");
    assert_eq!(m.email, "admin@example.com");
    assert_eq!(m.cert_dir, "/opt/app/certs/example.com");
    assert_eq!(m.cert_path, "/opt/app/certs/example.com/fullchain.pem");
    assert_eq!(m.key_path, "/opt/app/certs/example.com/privkey.pem");
    assert_eq!(m.acme_webroot, "/opt/app/acme-webroot");
}

#[test]
fn certificates_present_only_when_both_files_exist() {
    let m = manager();
    assert!(m.has_certificates(true, true));
    assert!(!m.has_certificates(true, false));
    assert!(!m.has_certificates(false, true));
    assert!(!m.has_certificates(false, false));
}

#[test]
fn renewal_needed_when_either_file_is_absent() {
    let m = manager();
    let good = "notAfter=Jan  1 00:00:00 2030 GMT";
    assert!(m.needs_renewal(false, false, Some(good)));
    assert!(m.needs_renewal(false, true, Some(good)));
    assert!(m.needs_renewal(true, false, Some(good)));
    assert!(!m.needs_renewal(true, true, Some(good)));
}

#[test]
fn renewal_needed_when_probe_fails_or_is_unparseable() {
    let m = manager();
    assert!(m.needs_renewal(true, true, None));
    assert!(m.needs_renewal(true, true, Some("unexpected output")));
    assert!(m.needs_renewal(true, true, Some("")));
}

#[test]
fn obtain_arguments() {
    let m = manager();
    let args = m.certbot_obtain_args();
    assert_eq!(
        args,
        vec![
            "certonly",
            "--webroot",
            "--webroot-path",
            "/opt/app/acme-webroot",
            "--domain",
            "example.com",
            "--email",
            "admin@example.com",
            "--agree-tos",
            "--non-interactive",
            "--cert-path",
            "/opt/app/certs/example.com/fullchain.pem",
            "--key-path",
            "/opt/app/certs/example.com/privkey.pem",
            "--fullchain-path",
            "/opt/app/certs/example.com/fullchain.pem",
        ]
    );
}

#[test]
fn renew_arguments() {
    let m = manager();
    assert_eq!(m.certbot_renew_args(), vec!["renew", "--non-interactive", "--quiet"]);
}

#[test]
fn run_outcomes_carry_stderr() {
    let m = manager();
    assert!(m.obtain_result(true, "").is_ok());
    assert_eq!(
        m.obtain_result(false, "boom").unwrap_err(),
        "certbot failed: boom"
    );
    assert!(m.renew_result(true, "").is_ok());
    assert_eq!(
        m.renew_result(false, "boom").unwrap_err(),
        "certbot renew failed: boom"
    );
}

#[test]
fn live_copy_decisions() {
    let m = manager();
    assert!(m.should_copy_live(true, false, false));
    assert!(!m.should_copy_live(true, true, false));
    assert!(!m.should_copy_live(true, false, true));
    assert!(!m.should_copy_live(true, true, true));
    assert!(!m.should_copy_live(false, false, false));
    let pairs = m.copy_pairs();
    assert_eq!(pairs.len(), 2);
    assert_eq!(pairs[0].0, "/etc/letsencrypt/live/example.com/fullchain.pem");
    assert_eq!(pairs[0].1, "/opt/app/certs/example.com/fullchain.pem");
    assert_eq!(pairs[1].0, "/etc/letsencrypt/live/example.com/privkey.pem");
    assert_eq!(pairs[1].1, "/opt/app/certs/example.com/privkey.pem");
}

#[test]
fn certbot_search_order() {
    assert_eq!(
        certbot_candidates(),
        vec!["/usr/bin/certbot", "/usr/local/bin/certbot", "/snap/bin/certbot"]
    );
    assert_eq!(
        choose_certbot(&vec![true, true, true], None).unwrap(),
        "/usr/bin/certbot"
    );
    assert_eq!(
        choose_certbot(&vec![false, true, true], None).unwrap(),
        "/usr/local/bin/certbot"
    );
    assert_eq!(
        choose_certbot(&vec![false, false, true], None).unwrap(),
        "/snap/bin/certbot"
    );
}

#[test]
fn certbot_falls_back_to_path_lookup() {
    assert_eq!(
        choose_certbot(&vec![false, false, false], Some("/home/u/bin/certbot\n")).unwrap(),
        "/home/u/bin/certbot"
    );
    assert_eq!(
        choose_certbot(&vec![false, false, false], Some("  \n")).unwrap_err(),
        "certbot not found. Install it with: sudo apt install certbot"
    );
    assert_eq!(
        choose_certbot(&vec![false, false, false], None).unwrap_err(),
        "certbot not found. Install it with: sudo apt install certbot"
    );
}
