use std::collections::HashSet;

use subdomain_distributor::config::{Config, EnvVars};
use subdomain_distributor::reservation::{
    finish_reservation, invalid_reservation_arg, is_free, plan_reservation, root_zone_path, zone_path,
};
use subdomain_distributor::validate::check_format;
use subdomain_distributor::{FieldName, Reserve, ReserveError, WriteOutcome};

fn cfg() -> Config {
    Config::load(EnvVars {
        hostname: None,
        port: None,
        domain: Some("example.com".to_string()),
        ttl: Some("3600".to_string()),
        soa_nameserver: Some("ns1.example.com".to_string()),
        soa_mailbox: Some("admin@example.com".to_string()),
        soa_refresh: Some("7200".to_string()),
        soa_retry: Some("1800".to_string()),
        soa_expire: Some("1209600".to_string()),
        soa_minimum_ttl: Some("300".to_string()),
        datadir: Some("/data".to_string()),
        zonesdir: None,
    })
    .ok()
    .unwrap()
}

fn req(user: &str, ipv4: Option<&str>, ipv6: Option<&str>) -> Reserve {
    Reserve { user: user.to_string(), ipv4: ipv4.map(|s| s.to_string()), ipv6: ipv6.map(|s| s.to_string()) }
}

/// Serves one request against a set of existing paths, as the server does
/// against the zones directory.
fn serve(files: &mut HashSet<String>, sub: &str, r: &Reserve) -> Result<(), ReserveError> {
    let c = cfg();
    let free = is_free(Some(files.contains(&zone_path(&c, sub))));
    let w = plan_reservation(&c, sub, r, free)?;
    let outcome = if files.contains(&w.path) {
        WriteOutcome::AlreadyExists
    } else {
        files.insert(w.path.clone());
        WriteOutcome::Created
    };
    finish_reservation(outcome)
}

fn available(files: &HashSet<String>, sub: &str) -> bool {
    is_free(Some(files.contains(&zone_path(&cfg(), sub))))
}

#[test]
fn paths_follow_the_naming_scheme() {
    assert_eq!(zone_path(&cfg(), "foo"), "/data/zones/db.foo.example.com");
    assert_eq!(root_zone_path(&cfg()), "/data/zones/db.example.com");
}

#[test]
fn label_length_boundaries() {
    let one = "a".to_string();
    let max = "a".repeat(63);
    let over = "a".repeat(64);
    assert_eq!(invalid_reservation_arg(&one, &req("u", None, None)), None);
    assert_eq!(invalid_reservation_arg(&max, &req("u", None, None)), None);
    assert_eq!(invalid_reservation_arg(&over, &req("u", None, None)), Some(FieldName::Subdomain));
    assert_eq!(invalid_reservation_arg("a-b", &req("u", None, None)), None);
    assert_eq!(invalid_reservation_arg("-ab", &req("u", None, None)), Some(FieldName::Subdomain));
    assert_eq!(invalid_reservation_arg("ab-", &req("u", None, None)), Some(FieldName::Subdomain));
    assert_eq!(invalid_reservation_arg("", &req("u", None, None)), Some(FieldName::Subdomain));
}

#[test]
fn user_is_unconstrained() {
    assert_eq!(invalid_reservation_arg("foo", &req("", None, None)), None);
    assert_eq!(invalid_reservation_arg("foo", &req("two\nlines", None, None)), None);
}

#[test]
fn address_formats() {
    assert_eq!(invalid_reservation_arg("foo", &req("u", Some("10.0.0.1"), None)), None);
    assert_eq!(invalid_reservation_arg("foo", &req("u", Some("256.0.0.1"), None)), Some(FieldName::Ipv4));
    assert_eq!(invalid_reservation_arg("foo", &req("u", Some("1.2.3"), None)), Some(FieldName::Ipv4));
    assert_eq!(invalid_reservation_arg("foo", &req("u", None, Some("::1"))), None);
    assert_eq!(invalid_reservation_arg("foo", &req("u", None, Some("2001:db8::ff00:42:8329"))), None);
    assert_eq!(invalid_reservation_arg("foo", &req("u", None, Some("::ffff:192.0.2.1"))), None);
}

#[test]
fn first_invalid_field_is_reported() {
    assert_eq!(
        invalid_reservation_arg("BAD_LABEL!", &req("x", Some("999.1.1.1"), Some("not-an-ip"))),
        Some(FieldName::Subdomain)
    );
    assert_eq!(invalid_reservation_arg("ok", &req("x", Some("999.1.1.1"), Some("not-an-ip"))), Some(FieldName::Ipv4));
}

#[test]
fn bad_label_is_rejected() {
    let mut files = HashSet::new();
    let e = serve(&mut files, "BAD_LABEL!", &req("x", None, None)).unwrap_err();
    assert_eq!(e, ReserveError::InvalidArgument(FieldName::Subdomain));
    assert_eq!(e.status(), 400);
    assert_eq!(e.message("BAD_LABEL!"), "Argument Subdomain does not satisfy the expected format.");
    assert!(files.is_empty());
}

#[test]
fn bad_ipv6_is_rejected() {
    let mut files = HashSet::new();
    let e = serve(&mut files, "foo", &req("x", Some("10.0.0.1"), Some("not-an-ip"))).unwrap_err();
    assert_eq!(e, ReserveError::InvalidArgument(FieldName::Ipv6));
    assert_eq!(e.message("foo"), "Argument ipv6 does not satisfy the expected format.");
    let e = serve(&mut files, "foo", &req("x", None, Some("not-an-ip"))).unwrap_err();
    assert_eq!(e, ReserveError::InvalidArgument(FieldName::Ipv6));
    assert_eq!(e.status(), 400);
}

#[test]
fn reserve_then_conflict() {
    let mut files = HashSet::new();
    assert!(available(&files, "foo"));
    assert_eq!(serve(&mut files, "foo", &req("bob", None, None)), Ok(()));
    assert!(!available(&files, "foo"));
    let e = serve(&mut files, "foo", &req("carol", None, None)).unwrap_err();
    assert_eq!(e, ReserveError::AlreadyReserved);
    assert_eq!(e.status(), 400);
    assert_eq!(e.message("foo"), "Subdomain foo already reserved.");
    assert!(available(&files, "bar"));
}

#[test]
fn failed_existence_check_counts_as_taken() {
    assert!(!is_free(None));
    assert!(!is_free(Some(true)));
    assert!(is_free(Some(false)));
    let e = plan_reservation(&cfg(), "foo", &req("bob", None, None), false).err();
    assert_eq!(e, Some(ReserveError::AlreadyReserved));
}

#[test]
fn plan_carries_path_and_content() {
    let w = plan_reservation(&cfg(), "foo", &req("bob", Some("10.0.0.1"), None), true).ok().unwrap();
    assert_eq!(w.path, "/data/zones/db.foo.example.com");
    assert!(w.content.starts_with("$ORIGIN foo.example.com.\n"));
    assert!(w.content.ends_with("\nuser 3600 IN TXT bob\n@ 3600 IN A 10.0.0.1\n* 3600 IN A 10.0.0.1"));
}

#[test]
fn write_outcomes() {
    assert_eq!(finish_reservation(WriteOutcome::Created), Ok(()));
    assert_eq!(finish_reservation(WriteOutcome::AlreadyExists), Err(ReserveError::AlreadyReserved));
    let e = finish_reservation(WriteOutcome::Failed).unwrap_err();
    assert_eq!(e, ReserveError::WriteFailed);
    assert_eq!(e.status(), 500);
    assert_eq!(e.message("foo"), "Could not reserve subdomain foo.");
}

#[test]
fn regex_wrappers_match_and_reject() {
    assert!(check_format("^a+$", "aaa"));
    assert!(!check_format("^a+$", "aab"));
    assert!(check_format("b", "abc"));
    assert!(!check_format("(", "("));
}
