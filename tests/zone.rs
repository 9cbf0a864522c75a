use subdomain_distributor::config::{join_path, Config, ConfigError, EnvVars};
use subdomain_distributor::coredns::{main_file_at, serial, soa_at, subdomain_file_at};
use subdomain_distributor::{
    datadir, domain, hostname, main_file, origin, port, record, soa, soa_mailbox, subdomain_file,
    zonesdir, SerialTime,
};

fn vars() -> EnvVars {
    EnvVars {
        hostname: None,
        port: None,
        domain: Some("example.com".to_string()),
        ttl: Some("3600".to_string()),
        soa_nameserver: Some("ns1.example.com".to_string()),
        soa_mailbox: Some("admin@example.com".to_string()),
        soa_refresh: Some("7200".to_string()),
        soa_retry: Some("1800".to_string()),
        soa_expire: Some("1209600".to_string()),
        soa_minimum_ttl: Some("300".to_string()),
        datadir: None,
        zonesdir: None,
    }
}

fn cfg() -> Config {
    Config::load(vars()).ok().unwrap()
}

fn at() -> SerialTime {
    SerialTime { year: 2024, month: 3, day: 7, hour: 9, minute: 5 }
}

#[test]
fn defaults_apply_when_unset() {
    assert_eq!(hostname(None), "0.0.0.0");
    assert_eq!(port(None), "42923");
    assert_eq!(hostname(Some("127.0.0.1".to_string())), "127.0.0.1");
    assert_eq!(port(Some("8080".to_string())), "8080");
    assert_eq!(datadir(None), "/var/lib/subdomain-distributor");
    assert_eq!(zonesdir(None, "/var/lib/subdomain-distributor"), "/var/lib/subdomain-distributor/zones");
    assert_eq!(zonesdir(Some("/srv/zones".to_string()), "/data"), "/srv/zones");
}

#[test]
fn path_join_adds_one_separator() {
    assert_eq!(join_path("/data/", "zones"), "/data/zones");
    assert_eq!(join_path("/data", "zones"), "/data/zones");
    assert_eq!(join_path("", "zones"), "zones");
}

#[test]
fn required_settings_fail_when_missing() {
    assert_eq!(domain(None), Err(ConfigError::Domain));
    assert_eq!(domain(Some("example.com".to_string())), Ok("example.com".to_string()));
    let mut v = vars();
    v.ttl = None;
    v.soa_expire = None;
    assert_eq!(Config::load(v).err(), Some(ConfigError::Ttl));
    assert_eq!(ConfigError::Ttl.message(), "No TTL specified.");
    assert_eq!(ConfigError::SoaMinimumTtl.message(), "No SOA minimum ttl specified.");
}

#[test]
fn mailbox_at_sign_becomes_dot() {
    assert_eq!(soa_mailbox(Some("admin@example.com".to_string())), Ok("admin.example.com".to_string()));
    assert_eq!(soa_mailbox(Some("a@b@c".to_string())), Ok("a.b.c".to_string()));
    assert_eq!(soa_mailbox(None), Err(ConfigError::SoaMailbox));
}

#[test]
fn load_fills_every_setting() {
    let c = cfg();
    assert_eq!(c.hostname, "0.0.0.0");
    assert_eq!(c.soa_mailbox, "admin.example.com");
    assert_eq!(c.zonesdir, "/var/lib/subdomain-distributor/zones");
    let mut v = vars();
    v.datadir = Some("/data".to_string());
    assert_eq!(Config::load(v).ok().unwrap().zonesdir, "/data/zones");
}

#[test]
fn origin_and_record_lines() {
    assert_eq!(origin("foo.example.com"), "$ORIGIN foo.example.com.");
    assert_eq!(record(&cfg(), "user", "TXT", "alice"), "user 3600 IN TXT alice");
}

#[test]
fn serial_is_two_digit_fields() {
    assert_eq!(serial(at()), "2403070905");
    assert_eq!(serial(SerialTime { year: 2000, month: 12, day: 31, hour: 23, minute: 59 }), "0012312359");
    assert_eq!(serial(SerialTime { year: -5, month: 1, day: 1, hour: 0, minute: 0 }), "-501010000");
    assert_eq!(serial(SerialTime { year: -1926, month: 1, day: 1, hour: 0, minute: 0 }), "-2601010000");
}

#[test]
fn soa_line_exact() {
    assert_eq!(
        soa_at(&cfg(), at()),
        "@ 3600 IN SOA ns1.example.com. admin.example.com. 2403070905 7200 1800 1209600 300"
    );
}

#[test]
fn soa_now_has_a_ten_digit_serial() {
    let line = soa(&cfg());
    let parts: Vec<&str> = line.split(' ').collect();
    assert_eq!(parts.len(), 11);
    assert_eq!(parts[6].len(), 10);
    assert!(parts[6].chars().all(|c| c.is_ascii_digit()));
    assert_ne!(parts[6], "0000000000");
}

#[test]
fn root_zone_exact() {
    assert_eq!(
        main_file_at(&cfg(), at()),
        "$ORIGIN example.com.\n@ 3600 IN SOA ns1.example.com. admin.example.com. 2403070905 7200 1800 1209600 300\n@ 3600 IN NS ns1.example.com."
    );
    let now = main_file(&cfg());
    assert!(now.starts_with("$ORIGIN example.com.\n@ 3600 IN SOA "));
    assert!(now.ends_with("\n@ 3600 IN NS ns1.example.com."));
}

#[test]
fn subdomain_zone_with_ipv4_only() {
    let text = subdomain_file_at(&cfg(), "foo", "alice", Some("10.0.0.1"), None, at());
    let lines: Vec<&str> = text.split('\n').collect();
    assert_eq!(
        lines,
        vec![
            "$ORIGIN foo.example.com.",
            "@ 3600 IN SOA ns1.example.com. admin.example.com. 2403070905 7200 1800 1209600 300",
            "user 3600 IN TXT alice",
            "@ 3600 IN A 10.0.0.1",
            "* 3600 IN A 10.0.0.1",
        ]
    );
}

#[test]
fn subdomain_zone_record_order() {
    let text = subdomain_file_at(&cfg(), "foo", "bob", Some("10.0.0.1"), Some("::1"), at());
    let lines: Vec<&str> = text.split('\n').collect();
    assert_eq!(&lines[2..], &["user 3600 IN TXT bob", "@ 3600 IN A 10.0.0.1", "* 3600 IN A 10.0.0.1", "@ 3600 IN AAAA ::1", "* 3600 IN AAAA ::1"]);
    let bare = subdomain_file(&cfg(), "bar", "carol", None, None);
    let lines: Vec<&str> = bare.split('\n').collect();
    assert_eq!(lines.len(), 3);
    assert_eq!(lines[0], "$ORIGIN bar.example.com.");
    assert_eq!(lines[2], "user 3600 IN TXT carol");
}
