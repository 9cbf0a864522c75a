//! Zone file rendering: origin, SOA and resource-record lines.

use vstd::prelude::*;
use vstd::string::StringExecFns;
use chrono::{Datelike, Timelike};
use crate::config::Config;
use crate::text::{digit_str, join_lines, join_lines_exec, push_two_digits, short_digits, two_digits};

verus! {

/// The moment a zone file is rendered, in UTC, as the calendar fields that
/// its SOA serial is made of.
#[derive(Clone, Copy, Debug, PartialEq, Eq)]
pub struct SerialTime {
    pub year: i32,
    pub month: u32,
    pub day: u32,
    pub hour: u32,
    pub minute: u32,
}

impl SerialTime {
    /// The ranges that calendar fields of a UTC instant fall in.
    pub open spec fn wf(self) -> bool {
        &&& 1 <= self.month <= 12
        &&& 1 <= self.day <= 31
        &&& self.hour < 24
        &&& self.minute < 60
    }
}

/// Relies on chrono::Utc::now for the current instant, read through
/// chrono's Datelike and Timelike accessors, whose documentation gives the
/// ranges below.
#[verifier::external_body]
pub(crate) fn utc_now() -> (t: SerialTime)
    ensures
        t.wf(),
{
    let now = chrono::Utc::now();
    SerialTime {
        year: now.year(),
        month: now.month(),
        day: now.day(),
        hour: now.hour(),
        minute: now.minute(),
    }
}

/// The year's last two digits as `{:02}` prints `year % 100` (Rust's
/// remainder keeps the sign of the year).
pub open spec fn year_digits(year: int) -> Seq<char> {
    if year >= 0 {
        two_digits((year % 100) as nat)
    } else if (-year) % 100 == 0 {
        two_digits(0)
    } else {
        seq!['-'] + short_digits(((-year) % 100) as nat)
    }
}

/// The SOA serial `YYMMDDHHMM` of an instant.
pub open spec fn serial_text(t: SerialTime) -> Seq<char> {
    year_digits(t.year as int) + two_digits(t.month as nat) + two_digits(t.day as nat)
        + two_digits(t.hour as nat) + two_digits(t.minute as nat)
}

/// The SOA serial `YYMMDDHHMM` of `t`.
pub fn serial(t: SerialTime) -> (r: String)
    requires
        t.wf(),
    ensures
        r@ == serial_text(t),
{
    let mut s = String::new();
    if t.year >= 0 {
        push_two_digits(&mut s, (t.year % 100) as u32);
    } else {
        let m: u32 = ((0i64 - t.year as i64) % 100) as u32;
        if m == 0 {
            push_two_digits(&mut s, 0);
        } else {
            proof {
                reveal_strlit("-");
            }
            s.append("-");
            if m < 10 {
                s.append(digit_str(m));
            } else {
                push_two_digits(&mut s, m);
            }
        }
    }
    assert(s@ == year_digits(t.year as int));
    push_two_digits(&mut s, t.month);
    push_two_digits(&mut s, t.day);
    push_two_digits(&mut s, t.hour);
    push_two_digits(&mut s, t.minute);
    s
}

} // verus!

verus! {

/// The `$ORIGIN` line of the zone for `domain`.
pub open spec fn origin_text(domain: Seq<char>) -> Seq<char> {
    "$ORIGIN "@ + domain + "."@
}

/// One resource record line.
pub open spec fn record_text(ttl: Seq<char>, zone: Seq<char>, ty: Seq<char>, value: Seq<char>) -> Seq<char> {
    zone + " "@ + ttl + " IN "@ + ty + " "@ + value
}

/// The SOA line rendered at instant `t`.
pub open spec fn soa_text(cfg: Config, t: SerialTime) -> Seq<char> {
    "@ "@ + cfg.ttl@ + " IN SOA "@ + cfg.soa_nameserver@ + ". "@ + cfg.soa_mailbox@ + ". "@
        + serial_text(t) + " "@ + cfg.soa_refresh@ + " "@ + cfg.soa_retry@ + " "@
        + cfg.soa_expire@ + " "@ + cfg.soa_minimum_ttl@
}

/// The zone file of the parent domain rendered at instant `t`: origin, SOA
/// and one NS record naming the nameserver.
pub open spec fn main_zone_text(cfg: Config, t: SerialTime) -> Seq<char> {
    origin_text(cfg.domain@) + "\n"@ + soa_text(cfg, t) + "\n"@ + record_text(
        cfg.ttl@,
        "@"@,
        "NS"@,
        cfg.soa_nameserver@ + "."@,
    )
}

pub open spec fn opt_str_view(o: Option<&str>) -> Option<Seq<char>> {
    match o {
        Some(s) => Some(s@),
        None => None,
    }
}

/// The two records, at `@` and at `*`, of type `ty` for an optional address.
pub open spec fn address_records(ttl: Seq<char>, ty: Seq<char>, addr: Option<Seq<char>>) -> Seq<Seq<char>> {
    match addr {
        Some(a) => seq![record_text(ttl, "@"@, ty, a), record_text(ttl, "*"@, ty, a)],
        None => Seq::empty(),
    }
}

/// The records of a reserved subdomain, in their fixed order: the user's
/// TXT record, then the IPv4 pair, then the IPv6 pair.
pub open spec fn subdomain_records(
    ttl: Seq<char>,
    user: Seq<char>,
    ipv4: Option<Seq<char>>,
    ipv6: Option<Seq<char>>,
) -> Seq<Seq<char>> {
    seq![record_text(ttl, "user"@, "TXT"@, user)] + address_records(ttl, "A"@, ipv4)
        + address_records(ttl, "AAAA"@, ipv6)
}

/// The zone file of a reserved subdomain rendered at instant `t`.
pub open spec fn subdomain_zone_text(
    cfg: Config,
    subdomain: Seq<char>,
    user: Seq<char>,
    ipv4: Option<Seq<char>>,
    ipv6: Option<Seq<char>>,
    t: SerialTime,
) -> Seq<char> {
    origin_text(subdomain + "."@ + cfg.domain@) + "\n"@ + soa_text(cfg, t) + "\n"@ + join_lines(
        subdomain_records(cfg.ttl@, user, ipv4, ipv6),
    )
}

/// The `$ORIGIN` line for `domain`.
pub fn origin(domain: &str) -> (r: String)
    ensures
        r@ == origin_text(domain@),
{
    let mut s = String::from_str("$ORIGIN ");
    s.append(domain);
    s.append(".");
    s
}

/// A record line `{zone} {ttl} IN {record_type} {record_value}`.
pub fn record(cfg: &Config, zone: &str, record_type: &str, record_value: &str) -> (r: String)
    ensures
        r@ == record_text(cfg.ttl@, zone@, record_type@, record_value@),
{
    let mut s = String::from_str(zone);
    s.append(" ");
    s.append(cfg.ttl.as_str());
    s.append(" IN ");
    s.append(record_type);
    s.append(" ");
    s.append(record_value);
    s
}

/// The SOA line for the serial of instant `t`.
pub fn soa_at(cfg: &Config, t: SerialTime) -> (r: String)
    requires
        t.wf(),
    ensures
        r@ == soa_text(*cfg, t),
{
    let mut s = String::from_str("@ ");
    s.append(cfg.ttl.as_str());
    s.append(" IN SOA ");
    s.append(cfg.soa_nameserver.as_str());
    s.append(". ");
    s.append(cfg.soa_mailbox.as_str());
    s.append(". ");
    s.append(serial(t).as_str());
    s.append(" ");
    s.append(cfg.soa_refresh.as_str());
    s.append(" ");
    s.append(cfg.soa_retry.as_str());
    s.append(" ");
    s.append(cfg.soa_expire.as_str());
    s.append(" ");
    s.append(cfg.soa_minimum_ttl.as_str());
    s
}

/// The SOA line, its serial taken from the current UTC time.
pub fn soa(cfg: &Config) -> (r: String)
    ensures
        exists|t: SerialTime| t.wf() && r@ == soa_text(*cfg, t),
{
    let t = utc_now();
    soa_at(cfg, t)
}

/// The zone file of the parent domain, rendered at instant `t`.
pub fn main_file_at(cfg: &Config, t: SerialTime) -> (r: String)
    requires
        t.wf(),
    ensures
        r@ == main_zone_text(*cfg, t),
{
    let mut s = origin(cfg.domain.as_str());
    s.append("\n");
    s.append(soa_at(cfg, t).as_str());
    s.append("\n");
    let mut ns = cfg.soa_nameserver.clone();
    ns.append(".");
    s.append(record(cfg, "@", "NS", ns.as_str()).as_str());
    s
}

/// The zone file of the parent domain, rendered now.
pub fn main_file(cfg: &Config) -> (r: String)
    ensures
        exists|t: SerialTime| t.wf() && r@ == main_zone_text(*cfg, t),
{
    let t = utc_now();
    main_file_at(cfg, t)
}

/// The zone file of reserved `subdomain`, rendered at instant `t`.
pub fn subdomain_file_at(
    cfg: &Config,
    subdomain: &str,
    user: &str,
    ipv4: Option<&str>,
    ipv6: Option<&str>,
    t: SerialTime,
) -> (r: String)
    requires
        t.wf(),
    ensures
        r@ == subdomain_zone_text(*cfg, subdomain@, user@, opt_str_view(ipv4), opt_str_view(ipv6), t),
{
    let mut records: Vec<String> = Vec::new();
    records.push(record(cfg, "user", "TXT", user));
    if let Some(a) = ipv4 {
        records.push(record(cfg, "@", "A", a));
        records.push(record(cfg, "*", "A", a));
    }
    if let Some(a) = ipv6 {
        records.push(record(cfg, "@", "AAAA", a));
        records.push(record(cfg, "*", "AAAA", a));
    }
    assert(records@.map_values(|l: String| l@) =~= subdomain_records(
        cfg.ttl@,
        user@,
        opt_str_view(ipv4),
        opt_str_view(ipv6),
    ));
    let mut name = String::from_str(subdomain);
    name.append(".");
    name.append(cfg.domain.as_str());
    let mut s = origin(name.as_str());
    s.append("\n");
    s.append(soa_at(cfg, t).as_str());
    s.append("\n");
    s.append(join_lines_exec(&records).as_str());
    s
}

/// The zone file of reserved `subdomain`, rendered now.
pub fn subdomain_file(
    cfg: &Config,
    subdomain: &str,
    user: &str,
    ipv4: Option<&str>,
    ipv6: Option<&str>,
) -> (r: String)
    ensures
        exists|t: SerialTime|
            t.wf() && r@ == subdomain_zone_text(
                *cfg,
                subdomain@,
                user@,
                opt_str_view(ipv4),
                opt_str_view(ipv6),
                t,
            ),
{
    let t = utc_now();
    subdomain_file_at(cfg, subdomain, user, ipv4, ipv6, t)
}

} // verus!

verus! {

/// A reservation carrying a user and an IPv4 address only gets three
/// records, in this order: the user's TXT record, then the A records at `@`
/// and at `*`, one per line.
pub proof fn lemma_ipv4_only_records(ttl: Seq<char>, user: Seq<char>, ipv4: Seq<char>)
    ensures
        subdomain_records(ttl, user, Some(ipv4), None) == seq![
            record_text(ttl, "user"@, "TXT"@, user),
            record_text(ttl, "@"@, "A"@, ipv4),
            record_text(ttl, "*"@, "A"@, ipv4),
        ],
        join_lines(subdomain_records(ttl, user, Some(ipv4), None)) == record_text(ttl, "user"@, "TXT"@, user)
            + "\n"@ + record_text(ttl, "@"@, "A"@, ipv4) + "\n"@ + record_text(ttl, "*"@, "A"@, ipv4),
{
    let recs = subdomain_records(ttl, user, Some(ipv4), None);
    assert(recs =~= seq![
        record_text(ttl, "user"@, "TXT"@, user),
        record_text(ttl, "@"@, "A"@, ipv4),
        record_text(ttl, "*"@, "A"@, ipv4),
    ]);
    assert(recs.drop_last().drop_last() =~= seq![record_text(ttl, "user"@, "TXT"@, user)]);
    reveal_with_fuel(join_lines, 3);
    assert("\n"@ == seq!['\n']) by {
        reveal_strlit("\n");
    }
}

} // verus!
