//! Process-wide settings and their defaults.

use vstd::prelude::*;
use vstd::string::{StrSliceExecFns, StringExecFns};

verus! {

/// The setting that was required and not supplied.
#[derive(Clone, Copy, Debug, PartialEq, Eq, Structural)]
pub enum ConfigError {
    Domain,
    Ttl,
    SoaNameserver,
    SoaMailbox,
    SoaRefresh,
    SoaRetry,
    SoaExpire,
    SoaMinimumTtl,
}

pub open spec fn config_error_text(e: ConfigError) -> Seq<char> {
    match e {
        ConfigError::Domain => "No domain specified."@,
        ConfigError::Ttl => "No TTL specified."@,
        ConfigError::SoaNameserver => "No SOA nameserver specified."@,
        ConfigError::SoaMailbox => "No SOA mailbox specified."@,
        ConfigError::SoaRefresh => "No SOA refresh specified."@,
        ConfigError::SoaRetry => "No SOA retry specified."@,
        ConfigError::SoaExpire => "No SOA expire specified."@,
        ConfigError::SoaMinimumTtl => "No SOA minimum ttl specified."@,
    }
}

impl ConfigError {
    /// The text that reports the missing setting.
    pub fn message(&self) -> (r: String)
        ensures
            r@ == config_error_text(*self),
    {
        match self {
            ConfigError::Domain => String::from_str("No domain specified."),
            ConfigError::Ttl => String::from_str("No TTL specified."),
            ConfigError::SoaNameserver => String::from_str("No SOA nameserver specified."),
            ConfigError::SoaMailbox => String::from_str("No SOA mailbox specified."),
            ConfigError::SoaRefresh => String::from_str("No SOA refresh specified."),
            ConfigError::SoaRetry => String::from_str("No SOA retry specified."),
            ConfigError::SoaExpire => String::from_str("No SOA expire specified."),
            ConfigError::SoaMinimumTtl => String::from_str("No SOA minimum ttl specified."),
        }
    }
}

/// The raw settings as the process environment supplies them, each one
/// absent when it was not set.
pub struct EnvVars {
    pub hostname: Option<String>,
    pub port: Option<String>,
    pub domain: Option<String>,
    pub ttl: Option<String>,
    pub soa_nameserver: Option<String>,
    pub soa_mailbox: Option<String>,
    pub soa_refresh: Option<String>,
    pub soa_retry: Option<String>,
    pub soa_expire: Option<String>,
    pub soa_minimum_ttl: Option<String>,
    pub datadir: Option<String>,
    pub zonesdir: Option<String>,
}

/// Process-wide settings, read once at startup and then passed to every
/// component.
pub struct Config {
    pub hostname: String,
    pub port: String,
    pub domain: String,
    pub ttl: String,
    pub soa_nameserver: String,
    /// The SOA mailbox, already in its `.`-encoded form.
    pub soa_mailbox: String,
    pub soa_refresh: String,
    pub soa_retry: String,
    pub soa_expire: String,
    pub soa_minimum_ttl: String,
    pub datadir: String,
    pub zonesdir: String,
}

/// The view of an optional setting.
pub open spec fn opt_view(v: Option<String>) -> Option<Seq<char>> {
    match v {
        Some(s) => Some(s@),
        None => None,
    }
}

/// The value of a setting, or `default` when it is absent.
pub open spec fn or_default(v: Option<String>, default: Seq<char>) -> Seq<char> {
    match v {
        Some(s) => s@,
        None => default,
    }
}

/// A mailbox address in the form an SOA record carries it: each `@`
/// becomes `.`.
pub open spec fn mailbox_text(m: Seq<char>) -> Seq<char> {
    m.map_values(|c: char| if c == '@' { '.' } else { c })
}

/// `base` with the relative component `part` appended, as a path join does.
pub open spec fn path_join(base: Seq<char>, part: Seq<char>) -> Seq<char> {
    if base.len() == 0 || base.last() == '/' {
        base + part
    } else {
        base + seq!['/'] + part
    }
}

pub open spec fn default_datadir() -> Seq<char> {
    "/var/lib/subdomain-distributor"@
}

fn required(v: Option<String>, missing: ConfigError) -> (r: Result<String, ConfigError>)
    ensures
        match v {
            Some(s) => r matches Ok(x) && x@ == s@,
            None => r == Err::<String, ConfigError>(missing),
        },
{
    match v {
        Some(s) => Ok(s),
        None => Err(missing),
    }
}

/// The address to bind, `0.0.0.0` unless one is given.
pub fn hostname(v: Option<String>) -> (r: String)
    ensures
        r@ == or_default(v, "0.0.0.0"@),
{
    match v {
        Some(s) => s,
        None => String::from_str("0.0.0.0"),
    }
}

/// The port to listen on, `42923` unless one is given.
pub fn port(v: Option<String>) -> (r: String)
    ensures
        r@ == or_default(v, "42923"@),
{
    match v {
        Some(s) => s,
        None => String::from_str("42923"),
    }
}

/// The parent domain; required.
pub fn domain(v: Option<String>) -> (r: Result<String, ConfigError>)
    ensures
        match v {
            Some(s) => r matches Ok(x) && x@ == s@,
            None => r == Err::<String, ConfigError>(ConfigError::Domain),
        },
{
    required(v, ConfigError::Domain)
}

/// The TTL of every record; required.
pub fn ttl(v: Option<String>) -> (r: Result<String, ConfigError>)
    ensures
        match v {
            Some(s) => r matches Ok(x) && x@ == s@,
            None => r == Err::<String, ConfigError>(ConfigError::Ttl),
        },
{
    required(v, ConfigError::Ttl)
}

/// The SOA nameserver; required.
pub fn soa_nameserver(v: Option<String>) -> (r: Result<String, ConfigError>)
    ensures
        match v {
            Some(s) => r matches Ok(x) && x@ == s@,
            None => r == Err::<String, ConfigError>(ConfigError::SoaNameserver),
        },
{
    required(v, ConfigError::SoaNameserver)
}

/// The SOA mailbox, with each `@` turned into `.`; required.
pub fn soa_mailbox(v: Option<String>) -> (r: Result<String, ConfigError>)
    ensures
        match v {
            Some(s) => r matches Ok(x) && x@ == mailbox_text(s@),
            None => r == Err::<String, ConfigError>(ConfigError::SoaMailbox),
        },
{
    match v {
        Some(s) => {
            let mut out = String::new();
            let mut i: usize = 0;
            let n = s.as_str().unicode_len();
            while i < n
                invariant
                    n == s@.len(),
                    i <= n,
                    out@ == mailbox_text(s@.take(i as int)),
                decreases n - i,
            {
                let c = s.as_str().get_char(i);
                proof {
                    reveal_strlit(".");
                }
                if c == '@' {
                    out.append(".");
                } else {
                    out.append(s.as_str().substring_char(i, i + 1));
                }
                assert(mailbox_text(s@.take(i as int + 1)) =~= mailbox_text(s@.take(i as int)).push(
                    if c == '@' { '.' } else { c },
                ));
                i = i + 1;
            }
            assert(s@.take(n as int) =~= s@);
            Ok(out)
        },
        None => Err(ConfigError::SoaMailbox),
    }
}

} // verus!

verus! {

/// The SOA refresh interval; required.
pub fn soa_refresh(v: Option<String>) -> (r: Result<String, ConfigError>)
    ensures
        match v {
            Some(s) => r matches Ok(x) && x@ == s@,
            None => r == Err::<String, ConfigError>(ConfigError::SoaRefresh),
        },
{
    required(v, ConfigError::SoaRefresh)
}

/// The SOA retry interval; required.
pub fn soa_retry(v: Option<String>) -> (r: Result<String, ConfigError>)
    ensures
        match v {
            Some(s) => r matches Ok(x) && x@ == s@,
            None => r == Err::<String, ConfigError>(ConfigError::SoaRetry),
        },
{
    required(v, ConfigError::SoaRetry)
}

/// The SOA expiry; required.
pub fn soa_expire(v: Option<String>) -> (r: Result<String, ConfigError>)
    ensures
        match v {
            Some(s) => r matches Ok(x) && x@ == s@,
            None => r == Err::<String, ConfigError>(ConfigError::SoaExpire),
        },
{
    required(v, ConfigError::SoaExpire)
}

/// The SOA minimum TTL; required.
pub fn soa_minimum_ttl(v: Option<String>) -> (r: Result<String, ConfigError>)
    ensures
        match v {
            Some(s) => r matches Ok(x) && x@ == s@,
            None => r == Err::<String, ConfigError>(ConfigError::SoaMinimumTtl),
        },
{
    required(v, ConfigError::SoaMinimumTtl)
}

/// The data directory, `/var/lib/subdomain-distributor` unless one is given.
pub fn datadir(v: Option<String>) -> (r: String)
    ensures
        r@ == or_default(v, default_datadir()),
{
    match v {
        Some(s) => s,
        None => String::from_str("/var/lib/subdomain-distributor"),
    }
}

/// `base` joined with the relative component `part`.
pub fn join_path(base: &str, part: &str) -> (r: String)
    ensures
        r@ == path_join(base@, part@),
{
    let n = base.unicode_len();
    let mut out = String::from_str(base);
    if n > 0 && base.get_char(n - 1) != '/' {
        proof {
            reveal_strlit("/");
        }
        out.append("/");
    }
    out.append(part);
    out
}

/// The zones directory: the one given, else `zones` inside `datadir`.
pub fn zonesdir(v: Option<String>, datadir: &str) -> (r: String)
    ensures
        r@ == match v {
            Some(s) => s@,
            None => path_join(datadir@, "zones"@),
        },
{
    match v {
        Some(s) => s,
        None => join_path(datadir, "zones"),
    }
}

/// The first required setting, in the order below, that `vars` lacks.
pub open spec fn first_missing(vars: EnvVars) -> Option<ConfigError> {
    if vars.domain is None {
        Some(ConfigError::Domain)
    } else if vars.ttl is None {
        Some(ConfigError::Ttl)
    } else if vars.soa_nameserver is None {
        Some(ConfigError::SoaNameserver)
    } else if vars.soa_mailbox is None {
        Some(ConfigError::SoaMailbox)
    } else if vars.soa_refresh is None {
        Some(ConfigError::SoaRefresh)
    } else if vars.soa_retry is None {
        Some(ConfigError::SoaRetry)
    } else if vars.soa_expire is None {
        Some(ConfigError::SoaExpire)
    } else if vars.soa_minimum_ttl is None {
        Some(ConfigError::SoaMinimumTtl)
    } else {
        None
    }
}

/// The configuration that `vars` describe, all of them present.
pub open spec fn config_of(c: Config, vars: EnvVars) -> bool {
    &&& c.hostname@ == or_default(vars.hostname, "0.0.0.0"@)
    &&& c.port@ == or_default(vars.port, "42923"@)
    &&& Some(c.domain@) == opt_view(vars.domain)
    &&& Some(c.ttl@) == opt_view(vars.ttl)
    &&& Some(c.soa_nameserver@) == opt_view(vars.soa_nameserver)
    &&& vars.soa_mailbox is Some && c.soa_mailbox@ == mailbox_text(vars.soa_mailbox->0@)
    &&& Some(c.soa_refresh@) == opt_view(vars.soa_refresh)
    &&& Some(c.soa_retry@) == opt_view(vars.soa_retry)
    &&& Some(c.soa_expire@) == opt_view(vars.soa_expire)
    &&& Some(c.soa_minimum_ttl@) == opt_view(vars.soa_minimum_ttl)
    &&& c.datadir@ == or_default(vars.datadir, default_datadir())
    &&& c.zonesdir@ == match vars.zonesdir {
        Some(z) => z@,
        None => path_join(c.datadir@, "zones"@),
    }
}

impl Config {
    /// Builds the configuration from the raw settings; fails on the first
    /// required one that is missing.
    pub fn load(vars: EnvVars) -> (r: Result<Config, ConfigError>)
        ensures
            match first_missing(vars) {
                Some(e) => r == Err::<Config, ConfigError>(e),
                None => r matches Ok(c) && config_of(c, vars),
            },
    {
        let ghost g = vars;
        let EnvVars {
            hostname: v_hostname,
            port: v_port,
            domain: v_domain,
            ttl: v_ttl,
            soa_nameserver: v_ns,
            soa_mailbox: v_mailbox,
            soa_refresh: v_refresh,
            soa_retry: v_retry,
            soa_expire: v_expire,
            soa_minimum_ttl: v_minimum,
            datadir: v_datadir,
            zonesdir: v_zonesdir,
        } = vars;
        let domain = match domain(v_domain) {
            Ok(x) => x,
            Err(e) => return Err(e),
        };
        let ttl = match ttl(v_ttl) {
            Ok(x) => x,
            Err(e) => return Err(e),
        };
        let soa_nameserver = match soa_nameserver(v_ns) {
            Ok(x) => x,
            Err(e) => return Err(e),
        };
        let soa_mailbox = match soa_mailbox(v_mailbox) {
            Ok(x) => x,
            Err(e) => return Err(e),
        };
        let soa_refresh = match soa_refresh(v_refresh) {
            Ok(x) => x,
            Err(e) => return Err(e),
        };
        let soa_retry = match soa_retry(v_retry) {
            Ok(x) => x,
            Err(e) => return Err(e),
        };
        let soa_expire = match soa_expire(v_expire) {
            Ok(x) => x,
            Err(e) => return Err(e),
        };
        let soa_minimum_ttl = match soa_minimum_ttl(v_minimum) {
            Ok(x) => x,
            Err(e) => return Err(e),
        };
        let datadir = datadir(v_datadir);
        let zonesdir = zonesdir(v_zonesdir, datadir.as_str());
        Ok(Config {
            hostname: hostname(v_hostname),
            port: port(v_port),
            domain,
            ttl,
            soa_nameserver,
            soa_mailbox,
            soa_refresh,
            soa_retry,
            soa_expire,
            soa_minimum_ttl,
            datadir,
            zonesdir,
        })
    }
}

} // verus!
