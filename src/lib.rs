//! Reservation of DNS subdomains under a parent domain, each reservation
//! materialised as a zone file.
//!
//! The library holds the verified logic: configuration defaults, the
//! rendering of zone files, the validation of reservation requests and the
//! decisions taken around the filesystem. Reading the environment, touching
//! the disk and serving HTTP are left to the caller.

pub mod config;
pub mod coredns;
pub mod reservation;
pub mod text;
pub mod validate;

pub use config::{
    datadir, domain, hostname, port, soa_expire, soa_mailbox, soa_minimum_ttl, soa_nameserver,
    soa_refresh, soa_retry, ttl, zonesdir, Config, ConfigError, EnvVars,
};
pub use coredns::{main_file, origin, record, soa, subdomain_file, SerialTime};
pub use reservation::{Reserve, ReserveError, WriteOutcome, ZoneWrite};
pub use validate::FieldName;
