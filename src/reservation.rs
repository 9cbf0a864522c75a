//! The decisions around a reservation: which argument is invalid, where a
//! zone file lives, whether a subdomain is free, and what a request comes to.

use vstd::prelude::*;
use vstd::string::StringExecFns;
use crate::config::{path_join, Config};
use crate::coredns::{opt_str_view, subdomain_file_at, subdomain_zone_text, utc_now, SerialTime};
use crate::validate::{first_invalid, invalid_arg, satisfies, Field, FieldName, field_views};

verus! {

/// A reservation request: who reserves, and the optional addresses that the
/// subdomain should resolve to.
pub struct Reserve {
    pub user: String,
    pub ipv4: Option<String>,
    pub ipv6: Option<String>,
}

pub open spec fn opt_string_view(o: Option<String>) -> Option<Seq<char>> {
    match o {
        Some(s) => Some(s@),
        None => None,
    }
}

/// Why a reservation was refused.
#[derive(Clone, Copy, Debug, PartialEq, Eq, Structural)]
pub enum ReserveError {
    /// An argument does not satisfy its format.
    InvalidArgument(FieldName),
    /// A zone file for the subdomain exists already.
    AlreadyReserved,
    /// The zone file could not be written.
    WriteFailed,
}

pub open spec fn reserve_error_text(e: ReserveError, subdomain: Seq<char>) -> Seq<char> {
    match e {
        ReserveError::InvalidArgument(n) => "Argument "@ + n.label_spec()
            + " does not satisfy the expected format."@,
        ReserveError::AlreadyReserved => "Subdomain "@ + subdomain + " already reserved."@,
        ReserveError::WriteFailed => "Could not reserve subdomain "@ + subdomain + "."@,
    }
}

pub open spec fn reserve_error_status(e: ReserveError) -> u16 {
    match e {
        ReserveError::WriteFailed => 500,
        _ => 400,
    }
}

impl ReserveError {
    /// The text reported to the client for a refused reservation of
    /// `subdomain`.
    pub fn message(&self, subdomain: &str) -> (r: String)
        ensures
            r@ == reserve_error_text(*self, subdomain@),
    {
        match self {
            ReserveError::InvalidArgument(n) => {
                let mut s = String::from_str("Argument ");
                s.append(n.label());
                s.append(" does not satisfy the expected format.");
                s
            },
            ReserveError::AlreadyReserved => {
                let mut s = String::from_str("Subdomain ");
                s.append(subdomain);
                s.append(" already reserved.");
                s
            },
            ReserveError::WriteFailed => {
                let mut s = String::from_str("Could not reserve subdomain ");
                s.append(subdomain);
                s.append(".");
                s
            },
        }
    }

    /// The HTTP status that reports the error: a client error, but for a
    /// failed write.
    pub fn status(&self) -> (r: u16)
        ensures
            r == reserve_error_status(*self),
    {
        match self {
            ReserveError::WriteFailed => 500,
            _ => 400,
        }
    }
}

/// The arguments of a reservation, in the order they are checked: the
/// subdomain, the user, then each address that was supplied.
pub open spec fn reservation_fields_spec(subdomain: Seq<char>, req: Reserve) -> Seq<(FieldName, Seq<char>)> {
    seq![(FieldName::Subdomain, subdomain), (FieldName::User, req.user@)] + match req.ipv4 {
        Some(a) => seq![(FieldName::Ipv4, a@)],
        None => Seq::empty(),
    } + match req.ipv6 {
        Some(a) => seq![(FieldName::Ipv6, a@)],
        None => Seq::empty(),
    }
}

/// The arguments of a reservation of `subdomain`, in the order they are
/// checked.
pub fn reservation_fields(subdomain: &str, req: &Reserve) -> (r: Vec<Field>)
    ensures
        field_views(r@) == reservation_fields_spec(subdomain@, *req),
{
    let mut v: Vec<Field> = Vec::new();
    v.push(Field { name: FieldName::Subdomain, value: String::from_str(subdomain) });
    v.push(Field { name: FieldName::User, value: req.user.clone() });
    if let Some(a) = &req.ipv4 {
        v.push(Field { name: FieldName::Ipv4, value: a.clone() });
    }
    if let Some(a) = &req.ipv6 {
        v.push(Field { name: FieldName::Ipv6, value: a.clone() });
    }
    assert(field_views(v@) =~= reservation_fields_spec(subdomain@, *req));
    v
}

/// The first argument of the reservation that does not satisfy its format.
pub fn invalid_reservation_arg(subdomain: &str, req: &Reserve) -> (r: Option<FieldName>)
    ensures
        r == first_invalid(reservation_fields_spec(subdomain@, *req)),
{
    invalid_arg(&reservation_fields(subdomain, req))
}

/// The path of the zone file of `subdomain`: `{zonesdir}/db.{subdomain}.{domain}`.
pub open spec fn zone_path_spec(cfg: Config, subdomain: Seq<char>) -> Seq<char> {
    path_join(cfg.zonesdir@, "db."@ + subdomain + "."@ + cfg.domain@)
}

/// The path of the zone file of the parent domain: `{zonesdir}/db.{domain}`.
pub open spec fn root_zone_path_spec(cfg: Config) -> Seq<char> {
    path_join(cfg.zonesdir@, "db."@ + cfg.domain@)
}

/// The path of the zone file of `subdomain`.
pub fn zone_path(cfg: &Config, subdomain: &str) -> (r: String)
    ensures
        r@ == zone_path_spec(*cfg, subdomain@),
{
    let mut name = String::from_str("db.");
    name.append(subdomain);
    name.append(".");
    name.append(cfg.domain.as_str());
    crate::config::join_path(cfg.zonesdir.as_str(), name.as_str())
}

/// The path of the zone file of the parent domain.
pub fn root_zone_path(cfg: &Config) -> (r: String)
    ensures
        r@ == root_zone_path_spec(*cfg),
{
    let mut name = String::from_str("db.");
    name.append(cfg.domain.as_str());
    crate::config::join_path(cfg.zonesdir.as_str(), name.as_str())
}

/// Whether a subdomain is free, given what the existence check of its zone
/// file reported (`None` when the check itself failed). A failed check
/// counts as taken.
pub fn is_free(exists: Option<bool>) -> (r: bool)
    ensures
        r == (exists == Some(false)),
{
    match exists {
        Some(e) => !e,
        None => false,
    }
}

/// What a reservation request comes to, given whether the subdomain was
/// found free: the first invalid argument, else a conflict when taken, else
/// success.
pub open spec fn reserve_decision(subdomain: Seq<char>, req: Reserve, free: bool) -> Result<(), ReserveError> {
    match first_invalid(reservation_fields_spec(subdomain, req)) {
        Some(n) => Err(ReserveError::InvalidArgument(n)),
        None => if free {
            Ok(())
        } else {
            Err(ReserveError::AlreadyReserved)
        },
    }
}

/// A zone file to be created.
pub struct ZoneWrite {
    pub path: String,
    pub content: String,
}

/// The write that reserves `subdomain` with its content rendered at `t`.
pub open spec fn zone_write_spec(w: ZoneWrite, cfg: Config, subdomain: Seq<char>, req: Reserve, t: SerialTime) -> bool {
    &&& w.path@ == zone_path_spec(cfg, subdomain)
    &&& w.content@ == subdomain_zone_text(
        cfg,
        subdomain,
        req.user@,
        opt_string_view(req.ipv4),
        opt_string_view(req.ipv6),
        t,
    )
}

/// Decides a reservation request, its zone file rendered at instant `t`:
/// the error, or the zone file to create.
pub fn plan_reservation_at(cfg: &Config, subdomain: &str, req: &Reserve, free: bool, t: SerialTime) -> (r: Result<ZoneWrite, ReserveError>)
    requires
        t.wf(),
    ensures
        match reserve_decision(subdomain@, *req, free) {
            Err(e) => r == Err::<ZoneWrite, ReserveError>(e),
            Ok(_) => r matches Ok(w) && zone_write_spec(w, *cfg, subdomain@, *req, t),
        },
{
    if let Some(n) = invalid_reservation_arg(subdomain, req) {
        return Err(ReserveError::InvalidArgument(n));
    }
    if !free {
        return Err(ReserveError::AlreadyReserved);
    }
    let ipv4 = match &req.ipv4 {
        Some(a) => Some(a.as_str()),
        None => None,
    };
    let ipv6 = match &req.ipv6 {
        Some(a) => Some(a.as_str()),
        None => None,
    };
    assert(opt_str_view(ipv4) == opt_string_view(req.ipv4));
    assert(opt_str_view(ipv6) == opt_string_view(req.ipv6));
    let content = subdomain_file_at(cfg, subdomain, req.user.as_str(), ipv4, ipv6, t);
    Ok(ZoneWrite { path: zone_path(cfg, subdomain), content })
}

/// Decides a reservation request, its zone file rendered now.
pub fn plan_reservation(cfg: &Config, subdomain: &str, req: &Reserve, free: bool) -> (r: Result<ZoneWrite, ReserveError>)
    ensures
        match reserve_decision(subdomain@, *req, free) {
            Err(e) => r == Err::<ZoneWrite, ReserveError>(e),
            Ok(_) => r matches Ok(w) && exists|t: SerialTime| t.wf() && zone_write_spec(w, *cfg, subdomain@, *req, t),
        },
{
    let t = utc_now();
    plan_reservation_at(cfg, subdomain, req, free, t)
}

/// How the exclusive creation of a zone file went.
#[derive(Clone, Copy, Debug, PartialEq, Eq, Structural)]
pub enum WriteOutcome {
    Created,
    /// The file was there already: another reservation came first.
    AlreadyExists,
    Failed,
}

pub open spec fn write_result(o: WriteOutcome) -> Result<(), ReserveError> {
    match o {
        WriteOutcome::Created => Ok(()),
        WriteOutcome::AlreadyExists => Err(ReserveError::AlreadyReserved),
        WriteOutcome::Failed => Err(ReserveError::WriteFailed),
    }
}

/// The result of a reservation once its zone file was created, or not.
pub fn finish_reservation(outcome: WriteOutcome) -> (r: Result<(), ReserveError>)
    ensures
        r == write_result(outcome),
{
    match outcome {
        WriteOutcome::Created => Ok(()),
        WriteOutcome::AlreadyExists => Err(ReserveError::AlreadyReserved),
        WriteOutcome::Failed => Err(ReserveError::WriteFailed),
    }
}

} // verus!

verus! {

/// Whether `subdomain` is reported free when the zones directory holds the
/// files `files` and the existence check succeeds.
pub open spec fn available_in(files: Set<Seq<char>>, cfg: Config, subdomain: Seq<char>) -> bool {
    Some(files.contains(zone_path_spec(cfg, subdomain))) == Some(false)
}

/// How the exclusive creation of the zone file at `path` goes in a
/// directory holding `files`; `write_ok` says whether the disk lets it.
pub open spec fn create_outcome(files: Set<Seq<char>>, path: Seq<char>, write_ok: bool) -> WriteOutcome {
    if files.contains(path) {
        WriteOutcome::AlreadyExists
    } else if write_ok {
        WriteOutcome::Created
    } else {
        WriteOutcome::Failed
    }
}

/// One reservation request served against a directory holding `files`:
/// the availability check, the decision, the exclusive creation of the zone
/// file, and the result. Gives the files afterwards and the result.
pub open spec fn reserve_step(
    files: Set<Seq<char>>,
    cfg: Config,
    subdomain: Seq<char>,
    req: Reserve,
    write_ok: bool,
) -> (Set<Seq<char>>, Result<(), ReserveError>) {
    let path = zone_path_spec(cfg, subdomain);
    match reserve_decision(subdomain, req, available_in(files, cfg, subdomain)) {
        Err(e) => (files, Err(e)),
        Ok(_) => {
            let o = create_outcome(files, path, write_ok);
            (if o == WriteOutcome::Created { files.insert(path) } else { files }, write_result(o))
        },
    }
}

/// A subdomain whose zone file does not exist is available, and once a
/// reservation of it succeeds it no longer is.
pub proof fn lemma_available_until_reserved(
    files: Set<Seq<char>>,
    cfg: Config,
    subdomain: Seq<char>,
    req: Reserve,
    write_ok: bool,
)
    ensures
        !files.contains(zone_path_spec(cfg, subdomain)) ==> available_in(files, cfg, subdomain),
        reserve_step(files, cfg, subdomain, req, write_ok).1 is Ok ==> !available_in(
            reserve_step(files, cfg, subdomain, req, write_ok).0,
            cfg,
            subdomain,
        ),
{
}

/// Reserving a free subdomain with valid arguments succeeds when the write
/// does, and every later reservation of it, by anyone, is refused as
/// already reserved.
pub proof fn lemma_reserve_once(
    files: Set<Seq<char>>,
    cfg: Config,
    subdomain: Seq<char>,
    first: Reserve,
    second: Reserve,
    second_write_ok: bool,
)
    requires
        !files.contains(zone_path_spec(cfg, subdomain)),
        first_invalid(reservation_fields_spec(subdomain, first)) is None,
        first_invalid(reservation_fields_spec(subdomain, second)) is None,
    ensures
        reserve_step(files, cfg, subdomain, first, true).1 is Ok,
        reserve_step(
            reserve_step(files, cfg, subdomain, first, true).0,
            cfg,
            subdomain,
            second,
            second_write_ok,
        ).1 == Err::<(), ReserveError>(ReserveError::AlreadyReserved),
{
}

/// Arguments are checked in the order subdomain, user, IPv4, IPv6: the one
/// reported is the first that fails, whatever the later ones hold.
pub proof fn lemma_validation_order(subdomain: Seq<char>, req: Reserve)
    ensures
        ({
            let fields = reservation_fields_spec(subdomain, req);
            let sub_ok = satisfies(FieldName::Subdomain.pattern_spec(), subdomain);
            let user_ok = satisfies(FieldName::User.pattern_spec(), req.user@);
            let v4_ok = match req.ipv4 {
                Some(a) => satisfies(FieldName::Ipv4.pattern_spec(), a@),
                None => true,
            };
            let v6_ok = match req.ipv6 {
                Some(a) => satisfies(FieldName::Ipv6.pattern_spec(), a@),
                None => true,
            };
            &&& !sub_ok ==> first_invalid(fields) == Some(FieldName::Subdomain)
            &&& sub_ok && !user_ok ==> first_invalid(fields) == Some(FieldName::User)
            &&& sub_ok && user_ok && !v4_ok ==> first_invalid(fields) == Some(FieldName::Ipv4)
            &&& sub_ok && user_ok && v4_ok && !v6_ok ==> first_invalid(fields) == Some(FieldName::Ipv6)
            &&& sub_ok && user_ok && v4_ok && v6_ok ==> first_invalid(fields) is None
        }),
{
    let fields = reservation_fields_spec(subdomain, req);
    assert(fields.drop_first().drop_first().len() <= 2);
    reveal_with_fuel(first_invalid, 5);
}

} // verus!
