//! Regular-expression checks of the arguments of a reservation request.

use vstd::prelude::*;

verus! {

#[verifier::external_type_specification]
#[verifier::external_body]
pub struct ExRegex(regex::Regex);

#[verifier::external_type_specification]
#[verifier::external_body]
pub struct ExRegexError(regex::Error);

/// Whether `pattern` is a regular expression that the regex crate accepts.
pub uninterp spec fn regex_compiles(pattern: Seq<char>) -> bool;

/// Whether the regex crate finds a match of `pattern` anywhere in `haystack`.
pub uninterp spec fn regex_finds(pattern: Seq<char>, haystack: Seq<char>) -> bool;

/// A compiled regular expression together with the text it was compiled
/// from. Only `compile` builds one.
pub struct Pattern {
    source: String,
    compiled: regex::Regex,
}

impl Pattern {
    pub closed spec fn source(self) -> Seq<char> {
        self.source@
    }

    /// Relies on regex::Regex::new: it succeeds exactly on patterns that the
    /// crate accepts.
    #[verifier::external_body]
    fn compile(source: &str) -> (r: Result<Pattern, regex::Error>)
        ensures
            r is Ok <==> regex_compiles(source@),
            r matches Ok(p) ==> p.source() == source@,
    {
        match regex::Regex::new(source) {
            Ok(compiled) => Ok(Pattern { source: source.to_string(), compiled }),
            Err(e) => Err(e),
        }
    }

    /// Relies on regex::Regex::is_match: whether a match exists anywhere in
    /// the haystack.
    #[verifier::external_body]
    fn is_match(&self, haystack: &str) -> (r: bool)
        ensures
            r == regex_finds(self.source(), haystack@),
    {
        self.compiled.is_match(haystack)
    }
}

/// Whether `value` satisfies `pattern`: the pattern compiles and matches.
pub open spec fn satisfies(pattern: Seq<char>, value: Seq<char>) -> bool {
    regex_compiles(pattern) && regex_finds(pattern, value)
}

/// Whether `value` satisfies `pattern`; a pattern that does not compile is
/// satisfied by nothing.
pub fn check_format(pattern: &str, value: &str) -> (r: bool)
    ensures
        r == satisfies(pattern@, value@),
{
    match Pattern::compile(pattern) {
        Ok(p) => p.is_match(value),
        Err(_) => false,
    }
}

/// A request argument: which one it is, which fixes its pattern, and its value.
pub struct Field {
    pub name: FieldName,
    pub value: String,
}

/// The arguments of a reservation request, in the order they are checked.
#[derive(Clone, Copy, Debug, PartialEq, Eq, Structural)]
pub enum FieldName {
    Subdomain,
    User,
    Ipv4,
    Ipv6,
}

/// A subdomain label: alphanumeric at both ends, hyphens inside, 1 to 63
/// characters.
pub const LABEL_PATTERN: &'static str = "^[A-Za-z0-9](?:[A-Za-z0-9\\-]{0,61}[A-Za-z0-9])?$";

/// Any user name at all, including the empty one and one with line breaks.
pub const USER_PATTERN: &'static str = "(?s)^.*$";

/// A dotted quad of octets from 0 to 255.
pub const IPV4_PATTERN: &'static str = "^((25[0-5]|(2[0-4]|1\\d|[1-9]|)\\d)\\.?\\b){4}$";

/// The textual forms of an IPv6 address: full, compressed, with a zone id,
/// and with an embedded IPv4 address.
pub const IPV6_PATTERN: &'static str = "(([0-9a-fA-F]{1,4}:){7,7}[0-9a-fA-F]{1,4}|([0-9a-fA-F]{1,4}:){1,7}:|([0-9a-fA-F]{1,4}:){1,6}:[0-9a-fA-F]{1,4}|([0-9a-fA-F]{1,4}:){1,5}(:[0-9a-fA-F]{1,4}){1,2}|([0-9a-fA-F]{1,4}:){1,4}(:[0-9a-fA-F]{1,4}){1,3}|([0-9a-fA-F]{1,4}:){1,3}(:[0-9a-fA-F]{1,4}){1,4}|([0-9a-fA-F]{1,4}:){1,2}(:[0-9a-fA-F]{1,4}){1,5}|[0-9a-fA-F]{1,4}:((:[0-9a-fA-F]{1,4}){1,6})|:((:[0-9a-fA-F]{1,4}){1,7}|:)|fe80:(:[0-9a-fA-F]{0,4}){0,4}%[0-9a-zA-Z]{1,}|::(ffff(:0{1,4}){0,1}:){0,1}((25[0-5]|(2[0-4]|1{0,1}[0-9]){0,1}[0-9])\\.){3,3}(25[0-5]|(2[0-4]|1{0,1}[0-9]){0,1}[0-9])|([0-9a-fA-F]{1,4}:){1,4}:((25[0-5]|(2[0-4]|1{0,1}[0-9]){0,1}[0-9])\\.){3,3}(25[0-5]|(2[0-4]|1{0,1}[0-9]){0,1}[0-9]))";

impl FieldName {
    pub open spec fn pattern_spec(self) -> Seq<char> {
        match self {
            FieldName::Subdomain => LABEL_PATTERN@,
            FieldName::User => USER_PATTERN@,
            FieldName::Ipv4 => IPV4_PATTERN@,
            FieldName::Ipv6 => IPV6_PATTERN@,
        }
    }

    pub open spec fn label_spec(self) -> Seq<char> {
        match self {
            FieldName::Subdomain => "Subdomain"@,
            FieldName::User => "User"@,
            FieldName::Ipv4 => "ipv4"@,
            FieldName::Ipv6 => "ipv6"@,
        }
    }

    /// The pattern that the argument must satisfy.
    pub fn pattern(&self) -> (r: &'static str)
        ensures
            r@ == self.pattern_spec(),
    {
        match self {
            FieldName::Subdomain => LABEL_PATTERN,
            FieldName::User => USER_PATTERN,
            FieldName::Ipv4 => IPV4_PATTERN,
            FieldName::Ipv6 => IPV6_PATTERN,
        }
    }

    /// The name under which the argument is reported.
    pub fn label(&self) -> (r: &'static str)
        ensures
            r@ == self.label_spec(),
    {
        match self {
            FieldName::Subdomain => "Subdomain",
            FieldName::User => "User",
            FieldName::Ipv4 => "ipv4",
            FieldName::Ipv6 => "ipv6",
        }
    }
}

/// The first of `fields` whose value does not satisfy its pattern.
pub open spec fn first_invalid(fields: Seq<(FieldName, Seq<char>)>) -> Option<FieldName>
    decreases fields.len(),
{
    if fields.len() == 0 {
        None
    } else if !satisfies(fields[0].0.pattern_spec(), fields[0].1) {
        Some(fields[0].0)
    } else {
        first_invalid(fields.drop_first())
    }
}

pub open spec fn field_views(fields: Seq<Field>) -> Seq<(FieldName, Seq<char>)> {
    fields.map_values(|f: Field| (f.name, f.value@))
}

/// The name of the first argument, in the given order, that does not
/// satisfy its pattern; `None` when all do.
pub fn invalid_arg(fields: &Vec<Field>) -> (r: Option<FieldName>)
    ensures
        r == first_invalid(field_views(fields@)),
{
    let ghost all = field_views(fields@);
    let mut i: usize = 0;
    assert(all.skip(0) =~= all);
    while i < fields.len()
        invariant
            i <= fields.len(),
            all == field_views(fields@),
            first_invalid(all) == first_invalid(all.skip(i as int)),
        decreases fields.len() - i,
    {
        let f = &fields[i];
        assert(all.skip(i as int).drop_first() =~= all.skip(i as int + 1));
        if !check_format(f.name.pattern(), f.value.as_str()) {
            return Some(f.name);
        }
        i = i + 1;
    }
    assert(all.skip(i as int) =~= Seq::<(FieldName, Seq<char>)>::empty());
    None
}

} // verus!
