//! Connection addresses: the scheme of a URL names the family of the
//! backend.

use crate::text::str_eq;
use vstd::prelude::*;

verus! {

/// The families of backends that a pool can hold.
#[derive(Clone, Copy, Debug, PartialEq, Eq, Structural)]
pub enum Family {
    /// The relational engine that is reached over the network.
    MySql,
    /// The embedded relational engine.
    Sqlite,
}

/// The scheme of the URL `url` as the parser of URLs reads it, `None` where
/// `url` is no URL.
pub uninterp spec fn parsed_scheme(url: Seq<char>) -> Option<Seq<char>>;

/// `url::Url::parse` and `url::Url::scheme`: the scheme of the parsed URL,
/// `None` where the parser rejects the text.
#[verifier::external_body]
pub(crate) fn url_scheme(url: &str) -> (r: Option<String>)
    ensures
        r is Some <==> parsed_scheme(url@) is Some,
        r is Some ==> parsed_scheme(url@) == Some(r->0@),
{
    match url::Url::parse(url) {
        Ok(parsed) => Some(parsed.scheme().to_string()),
        Err(_) => None,
    }
}

/// The family that a scheme names.
pub open spec fn scheme_family(scheme: Seq<char>) -> Option<Family> {
    if scheme == "mysql"@ {
        Some(Family::MySql)
    } else if scheme == "sqlite"@ {
        Some(Family::Sqlite)
    } else {
        None
    }
}

/// The family of the backend behind a URL: `None` where the text is no URL
/// or its scheme names no family.
pub open spec fn url_family(url: Seq<char>) -> Option<Family> {
    match parsed_scheme(url) {
        Some(scheme) => scheme_family(scheme),
        None => None,
    }
}

/// The family that the scheme `scheme` names: `mysql` the networked
/// engine, `sqlite` the embedded one, and any other scheme none.
pub fn family_of_scheme(scheme: &str) -> (r: Option<Family>)
    ensures
        r == scheme_family(scheme@),
{
    if str_eq(scheme, "mysql") {
        Some(Family::MySql)
    } else if str_eq(scheme, "sqlite") {
        Some(Family::Sqlite)
    } else {
        None
    }
}

/// The family of the backend behind the URL `url`.
pub fn family_of_url(url: &str) -> (r: Option<Family>)
    ensures
        r == url_family(url@),
{
    match url_scheme(url) {
        Some(scheme) => family_of_scheme(scheme.as_str()),
        None => None,
    }
}

} // verus!
