//! The compute side of fetching the job list: building the query URL and
//! deciding whether a request carries credentials. The HTTP call itself is
//! I/O and lives with the caller; it hands the response body to
//! [`crate::decode::decode_job_list`].

use vstd::prelude::*;

use crate::error::JenkinsError;

verus! {

/// The fixed relative query: it requests exactly the fields the model
/// reads — name, colour, and the last build's number, result and
/// timestamp — so that server-side drift in other fields cannot break the
/// decode.
pub const API_PATH: &'static str = "api/json?tree=jobs[name,color,lastBuild[number,result,timestamp]]";

/// A parsed URL, as the url crate represents it. Opaque here: it is only
/// carried between the trusted calls beside it.
#[verifier::external_type_specification]
#[verifier::external_body]
pub struct ExUrl(url::Url);

/// What a URL holds: its serialization. A `url::Url` is determined by that
/// text — serializing and re-parsing round-trips — so every operation on
/// it is a function of this model.
pub uninterp spec fn url_model(u: url::Url) -> Seq<char>;

/// What url::Url::parse makes of a text: the serialization of the parsed
/// URL, absent exactly when the text is no valid absolute URL.
pub uninterp spec fn spec_url_parse(s: Seq<char>) -> Option<Seq<char>>;

/// What url::Url::join makes of a base URL (by its serialization) and a
/// relative reference: the serialization of the resolved URL, absent
/// exactly when the reference cannot be resolved against that base.
pub uninterp spec fn spec_url_join(base: Seq<char>, reference: Seq<char>) -> Option<Seq<char>>;

/// Relies on url::Url::parse: `Some` exactly when the text parses as an
/// absolute URL, namely the URL `spec_url_parse` fixes.
#[verifier::external_body]
fn parse_url(s: &str) -> (r: Option<url::Url>)
    ensures
        r is Some <==> spec_url_parse(s@) is Some,
        r matches Some(u) ==> Some(url_model(u)) == spec_url_parse(s@),
{
    url::Url::parse(s).ok()
}

/// Relies on url::Url::join: `Some` exactly when the relative reference
/// resolves against the base, namely the URL `spec_url_join` fixes.
#[verifier::external_body]
fn join_url(base: &url::Url, reference: &str) -> (r: Option<url::Url>)
    ensures
        r is Some <==> spec_url_join(url_model(*base), reference@) is Some,
        r matches Some(u) ==> Some(url_model(u)) == spec_url_join(url_model(*base), reference@),
{
    base.join(reference).ok()
}

/// Relies on url::Url::as_str: the serialization of the URL, which is what
/// the model holds.
#[verifier::external_body]
fn url_to_string(u: &url::Url) -> (r: String)
    ensures
        r@ == url_model(*u),
{
    u.as_str().to_owned()
}

/// The query URL the job listing is fetched from: the base parsed and the
/// fixed relative query resolved against it, absent when either step fails.
pub open spec fn spec_poll_url(base: Seq<char>) -> Option<Seq<char>> {
    match spec_url_parse(base) {
        Some(parsed) => spec_url_join(parsed, API_PATH@),
        None => None,
    }
}

/// The query URL for the job listing: the base URL joined with
/// [`API_PATH`]. Whether the base is acceptable is the url crate's
/// decision: the result is `Ok` exactly when the base parses and the join
/// resolves, and then it is exactly the resolved URL; whenever the crate
/// refuses, the error is `UrlError` and nothing else.
pub fn poll_url(base: &str) -> (r: Result<String, JenkinsError>)
    ensures
        r is Ok <==> spec_poll_url(base@) is Some,
        r matches Ok(u) ==> Some(u@) == spec_poll_url(base@),
        r matches Err(e) ==> e == JenkinsError::UrlError,
{
    let parsed = match parse_url(base) {
        Some(u) => u,
        None => {
            return Err(JenkinsError::UrlError);
        },
    };
    match join_url(&parsed, API_PATH) {
        Some(q) => Ok(url_to_string(&q)),
        None => Err(JenkinsError::UrlError),
    }
}

/// A request carries HTTP basic authentication exactly when both a
/// username and an access token are configured; with either absent it goes
/// out unauthenticated.
pub fn wants_basic_auth(username: &Option<String>, access_token: &Option<String>) -> (r: bool)
    ensures
        r == (username.is_some() && access_token.is_some()),
{
    username.is_some() && access_token.is_some()
}

} // verus!
