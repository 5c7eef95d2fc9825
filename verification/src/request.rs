//! Credential validation and construction of the request URL.

use vstd::prelude::*;

verus! {

/// The failure reported when the fetch cannot start: the credential is
/// missing (or empty), so no request may be built.
#[derive(Clone, Copy, Debug, PartialEq, Eq, Structural)]
pub enum ConfigError {
    MissingCredential,
}

/// The part of the URL before the interpolated credential.
pub open spec fn url_prefix() -> Seq<char> {
    "https://api.stlouisfed.org/fred/releases?api_key="@
}

/// The fixed query parameters after the credential: JSON output, three results.
pub open spec fn url_suffix() -> Seq<char> {
    "&file_type=json&limit=3"@
}

/// The full URL of the releases request for a given credential.
pub open spec fn fetch_url(key: Seq<char>) -> Seq<char> {
    url_prefix() + key + url_suffix()
}

/// Interpolates the credential into the fixed endpoint template.
pub fn build_url(key: &str) -> (r: String)
    ensures
        r@ == fetch_url(key@),
{
    let mut url = String::from_str("https://api.stlouisfed.org/fred/releases?api_key=");
    url.append(key);
    url.append("&file_type=json&limit=3");
    url
}

/// Validates the credential read from the environment and, when it is
/// present and non-empty, builds the request URL. A missing or empty
/// credential is a fatal configuration error: no URL is produced, so no
/// request can be made.
pub fn plan_request(key: Option<String>) -> (r: Result<String, ConfigError>)
    ensures
        r is Ok <==> (key matches Some(k) && k@.len() > 0),
        r is Ok ==> r->Ok_0@ == fetch_url(key->Some_0@),
        r is Err ==> r->Err_0 == ConfigError::MissingCredential,
{
    match key {
        Some(k) => {
            if !k.as_str().is_empty() {
                Ok(build_url(k.as_str()))
            } else {
                Err(ConfigError::MissingCredential)
            }
        }
        None => Err(ConfigError::MissingCredential),
    }
}

} // verus!
