//! A typed client library for a third-party cryptocurrency price API.
//!
//! The library builds the query strings for the liveness and price-lookup
//! endpoints, decodes JSON response bodies into typed structures, and
//! validates that every requested coin and currency identifier actually
//! appears in the response. Performing the HTTP requests is left to the
//! surrounding application; every function here is a pure computation on
//! the values it is given.

pub mod assoc;
pub mod client;
pub mod errors;
pub mod ping;
pub mod simple;
pub mod utils;

use vstd::prelude::*;

verus! {

/// Versioned root of the remote pricing API. Kept as a single constant so
/// that the surrounding application can point a stub server at it in tests.
pub const API_BASE: &'static str = "https://api.coingecko.com/api/v3/";

/// What `url::Url::parse(base)` followed by `join(endpoint)` yields, as a
/// function of the two strings alone; `None` when either step fails.
pub uninterp spec fn joined_url_of(base: Seq<char>, endpoint: Seq<char>) -> Option<Seq<char>>;

/// Relies on `url::Url::parse` and `url::Url::join`: resolves `endpoint`
/// against the fixed API base and renders the resulting URL; the outcome
/// depends on the two strings alone.
#[verifier::external_body]
pub fn parse_url(endpoint: &str) -> (r: Result<String, String>)
    ensures
        match r {
            Ok(u) => joined_url_of(API_BASE@, endpoint@) == Some(u@),
            Err(_) => joined_url_of(API_BASE@, endpoint@) is None,
        },
{
    match url::Url::parse(API_BASE).and_then(|u| u.join(endpoint)) {
        Ok(u) => Ok(u.as_str().to_string()),
        Err(e) => Err(e.to_string()),
    }
}

} // verus!
