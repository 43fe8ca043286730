//! The liveness endpoint: a no-argument probe confirming the remote API is
//! reachable and responding.

use vstd::prelude::*;
use vstd::string::StringExecFns;

verus! {

/// The liveness request, and the shape of its reply: a single free-text
/// status field.
#[derive(Debug, PartialEq, Eq)]
pub struct Ping {
    pub gecko_says: String,
}

impl Default for Ping {
    /// An empty status text.
    fn default() -> (r: Self)
        ensures
            r.gecko_says@ == Seq::<char>::empty(),
    {
        Ping { gecko_says: String::new() }
    }
}

impl Ping {
    /// A fresh liveness request.
    pub fn new() -> (r: Self)
        ensures
            r.gecko_says@ == Seq::<char>::empty(),
    {
        Self::default()
    }

    /// The full URL of the liveness probe against the fixed API base.
    pub fn url(&self) -> (r: String)
        ensures
            r@ == crate::API_BASE@ + "ping"@,
    {
        let mut r = String::from_str(crate::API_BASE);
        r.append("ping");
        r
    }
}

/// What `serde_json` decodes the body of a liveness reply to: the fields of
/// the JSON object as key/value pairs in ascending key order, as a function
/// of the body text alone; `None` when the body is not an object of strings.
pub uninterp spec fn ping_decode_of(body: Seq<char>) -> Option<Seq<(Seq<char>, Seq<char>)>>;

/// Relies on `serde_json::from_str`: decodes the body as a JSON object of
/// strings. The outcome is a function of the body text alone; the pairs come
/// out in ascending key order, each key once.
#[verifier::external_body]
pub(crate) fn decode_ping(body: &str) -> (r: Result<Vec<(String, String)>, String>)
    ensures
        match r {
            Ok(v) => ping_decode_of(body@) == Some(v.deep_view()),
            Err(_) => ping_decode_of(body@) is None,
        },
{
    match serde_json::from_str::<std::collections::BTreeMap<String, String>>(body) {
        Ok(m) => Ok(m.into_iter().collect()),
        Err(e) => Err(e.to_string()),
    }
}

} // verus!
