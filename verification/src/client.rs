//! The client facade: the two public operations, each a pure computation
//! from the fetched response body to a validated value or one error variant.
//! The surrounding application performs the HTTP GET against the URL the
//! request types render and hands the body text in.

use vstd::prelude::*;
use crate::errors::SimpleResponseError;
use crate::ping::{ping_decode_of, decode_ping};
use crate::simple::{
    SimplePrices, SimplePriceResponse, validate_post, prices_decode_of, decode_prices,
};

verus! {

/// The client for the pricing API. Stateless: nothing is cached or shared
/// between calls.
#[derive(Debug, PartialEq, Eq)]
pub struct GeckoClient {}

impl GeckoClient {
    /// A fresh client.
    pub fn new() -> (c: Self) {
        GeckoClient {}
    }

    /// The liveness probe's reply, decoded from the fetched body: the fields
    /// of the reply object as key/value pairs. Succeeds exactly when the
    /// body decodes as a JSON object of strings.
    pub fn ping(&self, body: &str) -> (r: Result<Vec<(String, String)>, SimpleResponseError>)
        ensures
            match ping_decode_of(body@) {
                Some(m) => r matches Ok(v) && v.deep_view() == m,
                None => r matches Err(e) && e matches SimpleResponseError::DeserializationError(_),
            },
    {
        match decode_ping(body) {
            Ok(v) => Ok(v),
            Err(e) => Err(SimpleResponseError::DeserializationError(e)),
        }
    }

    /// The validated outcome of a price lookup, from the fetched body and
    /// the identifier lists the caller asked for.
    ///
    /// An empty coin or currency list is rejected with `EmptyInputError`
    /// before anything else is examined — the lookup is pointless and the
    /// surrounding application rejects it before sending a request. A body
    /// that does not decode is a `DeserializationError`. Otherwise the
    /// decoded map is validated against the lists: the full map comes back
    /// unaltered when every requested coin holds every requested currency,
    /// and the first offender is reported otherwise.
    pub fn get_simple_prices(
        &self,
        coin_ids: &Vec<String>,
        currencies: &Vec<String>,
        body: &str,
    ) -> (r: Result<SimplePrices, SimpleResponseError>)
        ensures
            ({
                let cs = coin_ids.deep_view();
                let xs = currencies.deep_view();
                if cs.len() == 0 || xs.len() == 0 {
                    r matches Err(e) && e matches SimpleResponseError::EmptyInputError
                } else {
                    match prices_decode_of(body@) {
                        None => r matches Err(e) && e
                            matches SimpleResponseError::DeserializationError(_),
                        Some(m) => validate_post(m, cs, xs, r),
                    }
                }
            }),
    {
        if coin_ids.len() == 0 || currencies.len() == 0 {
            return Err(SimpleResponseError::EmptyInputError);
        }
        match decode_prices(body) {
            Err(e) => Err(SimpleResponseError::DeserializationError(e)),
            Ok(p) => {
                let response = SimplePriceResponse { simple_response: p };
                response.validate_response(coin_ids, currencies)
            },
        }
    }
}

} // verus!
