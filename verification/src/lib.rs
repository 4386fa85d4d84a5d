//! A client library for the Wit.ai natural-language API: it says which
//! request an operation makes and what the answer means. Sending the request
//! is left to the caller.

use vstd::prelude::*;

pub mod api;
pub mod json;
pub mod text;

verus! {

/// Where the service is.
pub const BASE_URL: &'static str = "https://api.wit.ai";

/// A client for the service, with a bearer token.
pub fn client(token: String) -> (r: api::Api)
    ensures
        r.base() == BASE_URL@,
        r.credential() == api::Authorization::Bearer(token).header(),
{
    api::Api::new(BASE_URL.to_owned(), api::Authorization::Bearer(token))
}

} // verus!
