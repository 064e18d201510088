//! Addresses of the REST API.

pub mod body;
pub mod query;
pub mod response;

use vstd::prelude::*;
use vstd::string::*;

verus! {

/// REST API version that every endpoint address carries.
pub const API_VERSION: u8 = 10;

/// Root of the REST API, without version or endpoint.
pub const BASE_URL: &'static str = "https://discord.com/api";

/// The prefix shared by every endpoint address: base URL, `/v` and the API version.
pub open spec fn api_prefix() -> Seq<char> {
    "https://discord.com/api/v10"@
}

/// Builds the full address of an endpoint, e.g. `/channels/1/messages`.
pub fn api_url(endpoint: &str) -> (url: String)
    ensures
        url@ == api_prefix() + endpoint@,
{
    let mut url = String::from_str("https://discord.com/api/v10");
    url.append(endpoint);
    url
}

} // verus!
