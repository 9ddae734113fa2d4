//! Looking places up by name, at OpenWeatherMap's geocoding service.

use crate::address::{checked, Address};
use vstd::prelude::*;

verus! {

/// The address at which places named `query` are asked for, five at most, on
/// behalf of the account with `key`.
pub open spec fn url_text(query: Seq<char>, key: Seq<char>) -> Seq<char> {
    "http://api.openweathermap.org/geo/1.0/direct?q="@ + query + "&limit=5&appid="@ + key
}

/// Writes the address at which places named `query` are asked for. The query
/// stands in it as the caller wrote it.
pub fn get_url(query: &str, authorization: &str) -> (url: String)
    ensures
        url@ == url_text(query@, authorization@),
{
    let mut url = String::from_str("http://api.openweathermap.org/geo/1.0/direct?q=");
    url.append(query);
    url.append("&limit=5&appid=");
    url.append(authorization);
    url
}

/// Takes up a search for places named `query`: the address to send a GET to,
/// or the text that should have been one.
pub fn perform(query: &str, authorization: &str) -> (address: Address)
    ensures
        address@ == checked(url_text(query@, authorization@)),
{
    Address::check(get_url(query, authorization))
}

} // verus!
