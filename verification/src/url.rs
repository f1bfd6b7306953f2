//! Request URLs for the device endpoints.

use vstd::prelude::*;
use vstd::string::*;
use crate::credentials::{AmbientWeatherAPICredentials, CredentialsView};

verus! {

/// The label of the vendor host that serves the requests: `rt` for the
/// alternate endpoint, `api` for the stable one.
pub open spec fn host_label(use_new_api_endpoint: bool) -> Seq<char> {
    if use_new_api_endpoint {
        "rt"@
    } else {
        "api"@
    }
}

/// The part of a request URL that carries the two keys, verbatim.
pub open spec fn key_query(app_key: Seq<char>, api_key: Seq<char>) -> Seq<char> {
    "?applicationKey="@ + app_key + "&apiKey="@ + api_key
}

/// The URL of the device endpoint for `device_mac_address`; the empty
/// address names the listing of all devices.
pub open spec fn api_url(credentials: CredentialsView, device_mac_address: Seq<char>) -> Seq<
    char,
> {
    "https://"@ + host_label(credentials.use_new_api_endpoint)
        + ".ambientweather.net/v1/devices/"@ + device_mac_address + key_query(
        credentials.app_key,
        credentials.api_key,
    )
}

/// The host of a request URL tells the endpoint choice exactly: the URL
/// starts with `https://rt.` where the alternate endpoint is chosen, and
/// with `https://api.` where it is not, never with both.
pub proof fn lemma_url_host_reflects_endpoint(
    credentials: CredentialsView,
    device_mac_address: Seq<char>,
)
    ensures
        "https://rt."@.is_prefix_of(api_url(credentials, device_mac_address))
            <==> credentials.use_new_api_endpoint,
        "https://api."@.is_prefix_of(api_url(credentials, device_mac_address))
            <==> !credentials.use_new_api_endpoint,
{
    reveal_strlit("https://");
    reveal_strlit("rt");
    reveal_strlit("api");
    reveal_strlit(".ambientweather.net/v1/devices/");
    reveal_strlit("https://rt.");
    reveal_strlit("https://api.");
    let url = api_url(credentials, device_mac_address);
    if credentials.use_new_api_endpoint {
        assert("https://rt."@ =~= url.subrange(0, 11));
        assert(url[8] != "https://api."@[8]);
    } else {
        assert("https://api."@ =~= url.subrange(0, 12));
        assert(url[8] != "https://rt."@[8]);
    }
}

/// A request URL ends with the query that carries the application key and
/// then the API key, each as it was given.
pub proof fn lemma_url_carries_keys_verbatim(
    credentials: CredentialsView,
    device_mac_address: Seq<char>,
)
    ensures
        ("?applicationKey="@ + credentials.app_key + "&apiKey="@
            + credentials.api_key).is_suffix_of(api_url(credentials, device_mac_address)),
{
    let url = api_url(credentials, device_mac_address);
    let query = key_query(credentials.app_key, credentials.api_key);
    assert(query =~= url.subrange(url.len() - query.len(), url.len() as int));
}

/// Crafts the Ambient Weather API URL for the given device address.
pub fn get_aw_api_url(
    api_credentials: &AmbientWeatherAPICredentials,
    device_mac_address: &str,
) -> (url: String)
    ensures
        url@ == api_url(api_credentials@, device_mac_address@),
{
    let url_endpoint = if api_credentials.use_new_api_endpoint {
        "rt"
    } else {
        "api"
    };
    let mut url = String::from_str("https://");
    url.append(url_endpoint);
    url.append(".ambientweather.net/v1/devices/");
    url.append(device_mac_address);
    url.append("?applicationKey=");
    url.append(api_credentials.app_key.as_str());
    url.append("&apiKey=");
    url.append(api_credentials.api_key.as_str());
    url
}

} // verus!
