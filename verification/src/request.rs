//! Building the one upstream request: the URL joins the fixed endpoint with
//! the base and quote symbols as path segments, in that order, and the API
//! key travels verbatim under its fixed header name.

use vstd::prelude::*;
use vstd::string::StringExecFns;

verus! {

/// Everything the transport needs to issue the GET.
#[derive(Clone, Debug, PartialEq, Eq)]
pub struct ApiRequest {
    /// Full request URL.
    pub url: String,
    /// Name of the header carrying the API key.
    pub header_name: String,
    /// Value of that header: the caller's key, untransformed.
    pub header_value: String,
}

/// The request URL: the fixed endpoint, then the base (crypto) symbol, then
/// the quote (fiat) symbol, each behind one `/`.
pub open spec fn spec_request_url(crypto: Seq<char>, fiat: Seq<char>) -> Seq<char> {
    "https://rest.coinapi.io/v1/exchangerate"@ + "/"@ + crypto + "/"@ + fiat
}

/// Build the request for one quote lookup.
///
/// The path is always `{endpoint}/{crypto}/{fiat}`, base before quote, with
/// both symbols used verbatim; the key is sent untransformed under the exact
/// header name `X-CoinAPI-Key`.
pub fn build_request(crypto: &str, fiat: &str, api_key: &str) -> (r: ApiRequest)
    ensures
        r.url@ == spec_request_url(crypto@, fiat@),
        r.header_name@ == "X-CoinAPI-Key"@,
        r.header_value@ == api_key@,
{
    let mut url = String::from_str("https://rest.coinapi.io/v1/exchangerate");
    url.append("/");
    url.append(crypto);
    url.append("/");
    url.append(fiat);
    ApiRequest {
        url,
        header_name: String::from_str("X-CoinAPI-Key"),
        header_value: String::from_str(api_key),
    }
}

} // verus!
