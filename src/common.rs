use vstd::prelude::*;

verus! {

/// The envelope `{"value": ...}` in which the API wraps every response body.
#[derive(Clone, Debug)]
pub struct ApiResponse<T> {
    pub value: T,
}

/// The absolute URL of `endpoint` on the API of `hostname`.
pub open spec fn api_url_of(hostname: Seq<char>, endpoint: Seq<char>) -> Seq<char> {
    "https://"@ + hostname + "/rest/"@ + endpoint
}

/// Builds `https://<hostname>/rest/<endpoint>`.
pub fn api_url(hostname: &str, endpoint: &str) -> (r: String)
    ensures
        r@ == api_url_of(hostname@, endpoint@),
{
    let mut url = String::from_str("https://");
    url.append(hostname);
    url.append("/rest/");
    url.append(endpoint);
    url
}

} // verus!
