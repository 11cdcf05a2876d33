//! Addresses of the HTTP API.
use crate::text::{decimal, decimal_string};
use vstd::prelude::*;
use vstd::string::*;

verus! {

/// What `urlencoding::encode` returns for a string.
pub uninterp spec fn url_encoded(s: Seq<char>) -> Seq<char>;

/// Relies on `urlencoding::encode`: the percent-encoded form of the string,
/// a function of its characters.
#[verifier::external_body]
fn url_encode(s: &str) -> (r: String)
    ensures
        r@ == url_encoded(s@),
{
    urlencoding::encode(s).into_owned()
}

/// Where the HTTP API listens and the key that authenticates to it.
#[derive(Debug, Clone, PartialEq, Eq)]
pub struct SurgeHttpClient {
    pub base_url: String,
    pub api_key: String,
}

impl SurgeHttpClient {
    /// `http://{host}:{port}`
    pub open spec fn base_url_of(host: Seq<char>, port: u16) -> Seq<char> {
        "http://"@ + host + ":"@ + decimal(port as nat)
    }

    pub fn new(host: String, port: u16, api_key: String) -> (r: Self)
        ensures
            r.base_url@ == Self::base_url_of(host@, port),
            r.api_key == api_key,
    {
        let mut base_url = String::from_str("http://");
        base_url.append(host.as_str());
        base_url.append(":");
        let p = decimal_string(port as u64);
        base_url.append(p.as_str());
        SurgeHttpClient { base_url, api_key }
    }

    /// The full URL of an API path.
    pub fn build_url(&self, path: &str) -> (r: String)
        ensures
            r@ == self.base_url@ + path@,
    {
        let mut u = self.base_url.clone();
        u.append(path);
        u
    }
}

/// Path of the detail of one policy.
pub fn policy_detail_path(name: &str) -> (r: String)
    ensures
        r@ == "/v1/policies/detail?policy_name="@ + url_encoded(name@),
{
    let mut p = String::from_str("/v1/policies/detail?policy_name=");
    let e = url_encode(name);
    p.append(e.as_str());
    p
}

/// Path of the selection of one policy group.
pub fn policy_group_select_path(group_name: &str) -> (r: String)
    ensures
        r@ == "/v1/policy_groups/select?group_name="@ + url_encoded(group_name@),
{
    let mut p = String::from_str("/v1/policy_groups/select?group_name=");
    let e = url_encode(group_name);
    p.append(e.as_str());
    p
}

/// Path of a feature toggle.
pub fn feature_path(feature: &str) -> (r: String)
    ensures
        r@ == "/v1/features/"@ + feature@,
{
    let mut p = String::from_str("/v1/features/");
    p.append(feature);
    p
}

/// Path of the current profile, with or without its secrets.
pub fn profile_path(show_sensitive: bool) -> (r: String)
    ensures
        r@ == "/v1/profiles/current?sensitive="@ + (if show_sensitive {
            "1"@
        } else {
            "0"@
        }),
{
    let mut p = String::from_str("/v1/profiles/current?sensitive=");
    p.append(
        if show_sensitive {
            "1"
        } else {
            "0"
        },
    );
    p
}

} // verus!
