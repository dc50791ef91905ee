//! The target of a run, and how a typed address becomes a URL.

use vstd::prelude::*;
use vstd::string::StringExecFns;
use crate::text::{contains, is_substring, starts_with};

verus! {

/// The URL that a typed address stands for. An address that begins with
/// `http` is taken as it is; any other gets a scheme in front: `http://`
/// where it names `localhost`, else `https://`.
pub open spec fn normalized_url(address: Seq<char>) -> Seq<char> {
    if "http"@.is_prefix_of(address) {
        address
    } else if is_substring("localhost"@, address) {
        "http://"@ + address
    } else {
        "https://"@ + address
    }
}

/// Infers the scheme of a typed address.
pub fn parse_into_https(url: &str) -> (normalized: String)
    ensures
        normalized@ == normalized_url(url@),
{
    if starts_with(url, "http") {
        return String::from_str(url);
    }
    if contains(url, "localhost") {
        return String::from_str("http://").concat(url);
    }
    String::from_str("https://").concat(url)
}

/// The endpoint that a run sends its requests to. It is fixed when the run
/// starts and can only be read afterwards.
pub struct TargetEndpoint {
    url: String,
}

impl View for TargetEndpoint {
    type V = Seq<char>;

    closed spec fn view(&self) -> Seq<char> {
        self.url@
    }
}

impl TargetEndpoint {
    /// The endpoint at `url`.
    pub fn new(url: String) -> (target: TargetEndpoint)
        ensures
            target@ == url@,
    {
        TargetEndpoint { url }
    }

    /// The endpoint that a typed address stands for.
    pub fn from_address(address: &str) -> (target: TargetEndpoint)
        ensures
            target@ == normalized_url(address@),
    {
        TargetEndpoint { url: parse_into_https(address) }
    }

    /// The URL of the endpoint.
    pub fn as_str(&self) -> (url: &str)
        ensures
            url@ == self@,
    {
        self.url.as_str()
    }
}

} // verus!
