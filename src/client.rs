//! The client: its configuration, the request addresses it builds and the
//! checks that its inputs pass before any request is made.
use vstd::prelude::*;
use vstd::string::StringExecFns;
use crate::constants::DEFAULT_BASE_URL;
use crate::errors::Error;

verus! {

/// Client for the service's operations. It holds the root address only and
/// may serve any number of independent requests.
pub struct BrasilApiClient {
    base_url: String,
}

impl BrasilApiClient {
    /// The root address that requests are built on.
    pub closed spec fn base(&self) -> Seq<char> {
        self.base_url@
    }

    pub fn new(base_url: String) -> (r: BrasilApiClient)
        ensures
            r.base() == base_url@,
    {
        BrasilApiClient { base_url }
    }

    /// Creates the client on the service's public root.
    pub fn new_default() -> (r: BrasilApiClient)
        ensures
            r.base() == DEFAULT_BASE_URL@,
    {
        BrasilApiClient::new(String::from_str(DEFAULT_BASE_URL))
    }

    /// The root address that requests are built on.
    pub fn base_url(&self) -> (r: &String)
        ensures
            r@ == self.base(),
    {
        &self.base_url
    }

    /// `{base}/{path}`.
    pub fn url(&self, path: &str) -> (r: String)
        ensures
            r@ == self.base() + "/"@ + path@,
    {
        let mut r = self.base_url.clone();
        r.append("/");
        r.append(path);
        r
    }

    /// `{base}/{path}/{param}`.
    pub fn url_with_param(&self, path: &str, param: &str) -> (r: String)
        ensures
            r@ == self.base() + "/"@ + path@ + "/"@ + param@,
    {
        let mut r = self.url(path);
        r.append("/");
        r.append(param);
        r
    }
}

/// `e` reports that the input `name` lies outside `min..=max`.
pub open spec fn is_range_error(e: Error, name: Seq<char>, min: int, max: int) -> bool {
    e matches Error::InvalidInputRangeError { name: n, min: lo, max: hi } && n@ == name && lo == min
        && hi == max
}

/// `e` reports that the length of the input `name` lies outside `min..=max`.
pub open spec fn is_len_error(e: Error, name: Seq<char>, min: int, max: int) -> bool {
    e matches Error::InvalidInputLenError { name: n, min: lo, max: hi } && n@ == name && lo == min
        && hi == max
}

/// Checks that the input `name` lies within `min..=max`.
pub fn check_range(name: &str, value: i32, min: i32, max: i32) -> (r: Result<(), Error>)
    ensures
        r is Ok <==> min <= value <= max,
        r matches Err(e) ==> is_range_error(e, name@, min as int, max as int),
{
    if value < min || value > max {
        Err(Error::InvalidInputRangeError { name: String::from_str(name), min, max })
    } else {
        Ok(())
    }
}

} // verus!
