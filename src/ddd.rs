//! Telephone area codes (DDD), and the requests that look them up.
use vstd::prelude::*;
use crate::client::{BrasilApiClient, check_range, is_range_error};
use crate::constants::{DDD_MAX, DDD_MIN, DDD_SVC_URL};
use crate::errors::Error;
use crate::text::{decimal, decimal_text};

verus! {

/// The state and the cities that share an area code.
#[derive(Debug)]
pub struct DDDResponseData {
    /// The state, such as `SP`.
    pub state: String,
    pub cities: Vec<String>,
}

/// Two lists of names hold the same texts in the same order.
pub open spec fn same_texts(a: Seq<String>, b: Seq<String>) -> bool {
    a.len() == b.len() && forall|i: int| 0 <= i < a.len() ==> (#[trigger] a[i])@ == b[i]@
}

/// Compares two lists of names text by text.
pub fn texts_equal(a: &Vec<String>, b: &Vec<String>) -> (r: bool)
    ensures
        r == same_texts(a@, b@),
{
    if a.len() != b.len() {
        return false;
    }
    let mut i: usize = 0;
    while i < a.len()
        invariant
            a@.len() == b@.len(),
            0 <= i <= a@.len(),
            forall|k: int| 0 <= k < i ==> (#[trigger] a@[k])@ == b@[k]@,
        decreases a@.len() - i,
    {
        if a[i] != b[i] {
            return false;
        }
        i += 1;
    }
    true
}

impl PartialEq for DDDResponseData {
    fn eq(&self, other: &DDDResponseData) -> (r: bool) {
        self.state == other.state && texts_equal(&self.cities, &other.cities)
    }
}

impl vstd::std_specs::cmp::PartialEqSpecImpl for DDDResponseData {
    open spec fn obeys_eq_spec() -> bool {
        true
    }

    open spec fn eq_spec(&self, other: &DDDResponseData) -> bool {
        self.state@ == other.state@ && same_texts(self.cities@, other.cities@)
    }
}

impl BrasilApiClient {
    /// The address of the area code `ddd`, or a range error, with no request
    /// to make, where `ddd` lies outside `11..=99`.
    pub fn ddd_url(&self, ddd: &i8) -> (r: Result<String, Error>)
        ensures
            r is Err <==> (*ddd < DDD_MIN || *ddd > DDD_MAX),
            r matches Err(e) ==> is_range_error(e, "ddd"@, DDD_MIN as int, DDD_MAX as int),
            r matches Ok(u) ==> u@ == self.base() + "/"@ + DDD_SVC_URL@ + "/"@ + decimal_text(
                *ddd as int,
            ),
    {
        match check_range("ddd", *ddd as i32, DDD_MIN as i32, DDD_MAX as i32) {
            Err(e) => Err(e),
            Ok(()) => {
                let param = decimal(*ddd as i32);
                Ok(self.url_with_param(DDD_SVC_URL, param.as_str()))
            },
        }
    }
}

} // verus!
