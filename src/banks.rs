//! Bank records, and the requests that look them up.
use vstd::prelude::*;
use crate::client::{BrasilApiClient, check_range, is_range_error};
use crate::constants::{BANKS_MAX_CODE, BANKS_MIN_CODE, BANKS_SVC_URL};
use crate::errors::Error;
use crate::text::{decimal, decimal_text};

verus! {

/// A bank as the service describes it.
#[derive(Debug)]
pub struct BankResponseData {
    /// The institution identifier (ISPB).
    pub ispb: String,
    pub name: String,
    pub code: i16,
    pub full_name: String,
}

impl PartialEq for BankResponseData {
    fn eq(&self, other: &BankResponseData) -> (r: bool) {
        self.ispb == other.ispb && self.name == other.name && self.code == other.code
            && self.full_name == other.full_name
    }
}

impl vstd::std_specs::cmp::PartialEqSpecImpl for BankResponseData {
    open spec fn obeys_eq_spec() -> bool {
        true
    }

    open spec fn eq_spec(&self, other: &BankResponseData) -> bool {
        self.ispb@ == other.ispb@ && self.name@ == other.name@ && self.code == other.code
            && self.full_name@ == other.full_name@
    }
}

impl BrasilApiClient {
    /// The address that lists every bank.
    pub fn banks_url(&self) -> (r: String)
        ensures
            r@ == self.base() + "/"@ + BANKS_SVC_URL@,
    {
        self.url(BANKS_SVC_URL)
    }

    /// The address of the bank with `code`, or a range error, with no request
    /// to make, where `code` lies outside `1..=999`.
    pub fn bank_by_code_url(&self, code: &i16) -> (r: Result<String, Error>)
        ensures
            r is Err <==> (*code < BANKS_MIN_CODE || *code > BANKS_MAX_CODE),
            r matches Err(e) ==> is_range_error(
                e,
                "code"@,
                BANKS_MIN_CODE as int,
                BANKS_MAX_CODE as int,
            ),
            r matches Ok(u) ==> u@ == self.base() + "/"@ + BANKS_SVC_URL@ + "/"@ + decimal_text(
                *code as int,
            ),
    {
        match check_range("code", *code as i32, BANKS_MIN_CODE as i32, BANKS_MAX_CODE as i32) {
            Err(e) => Err(e),
            Ok(()) => {
                let param = decimal(*code as i32);
                Ok(self.url_with_param(BANKS_SVC_URL, param.as_str()))
            },
        }
    }
}

} // verus!
