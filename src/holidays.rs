//! National holidays, and the requests that list them.
use vstd::prelude::*;
use crate::client::{BrasilApiClient, check_range, is_range_error};
use crate::constants::{HOLIDAYS_MAX_YEAR, HOLIDAYS_MIN_YEAR, HOLIDAYS_SVC_URL};
use crate::errors::Error;
use crate::text::{decimal, decimal_text};

verus! {

/// A calendar day.
#[derive(Debug, Clone, Copy, PartialEq, Eq, Structural)]
pub struct HolidayDate {
    pub year: i32,
    pub month: u32,
    pub day: u32,
}

/// A holiday as the service describes it.
#[derive(Debug)]
pub struct HolidaysResponseData {
    pub date: HolidayDate,
    pub name: String,
    /// The kind of holiday, such as `national`.
    pub holiday_type: String,
}

impl PartialEq for HolidaysResponseData {
    fn eq(&self, other: &HolidaysResponseData) -> (r: bool) {
        self.date == other.date && self.name == other.name && self.holiday_type == other.holiday_type
    }
}

impl vstd::std_specs::cmp::PartialEqSpecImpl for HolidaysResponseData {
    open spec fn obeys_eq_spec() -> bool {
        true
    }

    open spec fn eq_spec(&self, other: &HolidaysResponseData) -> bool {
        self.date == other.date && self.name@ == other.name@ && self.holiday_type@
            == other.holiday_type@
    }
}

impl BrasilApiClient {
    /// The address of the holidays of `year`, or a range error, with no
    /// request to make, where `year` lies outside `1900..=2199`.
    pub fn holidays_url(&self, year: &i32) -> (r: Result<String, Error>)
        ensures
            r is Err <==> (*year < HOLIDAYS_MIN_YEAR || *year > HOLIDAYS_MAX_YEAR),
            r matches Err(e) ==> is_range_error(
                e,
                "year"@,
                HOLIDAYS_MIN_YEAR as int,
                HOLIDAYS_MAX_YEAR as int,
            ),
            r matches Ok(u) ==> u@ == self.base() + "/"@ + HOLIDAYS_SVC_URL@ + "/"@ + decimal_text(
                *year as int,
            ),
    {
        match check_range("year", *year, HOLIDAYS_MIN_YEAR, HOLIDAYS_MAX_YEAR) {
            Err(e) => Err(e),
            Ok(()) => {
                let param = decimal(*year);
                Ok(self.url_with_param(HOLIDAYS_SVC_URL, param.as_str()))
            },
        }
    }
}

} // verus!
