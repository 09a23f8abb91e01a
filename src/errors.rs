//! The closed set of errors that the client reports, and the mapping of an
//! upstream error body onto it.
use vstd::prelude::*;
use vstd::string::StringExecFns;
use crate::json::{Json, member, str_member, json_text, render_json};
use crate::text::{decimal, decimal_text};

verus! {

/// One per-field problem reported inside an upstream error body.
#[derive(Debug)]
pub struct CepDetailedError {
    pub name: String,
    pub message: String,
    pub service: String,
}

impl CepDetailedError {
    /// The three fields as text: name, message, service.
    pub open spec fn fields(&self) -> (Seq<char>, Seq<char>, Seq<char>) {
        (self.name@, self.message@, self.service@)
    }

    /// The readable description of a detail.
    pub open spec fn text(&self) -> Seq<char> {
        "Name: "@ + self.name@ + "\n            Message: "@ + self.message@ + "\n            Service:"@
            + self.service@
    }

    /// Describes the detail for a reader.
    pub fn describe(&self) -> (r: String)
        ensures
            r@ == self.text(),
    {
        let mut r = String::from_str("Name: ");
        r.append(self.name.as_str());
        r.append("\n            Message: ");
        r.append(self.message.as_str());
        r.append("\n            Service:");
        r.append(self.service.as_str());
        r
    }
}

/// The descriptions of a list of details, separated by `, `.
pub open spec fn details_text(details: Seq<CepDetailedError>) -> Seq<char>
    decreases details.len(),
{
    if details.len() == 0 {
        Seq::empty()
    } else if details.len() == 1 {
        details[0].text()
    } else {
        details_text(details.drop_last()) + ", "@ + details.last().text()
    }
}

/// Describes a list of details, separated by `, `.
pub fn describe_details(details: &Vec<CepDetailedError>) -> (r: String)
    ensures
        r@ == details_text(details@),
{
    let mut r = String::new();
    let mut i: usize = 0;
    while i < details.len()
        invariant
            0 <= i <= details@.len(),
            r@ == details_text(details@.take(i as int)),
        decreases details@.len() - i,
    {
        assert(details@.take(i + 1).drop_last() =~= details@.take(i as int));
        if i > 0 {
            r.append(", ");
        }
        let d = details[i].describe();
        r.append(d.as_str());
        i += 1;
    }
    assert(details@.take(details@.len() as int) =~= details@);
    r
}

impl PartialEq for CepDetailedError {
    fn eq(&self, other: &CepDetailedError) -> (r: bool) {
        self.name == other.name && self.message == other.message && self.service == other.service
    }
}

impl vstd::std_specs::cmp::PartialEqSpecImpl for CepDetailedError {
    open spec fn obeys_eq_spec() -> bool {
        true
    }

    open spec fn eq_spec(&self, other: &CepDetailedError) -> bool {
        self.fields() == other.fields()
    }
}

/// An error of the client. Exactly one variant holds at a time.
#[derive(Debug)]
#[non_exhaustive]
pub enum Error {
    /// The service answered with an error and no per-field details.
    BrasilApiError { message: String, name: String, error_type: String },
    /// The service answered with an error that lists per-field details.
    BrasilCepApiError {
        message: String,
        name: String,
        error_type: String,
        errors: Vec<CepDetailedError>,
    },
    /// The request could not reach the service.
    NotExpectedRequestError,
    /// The transport failed after the service was reached; holds its description.
    HttpError(String),
    /// A response body could not be decoded into the expected shape; holds a
    /// description of the failure.
    SerdeJsonError(String),
    /// An input's length lies outside `min..=max`.
    InvalidInputLenError { name: String, min: i32, max: i32 },
    /// An input's value lies outside `min..=max`.
    InvalidInputRangeError { name: String, min: i32, max: i32 },
}

/// The message of an error body: its `message` string, else the whole body
/// printed as JSON.
pub open spec fn message_of(j: Json) -> Seq<char> {
    match str_member(j, "message"@) {
        Some(m) => m,
        None => json_text(j),
    }
}

/// A string member of an error body, or the empty text where it is missing or
/// not a string.
pub open spec fn text_or_empty(j: Json, key: Seq<char>) -> Seq<char> {
    match str_member(j, key) {
        Some(s) => s,
        None => Seq::empty(),
    }
}

/// The entries of the `errors` member where it is an array.
pub open spec fn detail_list(j: Json) -> Option<Seq<Json>> {
    match member(j, "errors"@) {
        Some(Json::Array(items)) => Some(items@),
        _ => None,
    }
}

/// The detail that an entry of `errors` holds: an object whose `name`,
/// `message` and `service` are strings.
pub open spec fn detail_of(j: Json) -> Option<(Seq<char>, Seq<char>, Seq<char>)> {
    match (str_member(j, "name"@), str_member(j, "message"@), str_member(j, "service"@)) {
        (Some(n), Some(m), Some(s)) => Some((n, m, s)),
        _ => None,
    }
}

/// Every entry of a list is a detail.
pub open spec fn all_details(items: Seq<Json>) -> bool {
    forall|i: int| 0 <= i < items.len() ==> (#[trigger] detail_of(items[i])) is Some
}

/// `errors` lists, in order, the details of `items`.
pub open spec fn details_match(errors: Seq<CepDetailedError>, items: Seq<Json>) -> bool {
    &&& errors.len() == items.len()
    &&& forall|i: int| 0 <= i < items.len() ==> Some(#[trigger] errors[i].fields()) == detail_of(items[i])
}

/// The error that an upstream error body stands for: the detailed variant
/// where `errors` is an array of details, a decoding error where it is an
/// array holding anything else, and the plain variant where it is no array.
pub open spec fn maps_to(j: Json, e: Error) -> bool {
    match detail_list(j) {
        None => e matches Error::BrasilApiError { message, name, error_type }
            && message@ == message_of(j) && name@ == text_or_empty(j, "name"@)
            && error_type@ == text_or_empty(j, "type"@),
        Some(items) => if all_details(items) {
            e matches Error::BrasilCepApiError { message, name, error_type, errors }
                && message@ == message_of(j) && name@ == text_or_empty(j, "name"@)
                && error_type@ == text_or_empty(j, "type"@) && details_match(errors@, items)
        } else {
            e is SerdeJsonError
        },
    }
}

/// Reads one entry of `errors` as a detail.
pub fn decode_detail(j: &Json) -> (r: Option<CepDetailedError>)
    ensures
        r matches Some(d) ==> detail_of(*j) == Some(d.fields()),
        r is None ==> detail_of(*j) is None,
{
    let name = j.lookup_str(&String::from_str("name"));
    let message = j.lookup_str(&String::from_str("message"));
    let service = j.lookup_str(&String::from_str("service"));
    match (name, message, service) {
        (Some(name), Some(message), Some(service)) => Some(CepDetailedError { name, message, service }),
        _ => None,
    }
}

/// Reads every entry of `errors` as a detail; `None` where one is not.
pub fn decode_details(items: &Vec<Json>) -> (r: Option<Vec<CepDetailedError>>)
    ensures
        r is Some <==> all_details(items@),
        r matches Some(errors) ==> details_match(errors@, items@),
{
    let mut errors: Vec<CepDetailedError> = Vec::new();
    let mut i: usize = 0;
    while i < items.len()
        invariant
            0 <= i <= items@.len(),
            errors@.len() == i,
            forall|k: int| 0 <= k < i ==> Some(#[trigger] errors@[k].fields()) == detail_of(items@[k]),
        decreases items@.len() - i,
    {
        match decode_detail(&items[i]) {
            Some(d) => errors.push(d),
            None => {
                assert(detail_of(items@[i as int]) is None);
                return None;
            },
        }
        i += 1;
    }
    assert forall|k: int| 0 <= k < items@.len() implies (#[trigger] detail_of(items@[k])) is Some by {
        assert(Some(errors@[k].fields()) == detail_of(items@[k]));
    }
    Some(errors)
}

impl Error {
    /// The readable description of an error.
    pub open spec fn text(&self) -> Seq<char> {
        match self {
            Error::BrasilApiError { message, name, error_type } => "Error during BrasilApiCall [\n                    message: "@
                + message@ + "\n                    name: "@ + name@ + "\n                    type: "@ + error_type@ + "]"@,
            Error::BrasilCepApiError { message, name, error_type, errors } =>
                "Error during BrasilApiCall [CEP] [\n                    message: "@ + message@ + "\n                    name: "@ + name@
                + "\n                    type: "@ + error_type@ + "\n                    errors: ["@ + details_text(errors@) + "]]"@,
            Error::NotExpectedRequestError => "Not Expected Error"@,
            Error::HttpError(d) => "HTTP request failed: "@ + d@,
            Error::SerdeJsonError(d) => "Response payload could not be decoded: "@ + d@,
            Error::InvalidInputLenError { name, min, max } => "Field ["@ + name@
                + "] expected length should be between "@ + decimal_text(*min as int) + " and "@
                + decimal_text(*max as int),
            Error::InvalidInputRangeError { name, min, max } => "Field ["@ + name@
                + "] value range should be between "@ + decimal_text(*min as int) + " and "@
                + decimal_text(*max as int),
        }
    }

    /// Describes the error for a reader.
    pub fn describe(&self) -> (r: String)
        ensures
            r@ == self.text(),
    {
        match self {
            Error::BrasilApiError { message, name, error_type } => {
                let mut r = String::from_str("Error during BrasilApiCall [\n                    message: ");
                r.append(message.as_str());
                r.append("\n                    name: ");
                r.append(name.as_str());
                r.append("\n                    type: ");
                r.append(error_type.as_str());
                r.append("]");
                r
            },
            Error::BrasilCepApiError { message, name, error_type, errors } => {
                let mut r = String::from_str("Error during BrasilApiCall [CEP] [\n                    message: ");
                r.append(message.as_str());
                r.append("\n                    name: ");
                r.append(name.as_str());
                r.append("\n                    type: ");
                r.append(error_type.as_str());
                r.append("\n                    errors: [");
                let d = describe_details(errors);
                r.append(d.as_str());
                r.append("]]");
                r
            },
            Error::NotExpectedRequestError => String::from_str("Not Expected Error"),
            Error::HttpError(d) => {
                let mut r = String::from_str("HTTP request failed: ");
                r.append(d.as_str());
                r
            },
            Error::SerdeJsonError(d) => {
                let mut r = String::from_str("Response payload could not be decoded: ");
                r.append(d.as_str());
                r
            },
            Error::InvalidInputLenError { name, min, max } => {
                let mut r = String::from_str("Field [");
                r.append(name.as_str());
                r.append("] expected length should be between ");
                r.append(decimal(*min).as_str());
                r.append(" and ");
                r.append(decimal(*max).as_str());
                r
            },
            Error::InvalidInputRangeError { name, min, max } => {
                let mut r = String::from_str("Field [");
                r.append(name.as_str());
                r.append("] value range should be between ");
                r.append(decimal(*min).as_str());
                r.append(" and ");
                r.append(decimal(*max).as_str());
                r
            },
        }
    }

    /// Maps an upstream error body onto the error it stands for.
    pub fn from_json(json: &Json) -> (r: Error)
        ensures
            maps_to(*json, r),
    {
        let message = match json.lookup_str(&String::from_str("message")) {
            Some(m) => m,
            None => render_json(json),
        };
        let name = match json.lookup_str(&String::from_str("name")) {
            Some(n) => n,
            None => String::new(),
        };
        let error_type = match json.lookup_str(&String::from_str("type")) {
            Some(t) => t,
            None => String::new(),
        };
        match json.lookup(&String::from_str("errors")) {
            Some(Json::Array(items)) => match decode_details(items) {
                Some(errors) => Error::BrasilCepApiError { message, name, error_type, errors },
                None => Error::SerdeJsonError(String::from_str("an entry of `errors` is not a detail object")),
            },
            _ => Error::BrasilApiError { message, name, error_type },
        }
    }

    /// The error for a transport failure: a failed connection is reported as
    /// `NotExpectedRequestError`, anything else as `HttpError` with its
    /// description.
    pub fn from_transport(connection_failed: bool, description: String) -> (r: Error)
        ensures
            connection_failed ==> r is NotExpectedRequestError,
            !connection_failed ==> (r matches Error::HttpError(d) && d@ == description@),
    {
        if connection_failed {
            Error::NotExpectedRequestError
        } else {
            Error::HttpError(description)
        }
    }
}

} // verus!
