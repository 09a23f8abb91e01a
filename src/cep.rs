//! Postal-code (CEP) records, and the requests that look them up.
use vstd::prelude::*;
use vstd::string::StringExecFns;
use crate::client::{BrasilApiClient, is_len_error};
use crate::constants::{CEP_LEN, CEP_SVC_V1_URL, CEP_SVC_V2_URL};
use crate::errors::Error;
use crate::text::{digits_of, strip_non_digits};

verus! {

/// The version of the postal-code lookup.
#[derive(Debug, Clone, Copy, PartialEq, Eq, Structural)]
pub enum EnumCepRequestVersion {
    /// The address fields alone.
    V1,
    /// The address fields and the coordinates.
    V2,
}

/// A latitude and a longitude, as the service writes them.
#[derive(Debug)]
pub struct Coordinates {
    pub latitude: String,
    pub longitude: String,
}

impl PartialEq for Coordinates {
    fn eq(&self, other: &Coordinates) -> (r: bool) {
        self.latitude == other.latitude && self.longitude == other.longitude
    }
}

impl vstd::std_specs::cmp::PartialEqSpecImpl for Coordinates {
    open spec fn obeys_eq_spec() -> bool {
        true
    }

    open spec fn eq_spec(&self, other: &Coordinates) -> bool {
        same_coordinates(self, other)
    }
}

/// Two coordinates have the same texts.
pub open spec fn same_coordinates(a: &Coordinates, b: &Coordinates) -> bool {
    a.latitude@ == b.latitude@ && a.longitude@ == b.longitude@
}

/// Where an address lies.
#[derive(Debug)]
pub struct Location {
    pub coordinates: Coordinates,
}

impl Default for Location {
    /// Empty coordinates, for a record that carries none.
    fn default() -> (r: Location)
        ensures
            r.coordinates.latitude@ == Seq::<char>::empty(),
            r.coordinates.longitude@ == Seq::<char>::empty(),
    {
        Location { coordinates: Coordinates { latitude: String::new(), longitude: String::new() } }
    }
}

impl PartialEq for Location {
    fn eq(&self, other: &Location) -> (r: bool) {
        self.coordinates == other.coordinates
    }
}

impl vstd::std_specs::cmp::PartialEqSpecImpl for Location {
    open spec fn obeys_eq_spec() -> bool {
        true
    }

    open spec fn eq_spec(&self, other: &Location) -> bool {
        same_coordinates(&self.coordinates, &other.coordinates)
    }
}

/// An address as the service describes it.
#[derive(Debug)]
pub struct CepResponseData {
    /// The postal code itself.
    pub cep: String,
    pub state: String,
    pub city: String,
    pub neighborhood: String,
    pub street: String,
    /// The upstream service that answered.
    pub service: String,
    /// The coordinates; empty where the lookup carried none.
    pub location: Location,
}

impl PartialEq for CepResponseData {
    /// Compares every field: the address, the upstream service that
    /// answered and the location.
    fn eq(&self, other: &CepResponseData) -> (r: bool) {
        self.cep == other.cep && self.state == other.state && self.city == other.city
            && self.neighborhood == other.neighborhood && self.street == other.street
            && self.service == other.service && self.location == other.location
    }
}

impl vstd::std_specs::cmp::PartialEqSpecImpl for CepResponseData {
    open spec fn obeys_eq_spec() -> bool {
        true
    }

    open spec fn eq_spec(&self, other: &CepResponseData) -> bool {
        self.cep@ == other.cep@ && self.state@ == other.state@ && self.city@ == other.city@
            && self.neighborhood@ == other.neighborhood@ && self.street@ == other.street@
            && self.service@ == other.service@ && same_coordinates(&self.location.coordinates, &other.location.coordinates)
    }
}

/// The path of a lookup version; the first version where none is given.
pub open spec fn cep_path(version: Option<EnumCepRequestVersion>) -> Seq<char> {
    match version {
        Some(EnumCepRequestVersion::V2) => CEP_SVC_V2_URL@,
        _ => CEP_SVC_V1_URL@,
    }
}

/// A postal code's digits are too few or too many to look up.
pub open spec fn bad_cep_len(cep: Seq<char>) -> bool {
    digits_of(cep).len() == 0 || digits_of(cep).len() > CEP_LEN
}

impl BrasilApiClient {
    /// The address of the postal code `cep`, written with its digits alone
    /// (`01402-000` becomes `01402000`). A length error, with no request to
    /// make, where those digits are none or more than eight.
    pub fn cep_url(&self, cep: &str, cep_version: Option<EnumCepRequestVersion>) -> (r: Result<
        String,
        Error,
    >)
        ensures
            r is Err <==> bad_cep_len(cep@),
            r matches Err(e) ==> is_len_error(e, "cep"@, CEP_LEN as int, CEP_LEN as int),
            r matches Ok(u) ==> u@ == self.base() + "/"@ + cep_path(cep_version) + "/"@ + digits_of(
                cep@,
            ),
    {
        let path = match cep_version {
            Some(EnumCepRequestVersion::V2) => CEP_SVC_V2_URL,
            _ => CEP_SVC_V1_URL,
        };
        let zipcode = strip_non_digits(cep);
        let len = zipcode.as_str().unicode_len();
        if len == 0 || len > CEP_LEN as usize {
            return Err(Error::InvalidInputLenError { name: String::from_str("cep"), min: CEP_LEN, max: CEP_LEN });
        }
        Ok(self.url_with_param(path, zipcode.as_str()))
    }
}

} // verus!
