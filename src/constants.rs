//! The service's root address, the versioned paths of its resources and the
//! bounds of the inputs that they accept.
use vstd::prelude::*;

verus! {

/// The public root of the service.
pub const DEFAULT_BASE_URL: &'static str = "https://brasilapi.com.br/api";

pub const BANKS_SVC_URL: &'static str = "banks/v1";
pub const BANKS_MIN_CODE: i16 = 1;
pub const BANKS_MAX_CODE: i16 = 999;

/// Postal-code lookup without coordinates.
pub const CEP_SVC_V1_URL: &'static str = "cep/v1";
/// Postal-code lookup with coordinates.
pub const CEP_SVC_V2_URL: &'static str = "cep/v2";
/// The length that a postal code's digits are reported against.
pub const CEP_LEN: i32 = 8;

pub const DDD_SVC_URL: &'static str = "ddd/v1";
pub const DDD_MIN: i8 = 11;
pub const DDD_MAX: i8 = 99;

pub const HOLIDAYS_SVC_URL: &'static str = "feriados/v1";
pub const HOLIDAYS_MIN_YEAR: i32 = 1900;
pub const HOLIDAYS_MAX_YEAR: i32 = 2199;

} // verus!
