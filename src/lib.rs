//! A typed client for the BrasilAPI REST service: input validation, request
//! URLs, response classification and the mapping of upstream error bodies.
pub mod banks;
pub mod cep;
pub mod client;
pub mod constants;
pub mod ddd;
pub mod errors;
pub mod holidays;
pub mod json;
pub mod response;
pub mod text;
