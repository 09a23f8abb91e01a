use brasilapi::client::BrasilApiClient;
use brasilapi::errors::{describe_details, CepDetailedError, Error};

fn detail(name: &str, message: &str, service: &str) -> CepDetailedError {
    CepDetailedError { name: name.to_string(), message: message.to_string(), service: service.to_string() }
}

#[test]
fn range_error_description() {
    let e = BrasilApiClient::new_default().bank_by_code_url(&0).unwrap_err();
    assert_eq!(e.describe(), "Field [code] value range should be between 1 and 999");
    let e = BrasilApiClient::new_default().holidays_url(&3000).unwrap_err();
    assert_eq!(e.describe(), "Field [year] value range should be between 1900 and 2199");
}

#[test]
fn length_error_description() {
    let e = BrasilApiClient::new_default().cep_url("", None).unwrap_err();
    assert_eq!(e.describe(), "Field [cep] expected length should be between 8 and 8");
    let e = Error::InvalidInputLenError { name: "x".to_string(), min: -3, max: 0 };
    assert_eq!(e.describe(), "Field [x] expected length should be between -3 and 0");
}

#[test]
fn plain_error_description() {
    let e = Error::BrasilApiError { message: "m".to_string(), name: "n".to_string(), error_type: "t".to_string() };
    assert_eq!(
        e.describe(),
        "Error during BrasilApiCall [\n                    message: m\n                    name: n\n                    type: t]"
    );
}

#[test]
fn detail_description() {
    assert_eq!(
        detail("a", "b", "c").describe(),
        "Name: a\n            Message: b\n            Service:c"
    );
    assert_eq!(describe_details(&vec![]), "");
    assert_eq!(
        describe_details(&vec![detail("a", "b", "c"), detail("d", "e", "f")]),
        "Name: a\n            Message: b\n            Service:c, Name: d\n            Message: e\n            Service:f"
    );
}

#[test]
fn detailed_error_description() {
    let e = Error::BrasilCepApiError {
        message: "m".to_string(),
        name: "n".to_string(),
        error_type: "t".to_string(),
        errors: vec![detail("a", "b", "c")],
    };
    assert_eq!(
        e.describe(),
        "Error during BrasilApiCall [CEP] [\n                    message: m\n                    name: n\n                    type: t\n                    errors: [Name: a\n            Message: b\n            Service:c]]"
    );
}

#[test]
fn transport_error_descriptions() {
    assert_eq!(Error::NotExpectedRequestError.describe(), "Not Expected Error");
    assert_eq!(Error::HttpError("reset".to_string()).describe(), "HTTP request failed: reset");
    assert_eq!(
        Error::SerdeJsonError("eof".to_string()).describe(),
        "Response payload could not be decoded: eof"
    );
}
