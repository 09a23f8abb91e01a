use brasilapi::cep::EnumCepRequestVersion;
use brasilapi::client::BrasilApiClient;
use brasilapi::constants::DEFAULT_BASE_URL;
use brasilapi::errors::Error;

fn cli() -> BrasilApiClient {
    BrasilApiClient::new_default()
}

fn assert_range_error(r: Result<String, Error>, field: &str, lo: i32, hi: i32) {
    match r {
        Err(Error::InvalidInputRangeError { name, min, max }) => {
            assert_eq!(name, field);
            assert_eq!(min, lo);
            assert_eq!(max, hi);
        }
        other => panic!("expected a range error, got {:?}", other.map(|_| ())),
    }
}

fn assert_cep_len_error(r: Result<String, Error>) {
    match r {
        Err(Error::InvalidInputLenError { name, min, max }) => {
            assert_eq!(name, "cep");
            assert_eq!(min, 8);
            assert_eq!(max, 8);
        }
        other => panic!("expected a length error, got {:?}", other.map(|_| ())),
    }
}

#[test]
fn default_client_uses_public_root() {
    assert_eq!(cli().base_url().as_str(), DEFAULT_BASE_URL);
    assert_eq!(DEFAULT_BASE_URL, "https://brasilapi.com.br/api");
}

#[test]
fn custom_root_is_kept() {
    let c = BrasilApiClient::new("http://localhost:8080".to_string());
    assert_eq!(c.banks_url(), "http://localhost:8080/banks/v1");
}

#[test]
fn banks_listing_address() {
    assert_eq!(cli().banks_url(), "https://brasilapi.com.br/api/banks/v1");
}

#[test]
fn bank_code_below_range_is_refused() {
    assert_range_error(cli().bank_by_code_url(&0), "code", 1, 999);
    assert_range_error(cli().bank_by_code_url(&-7), "code", 1, 999);
    assert_range_error(cli().bank_by_code_url(&i16::MIN), "code", 1, 999);
}

#[test]
fn bank_code_above_range_is_refused() {
    assert_range_error(cli().bank_by_code_url(&1000), "code", 1, 999);
    assert_range_error(cli().bank_by_code_url(&i16::MAX), "code", 1, 999);
}

#[test]
fn bank_code_bounds_are_accepted() {
    assert_eq!(cli().bank_by_code_url(&1).unwrap(), "https://brasilapi.com.br/api/banks/v1/1");
    assert_eq!(cli().bank_by_code_url(&33).unwrap(), "https://brasilapi.com.br/api/banks/v1/33");
    assert_eq!(cli().bank_by_code_url(&999).unwrap(), "https://brasilapi.com.br/api/banks/v1/999");
}

#[test]
fn ddd_out_of_range_is_refused() {
    assert_range_error(cli().ddd_url(&10), "ddd", 11, 99);
    assert_range_error(cli().ddd_url(&100), "ddd", 11, 99);
    assert_range_error(cli().ddd_url(&-1), "ddd", 11, 99);
}

#[test]
fn ddd_in_range_is_accepted() {
    assert_eq!(cli().ddd_url(&97).unwrap(), "https://brasilapi.com.br/api/ddd/v1/97");
    assert_eq!(cli().ddd_url(&11).unwrap(), "https://brasilapi.com.br/api/ddd/v1/11");
    assert_eq!(cli().ddd_url(&99).unwrap(), "https://brasilapi.com.br/api/ddd/v1/99");
}

#[test]
fn year_out_of_range_is_refused() {
    assert_range_error(cli().holidays_url(&1899), "year", 1900, 2199);
    assert_range_error(cli().holidays_url(&2200), "year", 1900, 2199);
    assert_range_error(cli().holidays_url(&i32::MIN), "year", 1900, 2199);
}

#[test]
fn year_in_range_is_accepted() {
    assert_eq!(cli().holidays_url(&1900).unwrap(), "https://brasilapi.com.br/api/feriados/v1/1900");
    assert_eq!(cli().holidays_url(&2199).unwrap(), "https://brasilapi.com.br/api/feriados/v1/2199");
}

#[test]
fn cep_without_digits_is_refused() {
    assert_cep_len_error(cli().cep_url("", None));
    assert_cep_len_error(cli().cep_url("abc-.", Some(EnumCepRequestVersion::V2)));
}

#[test]
fn cep_with_too_many_digits_is_refused() {
    assert_cep_len_error(cli().cep_url("123456789", None));
    assert_cep_len_error(cli().cep_url("01402-0001", Some(EnumCepRequestVersion::V1)));
}

#[test]
fn cep_is_reduced_to_its_digits() {
    assert_eq!(
        cli().cep_url("01402-000", None).unwrap(),
        "https://brasilapi.com.br/api/cep/v1/01402000"
    );
    assert_eq!(
        cli().cep_url(" 01.402-000 ", Some(EnumCepRequestVersion::V1)).unwrap(),
        "https://brasilapi.com.br/api/cep/v1/01402000"
    );
}

#[test]
fn cep_second_version_path() {
    assert_eq!(
        cli().cep_url("01402-000", Some(EnumCepRequestVersion::V2)).unwrap(),
        "https://brasilapi.com.br/api/cep/v2/01402000"
    );
}

#[test]
fn short_cep_goes_through() {
    assert_eq!(cli().cep_url("09777", None).unwrap(), "https://brasilapi.com.br/api/cep/v1/09777");
}
