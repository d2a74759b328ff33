use coinfetch::format::u16_decimal;
use coinfetch::model::{ExchangeRate, FetchError};

#[test]
fn success_sentence_lists_the_four_fields_in_order() {
    let data = ExchangeRate {
        observed_at: "2017-08-09T14:31:18.3150000Z".to_string(),
        base_asset: "BTC".to_string(),
        quote_asset: "USD".to_string(),
        rate: "26627.400434529947".to_string(),
    };
    assert_eq!(
        data.sentence(),
        "At the time 2017-08-09T14:31:18.3150000Z the price of BTC in USD was 26627.400434529947"
    );
}

#[test]
fn status_error_message_carries_the_code() {
    assert_eq!(
        FetchError::UpstreamStatus(404).message(),
        "response from Coin API returned HTTP error code: 404"
    );
    assert_eq!(
        FetchError::UpstreamStatus(500).message(),
        "response from Coin API returned HTTP error code: 500"
    );
}

#[test]
fn fetch_failure_message_is_the_coarse_one() {
    assert_eq!(FetchError::FetchFailure.message(), "error fetching data from Coin API");
}

#[test]
fn decimal_rendering_has_no_leading_zeros() {
    assert_eq!(u16_decimal(0), "0");
    assert_eq!(u16_decimal(7), "7");
    assert_eq!(u16_decimal(10), "10");
    assert_eq!(u16_decimal(404), "404");
    assert_eq!(u16_decimal(65535), "65535");
}
