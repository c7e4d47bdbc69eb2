use finnhub_cli::api_interact::{candle_window, ApiError, Candles};

const CANDLE_BODY: &str =
    "{\"c\":[217.68,221.03],\"h\":[222.49,221.5],\"l\":[217.19,217.14],\"o\":[221.03,220.0],\"s\":\"ok\",\"t\":[1569297600,1569384000],\"v\":[33463820,24018876]}";

#[test]
fn candles_decode_to_parallel_lists() {
    let cd = Candles::from_json(CANDLE_BODY).unwrap();
    assert_eq!(cd.c(), &vec![21768, 22103]);
    assert_eq!(cd.h(), &vec![22249, 22150]);
    assert_eq!(cd.l(), &vec![21719, 21714]);
    assert_eq!(cd.o(), &vec![22103, 22000]);
    assert_eq!(cd.s(), "ok");
    assert_eq!(cd.t(), &vec![1569297600, 1569384000]);
    assert_eq!(cd.v(), &vec![33463820, 24018876]);
}

#[test]
fn no_data_status_fails() {
    let r = Candles::from_json("{\"s\":\"no_data\"}");
    assert_eq!(r, Err(ApiError::Remote));
}

#[test]
fn no_data_status_fails_with_empty_arrays_present() {
    let r = Candles::from_json(
        "{\"c\":[],\"h\":[],\"l\":[],\"o\":[],\"s\":\"no_data\",\"t\":[],\"v\":[]}",
    );
    assert_eq!(r, Err(ApiError::Remote));
}

#[test]
fn missing_status_fails() {
    let r = Candles::from_json("{\"c\":[1,2],\"h\":[1,2]}");
    assert_eq!(r, Err(ApiError::BadPayload));
}

#[test]
fn mismatched_lengths_fail() {
    let r = Candles::from_json(
        "{\"c\":[1,2],\"h\":[1],\"l\":[1,2],\"o\":[1,2],\"s\":\"ok\",\"t\":[1,2],\"v\":[1,2]}",
    );
    assert_eq!(r, Err(ApiError::BadPayload));
}

#[test]
fn malformed_array_entry_fails() {
    let r = Candles::from_json(
        "{\"c\":[1,oops],\"h\":[1,2],\"l\":[1,2],\"o\":[1,2],\"s\":\"ok\",\"t\":[1,2],\"v\":[1,2]}",
    );
    assert_eq!(r, Err(ApiError::BadPayload));
}

#[test]
fn fractional_volume_fails() {
    let r = Candles::from_json(
        "{\"c\":[1],\"h\":[1],\"l\":[1],\"o\":[1],\"s\":\"ok\",\"t\":[1],\"v\":[1.5]}",
    );
    assert_eq!(r, Err(ApiError::BadPayload));
}

#[test]
fn empty_ok_series_decodes() {
    let cd = Candles::from_json(
        "{\"c\":[],\"h\":[],\"l\":[],\"o\":[],\"s\":\"ok\",\"t\":[],\"v\":[]}",
    )
    .unwrap();
    assert!(cd.c().is_empty());
    assert!(cd.v().is_empty());
}

#[test]
fn new_candles_are_empty_with_status_none() {
    let cd = Candles::new();
    assert!(cd.c().is_empty());
    assert!(cd.h().is_empty());
    assert!(cd.l().is_empty());
    assert!(cd.o().is_empty());
    assert_eq!(cd.s(), "none");
    assert!(cd.t().is_empty());
    assert!(cd.v().is_empty());
}

#[test]
fn close_lines_print_one_per_candle() {
    let cd = Candles::from_json(CANDLE_BODY).unwrap();
    assert_eq!(cd.format_closes(), "217.68\n221.03\n");
}

#[test]
fn close_lines_of_empty_series_are_empty() {
    let cd = Candles::new();
    assert_eq!(cd.format_closes(), "");
}

#[test]
fn stock_candle_url_is_exact() {
    assert_eq!(
        Candles::stock_url("TSLA", "5", 100, 200, "KEY"),
        "https://finnhub.io/api/v1/stock/candle?symbol=TSLA&resolution=5&from=100&to=200&token=KEY"
    );
}

#[test]
fn crypto_candle_url_is_exact() {
    assert_eq!(
        Candles::crypto_url("BINANCE:BTCUSDT", "D", 1, 86401, "KEY"),
        "https://finnhub.io/api/v1/crypto/candle?symbol=BINANCE:BTCUSDT&resolution=D&from=1&to=86401&token=KEY"
    );
}

#[test]
fn candle_window_is_one_trailing_day() {
    assert_eq!(candle_window(100000), (13600, 100000));
    assert_eq!(candle_window(86400), (0, 86400));
}
