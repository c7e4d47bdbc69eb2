use finnhub_cli::api_interact::ApiError;
use finnhub_cli::listing::{format_exchanges, format_symbols};

#[test]
fn exchanges_are_reformatted_one_per_line() {
    let out = format_exchanges("[\"KRAKEN\",\"BINANCE\",\"GEMINI\"]").unwrap();
    assert_eq!(
        out,
        "Available Exchanges (for use with -e/--exchange):\n\tKRAKEN\n\tBINANCE\n\tGEMINI"
    );
}

#[test]
fn exchanges_listing_normalizes_whitespace() {
    let out = format_exchanges("[ \"KRAKEN\" , \"BINANCE\" ]").unwrap();
    assert_eq!(out, "Available Exchanges (for use with -e/--exchange):\n\tKRAKEN\n\tBINANCE");
}

#[test]
fn exchanges_error_body_fails() {
    let r = format_exchanges("{\"error\":\"Invalid API key\"}");
    assert_eq!(r, Err(ApiError::Remote));
}

#[test]
fn exchanges_non_json_body_fails() {
    let r = format_exchanges("not json at all");
    assert_eq!(r, Err(ApiError::BadPayload));
}

#[test]
fn symbols_are_reformatted() {
    let out = format_symbols(
        "OANDA",
        "[{\"description\":\"EUR to USD\",\"symbol\":\"OANDA:EUR_USD\"}]",
    )
    .unwrap();
    assert_eq!(
        out,
        "Available Symbols @ OANDA (for use with -t/--ticker):\n\t\n\nEUR to USD\n\tsymbol:OANDA:EUR_USD"
    );
}

#[test]
fn symbols_error_body_fails() {
    let r = format_symbols("OANDA", "{\"error\":\"Exchange not found\"}");
    assert_eq!(r, Err(ApiError::Remote));
}

#[test]
fn symbols_non_json_body_fails() {
    let r = format_symbols("OANDA", "{{{");
    assert_eq!(r, Err(ApiError::BadPayload));
}
