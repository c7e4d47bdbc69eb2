use finnhub_cli::api_interact::{format_quote_csv, format_quote_verbose, ApiError, StockQuote};

const QUOTE_BODY: &str =
    "{\"c\":261.74,\"d\":3.31,\"dp\":1.2805,\"h\":263.31,\"l\":260.68,\"o\":261.07,\"pc\":258.44,\"t\":1582641000}";

#[test]
fn quote_decodes_to_hundredths() {
    let q = StockQuote::from_json(QUOTE_BODY).unwrap();
    assert_eq!(q.c(), 26174);
    assert_eq!(q.d(), 331);
    assert_eq!(q.dp(), 128);
    assert_eq!(q.h(), 26331);
    assert_eq!(q.l(), 26068);
    assert_eq!(q.o(), 26107);
    assert_eq!(q.pc(), 25844);
    assert_eq!(q.t(), 1582641000);
}

#[test]
fn quote_with_error_field_fails() {
    let r = StockQuote::from_json("{\"error\":\"Invalid API key\"}");
    assert_eq!(r, Err(ApiError::Remote));
}

#[test]
fn quote_with_error_field_fails_despite_prices() {
    let r = StockQuote::from_json(
        "{\"error\":\"You don't have access to this resource.\",\"c\":261.74,\"d\":3.31,\"dp\":1.28,\"h\":263.31,\"l\":260.68,\"o\":261.07,\"pc\":258.44,\"t\":1582641000}",
    );
    assert_eq!(r, Err(ApiError::Remote));
}

#[test]
fn quote_with_missing_field_fails() {
    let r = StockQuote::from_json("{\"c\":261.74,\"d\":3.31}");
    assert_eq!(r, Err(ApiError::BadPayload));
}

#[test]
fn quote_with_malformed_price_fails() {
    let r = StockQuote::from_json(
        "{\"c\":oops,\"d\":3.31,\"dp\":1.28,\"h\":263.31,\"l\":260.68,\"o\":261.07,\"pc\":258.44,\"t\":1582641000}",
    );
    assert_eq!(r, Err(ApiError::BadPayload));
}

#[test]
fn quote_with_empty_error_field_still_decodes() {
    let q = StockQuote::from_json(
        "{\"error\":\"\",\"c\":1,\"d\":2,\"dp\":3,\"h\":4,\"l\":5,\"o\":6,\"pc\":7,\"t\":8}",
    )
    .unwrap();
    assert_eq!(q.c(), 100);
    assert_eq!(q.t(), 8);
}

#[test]
fn quote_with_negative_change_decodes() {
    let q = StockQuote::from_json(
        "{\"c\":100.5,\"d\":-3.5,\"dp\":-0.25,\"h\":104,\"l\":99.9,\"o\":103,\"pc\":104,\"t\":1}",
    )
    .unwrap();
    assert_eq!(q.c(), 10050);
    assert_eq!(q.d(), -350);
    assert_eq!(q.dp(), -25);
    assert_eq!(q.l(), 9990);
}

#[test]
fn quote_url_is_exact() {
    assert_eq!(
        StockQuote::url("TSLA", "KEY"),
        "https://finnhub.io/api/v1/quote?symbol=TSLA&token=KEY"
    );
}

fn fixed_quote() -> StockQuote {
    StockQuote::from_json(QUOTE_BODY).unwrap()
}

#[test]
fn verbose_formatting_is_byte_exact() {
    let q = fixed_quote();
    assert_eq!(
        format_quote_verbose("AAPL", &q),
        "AAPL [ Current: $261.74, Change: $3.31(1.28%), Hi/Lo: $263.31/$260.68, Open: $261.07, Prev. Close: $258.44 ]"
    );
}

#[test]
fn csv_formatting_is_byte_exact() {
    let q = fixed_quote();
    assert_eq!(
        format_quote_csv("AAPL", &q),
        "AAPL,261.74,3.31,1.28,263.31,260.68,261.07,258.44"
    );
}

#[test]
fn csv_formatting_drops_trailing_fraction_zeros() {
    let q = StockQuote::from_json(
        "{\"c\":261,\"d\":3.5,\"dp\":1.28,\"h\":263,\"l\":260.60,\"o\":261,\"pc\":258,\"t\":1}",
    )
    .unwrap();
    assert_eq!(format_quote_csv("AAPL", &q), "AAPL,261,3.5,1.28,263,260.6,261,258");
}
