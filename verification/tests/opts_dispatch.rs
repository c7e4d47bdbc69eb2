use finnhub_cli::dispatch::{Action, FetchOp};
use finnhub_cli::opts::{CliError, OptsSet};

fn parsed(args: &[&str]) -> OptsSet {
    let mut o = OptsSet::new();
    o.set();
    let v: Vec<String> = args.iter().map(|s| s.to_string()).collect();
    o.parse(&v).unwrap();
    o
}

#[test]
fn defaults_when_no_flag_is_given() {
    let o = parsed(&["prog"]);
    assert_eq!(o.api_key(), "none");
    assert_eq!(o.ticker(), "none");
    assert_eq!(o.exchange(), "none");
    assert_eq!(o.resolution(), "none");
    assert_eq!(o.in_file(), "none");
    assert_eq!(o.out_file(), "none");
    assert!(!o.is_stock());
    assert!(!o.is_quote());
    assert!(!o.is_list());
    assert!(!o.is_verbose());
    assert!(!o.is_help());
}

#[test]
fn defaults_survive_unrelated_flags() {
    let o = parsed(&["prog", "-q", "-v", "-k", "KEY"]);
    assert_eq!(o.ticker(), "none");
    assert_eq!(o.exchange(), "none");
    assert_eq!(o.resolution(), "none");
    assert_eq!(o.in_file(), "none");
    assert_eq!(o.out_file(), "none");
    assert!(!o.is_stock());
    assert!(!o.is_list());
    assert!(!o.is_help());
}

#[test]
fn short_options_fill_fields() {
    let o = parsed(&["prog", "-k", "KEY", "-t", "TSLA", "-r", "5", "-i", "in.csv", "-o",
        "out.csv", "-e", "KRAKEN", "-s", "-q", "-l", "-v", "-h"]);
    assert_eq!(o.api_key(), "KEY");
    assert_eq!(o.ticker(), "TSLA");
    assert_eq!(o.resolution(), "5");
    assert_eq!(o.in_file(), "in.csv");
    assert_eq!(o.out_file(), "out.csv");
    assert_eq!(o.exchange(), "KRAKEN");
    assert!(o.is_stock());
    assert!(o.is_quote());
    assert!(o.is_list());
    assert!(o.is_verbose());
    assert!(o.is_help());
}

#[test]
fn long_options_fill_fields() {
    let o = parsed(&["prog", "--apikey", "KEY", "--ticker", "TSLA", "--quote", "--stock"]);
    assert_eq!(o.api_key(), "KEY");
    assert_eq!(o.ticker(), "TSLA");
    assert!(o.is_quote());
    assert!(o.is_stock());
}

#[test]
fn unknown_flag_is_a_usage_error() {
    let mut o = OptsSet::new();
    o.set();
    let v: Vec<String> = vec!["prog".to_string(), "--bogus".to_string()];
    assert_eq!(o.parse(&v), Err(CliError::BadUsage));
}

#[test]
fn missing_option_argument_is_a_usage_error() {
    let mut o = OptsSet::new();
    o.set();
    let v: Vec<String> = vec!["prog".to_string(), "-k".to_string()];
    assert_eq!(o.parse(&v), Err(CliError::BadUsage));
}

#[test]
fn help_takes_precedence_over_everything() {
    let o = parsed(&["prog", "-h", "-q", "-s", "-l", "-t", "TSLA"]);
    assert_eq!(o.dispatch(), Action::ShowHelp);
}

#[test]
fn help_wins_even_without_api_key() {
    let o = parsed(&["prog", "-h"]);
    assert_eq!(o.api_key(), "none");
    assert_eq!(o.dispatch(), Action::ShowHelp);
}

#[test]
fn missing_api_key_is_fatal() {
    let o = parsed(&["prog", "-t", "TSLA", "-q"]);
    assert_eq!(o.dispatch(), Action::MissingApiKey);
}

#[test]
fn missing_ticker_and_infile_is_fatal() {
    let o = parsed(&["prog", "-k", "KEY", "-q", "-s", "-v", "-r", "5"]);
    assert_eq!(o.dispatch(), Action::MissingTickerSource);
}

#[test]
fn missing_ticker_and_infile_is_fatal_for_candles_too() {
    let o = parsed(&["prog", "-k", "KEY"]);
    assert_eq!(o.dispatch(), Action::MissingTickerSource);
}

#[test]
fn list_without_exchange_lists_exchanges() {
    let o = parsed(&["prog", "-k", "KEY", "-l"]);
    assert_eq!(o.dispatch(), Action::ListExchanges);
}

#[test]
fn list_with_exchange_lists_symbols() {
    let o = parsed(&["prog", "-k", "KEY", "-l", "-e", "KRAKEN"]);
    assert_eq!(o.dispatch(), Action::ListSymbols);
}

#[test]
fn list_with_stock_flag_falls_through_to_fetch() {
    let o = parsed(&["prog", "-k", "KEY", "-l", "-s", "-t", "TSLA", "-q"]);
    assert_eq!(o.dispatch(), Action::Fetch { from_file: false, op: FetchOp::QuoteStock });
}

#[test]
fn ticker_selects_the_flagged_operation() {
    let o = parsed(&["prog", "-k", "KEY", "-t", "TSLA", "-q", "-s"]);
    assert_eq!(o.dispatch(), Action::Fetch { from_file: false, op: FetchOp::QuoteStock });
    let o = parsed(&["prog", "-k", "KEY", "-t", "BINANCE:BTCUSDT", "-q"]);
    assert_eq!(
        o.dispatch(),
        Action::Fetch { from_file: false, op: FetchOp::QuoteCryptoUnsupported }
    );
    let o = parsed(&["prog", "-k", "KEY", "-t", "TSLA", "-s", "-r", "D"]);
    assert_eq!(o.dispatch(), Action::Fetch { from_file: false, op: FetchOp::CandlesStock });
    let o = parsed(&["prog", "-k", "KEY", "-t", "BINANCE:BTCUSDT", "-r", "D"]);
    assert_eq!(o.dispatch(), Action::Fetch { from_file: false, op: FetchOp::CandlesCrypto });
}

#[test]
fn input_file_wins_over_ticker() {
    let o = parsed(&["prog", "-k", "KEY", "-i", "tickers.csv", "-t", "TSLA", "-q", "-s"]);
    assert_eq!(o.dispatch(), Action::Fetch { from_file: true, op: FetchOp::QuoteStock });
}

#[test]
fn usage_text_names_the_options() {
    let o = parsed(&["prog"]);
    let u = o.usage_text("prog");
    assert!(u.contains("Usage: prog [options]"));
    assert!(u.contains("--apikey"));
    assert!(u.contains("--ticker"));
    assert!(u.contains("--help"));
}
