//! The entry point's decision: which of the mutually exclusive modes a
//! settings value selects, in priority order — help, then the missing-key
//! check, then the two listing modes, then fetching by ticker or input
//! file. The surrounding program performs the chosen action; the choice
//! itself is made and proved here.

use vstd::prelude::*;
use crate::opts::OptsSet;
use crate::text::str_eq;

verus! {

broadcast use vstd::string::group_string_axioms;

/// What a fetch does once a ticker source is settled.
#[derive(Clone, Copy, Debug, PartialEq, Eq, Structural)]
pub enum FetchOp {
    QuoteStock,
    QuoteCryptoUnsupported,
    CandlesStock,
    CandlesCrypto,
}

/// The action a settings value selects.
#[derive(Clone, Copy, Debug, PartialEq, Eq, Structural)]
pub enum Action {
    ShowHelp,
    MissingApiKey,
    ListSymbols,
    ListExchanges,
    MissingTickerSource,
    Fetch { from_file: bool, op: FetchOp },
}

/// The fetch operation the mode flags select: quote against candles,
/// stock against crypto. The API offers no crypto quotes, so that pair is
/// answered with a notice.
pub open spec fn spec_fetch_op(s: OptsSet) -> FetchOp {
    if s.is_quote {
        if s.is_stock {
            FetchOp::QuoteStock
        } else {
            FetchOp::QuoteCryptoUnsupported
        }
    } else {
        if s.is_stock {
            FetchOp::CandlesStock
        } else {
            FetchOp::CandlesCrypto
        }
    }
}

/// The dispatch order: help first; no API key is fatal; a listing with an
/// exchange shows that exchange's symbols, a listing without one the
/// exchanges; otherwise a fetch, from an input file or a single ticker,
/// and with neither source the run is fatal.
pub open spec fn spec_dispatch(s: OptsSet) -> Action {
    if s.is_help {
        Action::ShowHelp
    } else if s.api_key@ == "none"@ {
        Action::MissingApiKey
    } else if s.is_list && s.exchange@ != "none"@ && !s.is_stock {
        Action::ListSymbols
    } else if s.is_list && !s.is_stock {
        Action::ListExchanges
    } else if s.in_file@ != "none"@ {
        (Action::Fetch { from_file: true, op: spec_fetch_op(s) })
    } else if s.ticker@ != "none"@ {
        (Action::Fetch { from_file: false, op: spec_fetch_op(s) })
    } else {
        Action::MissingTickerSource
    }
}

impl OptsSet {
    /// Selects the action these settings call for.
    pub fn dispatch(&self) -> (a: Action)
        ensures
            a == spec_dispatch(*self),
    {
        if self.is_help {
            return Action::ShowHelp;
        }
        if str_eq(self.api_key.as_str(), "none") {
            return Action::MissingApiKey;
        }
        let exchange_set = !str_eq(self.exchange.as_str(), "none");
        if self.is_list && exchange_set && !self.is_stock {
            return Action::ListSymbols;
        }
        if self.is_list && !self.is_stock {
            return Action::ListExchanges;
        }
        let op = if self.is_quote {
            if self.is_stock {
                FetchOp::QuoteStock
            } else {
                FetchOp::QuoteCryptoUnsupported
            }
        } else {
            if self.is_stock {
                FetchOp::CandlesStock
            } else {
                FetchOp::CandlesCrypto
            }
        };
        if !str_eq(self.in_file.as_str(), "none") {
            return Action::Fetch { from_file: true, op };
        }
        if !str_eq(self.ticker.as_str(), "none") {
            return Action::Fetch { from_file: false, op };
        }
        Action::MissingTickerSource
    }
}

/// Help takes precedence over everything else: whatever the other flags
/// and options hold, and even with the API key missing, settings with the
/// help flag dispatch to the help screen.
pub proof fn lemma_help_takes_precedence(s: OptsSet)
    requires
        s.is_help,
    ensures
        spec_dispatch(s) == Action::ShowHelp,
{
}

/// In fetch mode — help not asked, an API key given, no listing selected —
/// missing both the ticker and the input file is fatal, whatever the other
/// flags hold.
pub proof fn lemma_missing_ticker_source_fatal(s: OptsSet)
    requires
        !s.is_help,
        s.api_key@ != "none"@,
        !(s.is_list && !s.is_stock),
        s.ticker@ == "none"@,
        s.in_file@ == "none"@,
    ensures
        spec_dispatch(s) == Action::MissingTickerSource,
{
}

} // verus!
