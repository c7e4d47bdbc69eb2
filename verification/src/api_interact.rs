//! The API client's data shapes: a point-in-time quote and an OHLCV candle
//! series, with the URL builders, the JSON decoding and the output
//! formatting that belong to them. Network transport stays outside the
//! library; these functions map request parameters to URLs and response
//! bodies to values.

use vstd::prelude::*;
use vstd::string::StrSliceExecFns;
use vstd::string::StringExecFns;
use crate::num::parse_price;
use crate::num::parse_price_str;
use crate::num::parse_i64_tok;
use crate::num::parse_i64_str;
use crate::num::money_seq;
use crate::num::plain_seq;
use crate::num::dec_seq;
use crate::num::format_money;
use crate::num::format_plain;
use crate::num::u64_string;
use crate::scan::field_token;
use crate::scan::field_token_str;
use crate::scan::string_field;
use crate::scan::string_field_str;
use crate::scan::array_field;
use crate::scan::array_field_str;
use crate::scan::parse_price_list;
use crate::scan::parse_price_list_str;
use crate::scan::parse_u64_list;
use crate::scan::parse_u64_list_str;

verus! {

broadcast use vstd::string::group_string_axioms;

/// Why a response body was rejected: the remote API signalled an error, or
/// the payload did not have the expected shape.
#[derive(Clone, Copy, Debug, PartialEq, Eq, Structural)]
pub enum ApiError {
    Remote,
    BadPayload,
}

/// A price (a whole number of hundredths) small enough to render and negate.
pub open spec fn price_in_range(v: i64) -> bool {
    -1000000000000000000 < v < 1000000000000000000
}

/// Every element of `s` is a price in range.
pub open spec fn prices_in_range(s: Seq<i64>) -> bool {
    forall|i: int| 0 <= i < s.len() ==> price_in_range(s[i])
}

/// The body carries an `error` field with a non-empty message.
pub open spec fn has_error_field(s: Seq<char>) -> bool {
    match string_field(s, "error"@) {
        Some(msg) => msg.len() > 0,
        None => false,
    }
}

/// The price value of scalar field `key`.
pub open spec fn price_field(s: Seq<char>, key: Seq<char>) -> Option<i64> {
    match field_token(s, key) {
        Some(t) => parse_price(t),
        None => None,
    }
}

/// A point-in-time price snapshot for one ticker. Prices are whole numbers
/// of hundredths; `t` is the quote's epoch timestamp.
#[derive(Debug, PartialEq, Eq)]
pub struct StockQuote {
    pub c: i64,
    pub d: i64,
    pub dp: i64,
    pub h: i64,
    pub l: i64,
    pub o: i64,
    pub pc: i64,
    pub t: i128,
}

impl StockQuote {
    pub open spec fn wf(self) -> bool {
        &&& price_in_range(self.c)
        &&& price_in_range(self.d)
        &&& price_in_range(self.dp)
        &&& price_in_range(self.h)
        &&& price_in_range(self.l)
        &&& price_in_range(self.o)
        &&& price_in_range(self.pc)
    }
}

/// The quote a response body decodes to: nothing when the body carries a
/// non-empty `error` field or one of the price fields is missing or
/// malformed.
pub open spec fn parse_quote(s: Seq<char>) -> Option<StockQuote> {
    if has_error_field(s) {
        None
    } else {
        let c = price_field(s, "c"@);
        let d = price_field(s, "d"@);
        let dp = price_field(s, "dp"@);
        let h = price_field(s, "h"@);
        let l = price_field(s, "l"@);
        let o = price_field(s, "o"@);
        let pc = price_field(s, "pc"@);
        let t = match field_token(s, "t"@) {
            Some(tok) => parse_i64_tok(tok),
            None => None,
        };
        if c is Some && d is Some && dp is Some && h is Some && l is Some && o is Some
            && pc is Some && t is Some {
            Some(
                StockQuote {
                    c: c->Some_0,
                    d: d->Some_0,
                    dp: dp->Some_0,
                    h: h->Some_0,
                    l: l->Some_0,
                    o: o->Some_0,
                    pc: pc->Some_0,
                    t: t->Some_0 as i128,
                },
            )
        } else {
            None
        }
    }
}

impl StockQuote {
    /// The quote endpoint's URL for one ticker.
    pub fn url(ticker: &str, api_key: &str) -> (r: String)
        ensures
            r@ == "https://finnhub.io/api/v1/quote?symbol="@ + ticker@ + "&token="@ + api_key@,
    {
        let mut u = String::new();
        u.append("https://finnhub.io/api/v1/quote?symbol=");
        u.append(ticker);
        u.append("&token=");
        u.append(api_key);
        u
    }

    /// Decodes a quote response body. Fails with `Remote` exactly when the
    /// body carries a non-empty `error` field, and with `BadPayload` when a
    /// price field is missing or malformed.
    pub fn from_json(body: &str) -> (r: Result<StockQuote, ApiError>)
        ensures
            match r {
                Ok(q) => parse_quote(body@) == Some(q) && q.wf(),
                Err(e) => parse_quote(body@) is None && e == (if has_error_field(body@) {
                    ApiError::Remote
                } else {
                    ApiError::BadPayload
                }),
            },
    {
        if let Some(msg) = string_field_str(body, "error") {
            if msg.unicode_len() > 0 {
                return Err(ApiError::Remote);
            }
        }
        let c = match Self::price_of(body, "c") {
            Some(v) => v,
            None => {
                return Err(ApiError::BadPayload);
            },
        };
        let d = match Self::price_of(body, "d") {
            Some(v) => v,
            None => {
                return Err(ApiError::BadPayload);
            },
        };
        let dp = match Self::price_of(body, "dp") {
            Some(v) => v,
            None => {
                return Err(ApiError::BadPayload);
            },
        };
        let h = match Self::price_of(body, "h") {
            Some(v) => v,
            None => {
                return Err(ApiError::BadPayload);
            },
        };
        let l = match Self::price_of(body, "l") {
            Some(v) => v,
            None => {
                return Err(ApiError::BadPayload);
            },
        };
        let o = match Self::price_of(body, "o") {
            Some(v) => v,
            None => {
                return Err(ApiError::BadPayload);
            },
        };
        let pc = match Self::price_of(body, "pc") {
            Some(v) => v,
            None => {
                return Err(ApiError::BadPayload);
            },
        };
        let t = match field_token_str(body, "t") {
            Some(tok) => match parse_i64_str(tok) {
                Some(v) => v,
                None => {
                    return Err(ApiError::BadPayload);
                },
            },
            None => {
                return Err(ApiError::BadPayload);
            },
        };
        Ok(StockQuote { c, d, dp, h, l, o, pc, t: t as i128 })
    }

    /// The price value of scalar field `key` in `body`.
    fn price_of(body: &str, key: &str) -> (r: Option<i64>)
        ensures
            r == price_field(body@, key@),
            r is Some ==> price_in_range(r->Some_0),
    {
        match field_token_str(body, key) {
            Some(tok) => parse_price_str(tok),
            None => None,
        }
    }

    pub fn c(&self) -> (r: i64)
        ensures
            r == self.c,
    {
        self.c
    }

    pub fn d(&self) -> (r: i64)
        ensures
            r == self.d,
    {
        self.d
    }

    pub fn dp(&self) -> (r: i64)
        ensures
            r == self.dp,
    {
        self.dp
    }

    pub fn h(&self) -> (r: i64)
        ensures
            r == self.h,
    {
        self.h
    }

    pub fn l(&self) -> (r: i64)
        ensures
            r == self.l,
    {
        self.l
    }

    pub fn o(&self) -> (r: i64)
        ensures
            r == self.o,
    {
        self.o
    }

    pub fn pc(&self) -> (r: i64)
        ensures
            r == self.pc,
    {
        self.pc
    }

    pub fn t(&self) -> (r: i128)
        ensures
            r == self.t,
    {
        self.t
    }
}

/// An OHLCV time series for a ticker: parallel lists of open, high, low and
/// close prices (whole numbers of hundredths), timestamps and volumes, and
/// the response's status text.
#[derive(Debug, PartialEq, Eq)]
pub struct Candles {
    pub c: Vec<i64>,
    pub h: Vec<i64>,
    pub l: Vec<i64>,
    pub o: Vec<i64>,
    pub s: String,
    pub t: Vec<u64>,
    pub v: Vec<u64>,
}

/// The prices of array field `key`; a missing array decodes as empty.
pub open spec fn candle_prices(s: Seq<char>, key: Seq<char>) -> Option<Seq<i64>> {
    match array_field(s, key) {
        Some(t) => parse_price_list(t),
        None => Some(Seq::<i64>::empty()),
    }
}

/// The unsigned integers of array field `key`; a missing array decodes as
/// empty.
pub open spec fn candle_u64s(s: Seq<char>, key: Seq<char>) -> Option<Seq<u64>> {
    match array_field(s, key) {
        Some(t) => parse_u64_list(t),
        None => Some(Seq::<u64>::empty()),
    }
}

/// A candle response body decodes when its status field reads `ok`, every
/// array present is well formed, and all six lists have one length.
pub open spec fn candles_decodable(s: Seq<char>) -> bool {
    &&& string_field(s, "s"@) == Some("ok"@)
    &&& candle_prices(s, "c"@) is Some
    &&& candle_prices(s, "h"@) is Some
    &&& candle_prices(s, "l"@) is Some
    &&& candle_prices(s, "o"@) is Some
    &&& candle_u64s(s, "t"@) is Some
    &&& candle_u64s(s, "v"@) is Some
    &&& candle_prices(s, "c"@)->Some_0.len() == candle_prices(s, "h"@)->Some_0.len()
    &&& candle_prices(s, "c"@)->Some_0.len() == candle_prices(s, "l"@)->Some_0.len()
    &&& candle_prices(s, "c"@)->Some_0.len() == candle_prices(s, "o"@)->Some_0.len()
    &&& candle_prices(s, "c"@)->Some_0.len() == candle_u64s(s, "t"@)->Some_0.len()
    &&& candle_prices(s, "c"@)->Some_0.len() == candle_u64s(s, "v"@)->Some_0.len()
}

impl Candles {
    /// All six lists have one length and every price can be rendered.
    pub open spec fn wf(self) -> bool {
        &&& self.c@.len() == self.h@.len()
        &&& self.c@.len() == self.l@.len()
        &&& self.c@.len() == self.o@.len()
        &&& self.c@.len() == self.t@.len()
        &&& self.c@.len() == self.v@.len()
        &&& prices_in_range(self.c@)
        &&& prices_in_range(self.h@)
        &&& prices_in_range(self.l@)
        &&& prices_in_range(self.o@)
    }

    /// An empty series whose status reads `none`.
    pub fn new() -> (r: Candles)
        ensures
            r.c@ == Seq::<i64>::empty(),
            r.h@ == Seq::<i64>::empty(),
            r.l@ == Seq::<i64>::empty(),
            r.o@ == Seq::<i64>::empty(),
            r.s@ == "none"@,
            r.t@ == Seq::<u64>::empty(),
            r.v@ == Seq::<u64>::empty(),
            r.wf(),
    {
        let mut s = String::new();
        s.append("none");
        Candles { c: Vec::new(), h: Vec::new(), l: Vec::new(), o: Vec::new(), s, t: Vec::new(), v: Vec::new() }
    }

    /// The stock candle endpoint's URL.
    pub fn stock_url(ticker: &str, resolution: &str, from: u64, to: u64, api_key: &str) -> (r:
        String)
        ensures
            r@ == "https://finnhub.io/api/v1/stock/candle?symbol="@ + ticker@ + "&resolution="@
                + resolution@ + "&from="@ + dec_seq(from as int) + "&to="@ + dec_seq(to as int)
                + "&token="@ + api_key@,
    {
        let mut u = String::new();
        u.append("https://finnhub.io/api/v1/stock/candle?symbol=");
        u.append(ticker);
        u.append("&resolution=");
        u.append(resolution);
        u.append("&from=");
        u.append(u64_string(from).as_str());
        u.append("&to=");
        u.append(u64_string(to).as_str());
        u.append("&token=");
        u.append(api_key);
        u
    }

    /// The crypto candle endpoint's URL.
    pub fn crypto_url(ticker: &str, resolution: &str, from: u64, to: u64, api_key: &str) -> (r:
        String)
        ensures
            r@ == "https://finnhub.io/api/v1/crypto/candle?symbol="@ + ticker@ + "&resolution="@
                + resolution@ + "&from="@ + dec_seq(from as int) + "&to="@ + dec_seq(to as int)
                + "&token="@ + api_key@,
    {
        let mut u = String::new();
        u.append("https://finnhub.io/api/v1/crypto/candle?symbol=");
        u.append(ticker);
        u.append("&resolution=");
        u.append(resolution);
        u.append("&from=");
        u.append(u64_string(from).as_str());
        u.append("&to=");
        u.append(u64_string(to).as_str());
        u.append("&token=");
        u.append(api_key);
        u
    }

    /// Decodes a candle response body. Fails with `Remote` exactly when the
    /// status field is present and does not read `ok`, and with
    /// `BadPayload` when the status is missing, an array is malformed or
    /// the lists' lengths differ.
    pub fn from_json(body: &str) -> (r: Result<Candles, ApiError>)
        ensures
            match r {
                Ok(cd) => {
                    &&& candles_decodable(body@)
                    &&& cd.s@ == "ok"@
                    &&& candle_prices(body@, "c"@) == Some(cd.c@)
                    &&& candle_prices(body@, "h"@) == Some(cd.h@)
                    &&& candle_prices(body@, "l"@) == Some(cd.l@)
                    &&& candle_prices(body@, "o"@) == Some(cd.o@)
                    &&& candle_u64s(body@, "t"@) == Some(cd.t@)
                    &&& candle_u64s(body@, "v"@) == Some(cd.v@)
                    &&& cd.wf()
                },
                Err(e) => {
                    &&& !candles_decodable(body@)
                    &&& e == (if string_field(body@, "s"@) is Some && string_field(body@, "s"@)
                        != Some("ok"@) {
                        ApiError::Remote
                    } else {
                        ApiError::BadPayload
                    })
                },
            },
    {
        let status = match string_field_str(body, "s") {
            Some(st) => st,
            None => {
                return Err(ApiError::BadPayload);
            },
        };
        if !crate::text::str_eq(status, "ok") {
            return Err(ApiError::Remote);
        }
        let c = match Self::prices_of(body, "c") {
            Some(v) => v,
            None => {
                return Err(ApiError::BadPayload);
            },
        };
        let h = match Self::prices_of(body, "h") {
            Some(v) => v,
            None => {
                return Err(ApiError::BadPayload);
            },
        };
        let l = match Self::prices_of(body, "l") {
            Some(v) => v,
            None => {
                return Err(ApiError::BadPayload);
            },
        };
        let o = match Self::prices_of(body, "o") {
            Some(v) => v,
            None => {
                return Err(ApiError::BadPayload);
            },
        };
        let t = match Self::u64s_of(body, "t") {
            Some(v) => v,
            None => {
                return Err(ApiError::BadPayload);
            },
        };
        let v = match Self::u64s_of(body, "v") {
            Some(v) => v,
            None => {
                return Err(ApiError::BadPayload);
            },
        };
        if c.len() != h.len() || c.len() != l.len() || c.len() != o.len() || c.len() != t.len()
            || c.len() != v.len() {
            return Err(ApiError::BadPayload);
        }
        let mut s = String::new();
        s.append("ok");
        Ok(Candles { c, h, l, o, s, t, v })
    }

    /// The prices of array field `key` in `body`.
    fn prices_of(body: &str, key: &str) -> (r: Option<Vec<i64>>)
        ensures
            match r {
                Some(v) => candle_prices(body@, key@) == Some(v@) && prices_in_range(v@),
                None => candle_prices(body@, key@) is None,
            },
    {
        match array_field_str(body, key) {
            Some(t) => parse_price_list_str(t),
            None => Some(Vec::new()),
        }
    }

    /// The unsigned integers of array field `key` in `body`.
    fn u64s_of(body: &str, key: &str) -> (r: Option<Vec<u64>>)
        ensures
            match r {
                Some(v) => candle_u64s(body@, key@) == Some(v@),
                None => candle_u64s(body@, key@) is None,
            },
    {
        match array_field_str(body, key) {
            Some(t) => parse_u64_list_str(t),
            None => Some(Vec::new()),
        }
    }

    pub fn c(&self) -> (r: &Vec<i64>)
        ensures
            r@ == self.c@,
    {
        &self.c
    }

    pub fn h(&self) -> (r: &Vec<i64>)
        ensures
            r@ == self.h@,
    {
        &self.h
    }

    pub fn l(&self) -> (r: &Vec<i64>)
        ensures
            r@ == self.l@,
    {
        &self.l
    }

    pub fn o(&self) -> (r: &Vec<i64>)
        ensures
            r@ == self.o@,
    {
        &self.o
    }

    pub fn s(&self) -> (r: &str)
        ensures
            r@ == self.s@,
    {
        self.s.as_str()
    }

    pub fn t(&self) -> (r: &Vec<u64>)
        ensures
            r@ == self.t@,
    {
        &self.t
    }

    pub fn v(&self) -> (r: &Vec<u64>)
        ensures
            r@ == self.v@,
    {
        &self.v
    }
}

/// One line per close price, each in its shortest decimal form.
pub open spec fn closes_seq(c: Seq<i64>) -> Seq<char>
    decreases c.len(),
{
    if c.len() == 0 {
        Seq::<char>::empty()
    } else {
        closes_seq(c.drop_last()) + plain_seq(c.last() as int) + seq!['\n']
    }
}

impl Candles {
    /// Renders the close prices, one line each.
    pub fn format_closes(&self) -> (r: String)
        requires
            prices_in_range(self.c@),
        ensures
            r@ == closes_seq(self.c@),
    {
        let mut out = String::new();
        let mut i: usize = 0;
        proof {
            assert(self.c@.subrange(0, 0) =~= Seq::<i64>::empty());
        }
        while i < self.c.len()
            invariant
                i <= self.c@.len(),
                prices_in_range(self.c@),
                out@ == closes_seq(self.c@.subrange(0, i as int)),
            decreases self.c@.len() - i,
        {
            proof {
                reveal_strlit("\n");
                assert("\n"@ =~= seq!['\n']);
                assert(self.c@.subrange(0, i + 1).drop_last() =~= self.c@.subrange(0, i as int));
                assert(self.c@.subrange(0, i + 1).last() == self.c@[i as int]);
            }
            let line = format_plain(self.c[i]);
            out.append(line.as_str());
            out.append("\n");
            i += 1;
        }
        proof {
            assert(self.c@.subrange(0, self.c@.len() as int) =~= self.c@);
        }
        out
    }
}

/// The trailing window of candle times: one day back from `now`.
pub fn candle_window(now: u64) -> (r: (u64, u64))
    requires
        now >= 86400,
    ensures
        r.0 == now - 86400,
        r.1 == now,
{
    (now - 86400, now)
}

/// A quote body that carries a non-empty `error` field never decodes, so
/// by the contract of `StockQuote::from_json` it is always answered with
/// the remote error.
pub proof fn lemma_error_field_fails_quote(body: Seq<char>)
    requires
        has_error_field(body),
    ensures
        parse_quote(body) is None,
{
}

/// A candle body whose status is present and does not read `ok` — such as
/// `no_data` — never decodes, so by the contract of `Candles::from_json`
/// it is always answered with the remote error.
pub proof fn lemma_bad_status_fails_candles(body: Seq<char>)
    requires
        string_field(body, "s"@) is Some,
        string_field(body, "s"@) != Some("ok"@),
    ensures
        !candles_decodable(body),
{
}

/// The verbose one-line rendering of a quote.
pub open spec fn quote_verbose_seq(ticker: Seq<char>, q: StockQuote) -> Seq<char> {
    ticker + " [ Current: $"@ + money_seq(q.c as int) + ", Change: $"@ + money_seq(q.d as int)
        + "("@ + plain_seq(q.dp as int) + "%), Hi/Lo: $"@ + money_seq(q.h as int) + "/$"@
        + money_seq(q.l as int) + ", Open: $"@ + money_seq(q.o as int) + ", Prev. Close: $"@
        + money_seq(q.pc as int) + " ]"@
}

/// The comma-separated one-line rendering of a quote.
pub open spec fn quote_csv_seq(ticker: Seq<char>, q: StockQuote) -> Seq<char> {
    ticker + ","@ + plain_seq(q.c as int) + ","@ + plain_seq(q.d as int) + ","@ + plain_seq(
        q.dp as int,
    ) + ","@ + plain_seq(q.h as int) + ","@ + plain_seq(q.l as int) + ","@ + plain_seq(
        q.o as int,
    ) + ","@ + plain_seq(q.pc as int)
}

/// Renders a quote as the verbose human-readable line.
pub fn format_quote_verbose(ticker: &str, q: &StockQuote) -> (r: String)
    requires
        q.wf(),
    ensures
        r@ == quote_verbose_seq(ticker@, *q),
{
    let mut s = String::new();
    s.append(ticker);
    s.append(" [ Current: $");
    s.append(format_money(q.c).as_str());
    s.append(", Change: $");
    s.append(format_money(q.d).as_str());
    s.append("(");
    s.append(format_plain(q.dp).as_str());
    s.append("%), Hi/Lo: $");
    s.append(format_money(q.h).as_str());
    s.append("/$");
    s.append(format_money(q.l).as_str());
    s.append(", Open: $");
    s.append(format_money(q.o).as_str());
    s.append(", Prev. Close: $");
    s.append(format_money(q.pc).as_str());
    s.append(" ]");
    proof {
        assert(s@ =~= quote_verbose_seq(ticker@, *q));
    }
    s
}

/// Renders a quote as the comma-separated line.
pub fn format_quote_csv(ticker: &str, q: &StockQuote) -> (r: String)
    requires
        q.wf(),
    ensures
        r@ == quote_csv_seq(ticker@, *q),
{
    let mut s = String::new();
    s.append(ticker);
    s.append(",");
    s.append(format_plain(q.c).as_str());
    s.append(",");
    s.append(format_plain(q.d).as_str());
    s.append(",");
    s.append(format_plain(q.dp).as_str());
    s.append(",");
    s.append(format_plain(q.h).as_str());
    s.append(",");
    s.append(format_plain(q.l).as_str());
    s.append(",");
    s.append(format_plain(q.o).as_str());
    s.append(",");
    s.append(format_plain(q.pc).as_str());
    proof {
        assert(s@ =~= quote_csv_seq(ticker@, *q));
    }
    s
}

} // verus!
