//! Quotes from the Yahoo chart service: the address to ask, and what a reply
//! amounts to.
//!
//! Sending the request and decoding the JSON are the caller's part. It hands
//! over what came back as a [`Reply`]; [`request_quote`] decides between a
//! [`Quote`] and each kind of [`YahooError`].

use crate::decimal::{Decimal, DecimalView};
use crate::text::{append_digits, digits};
use vstd::prelude::*;

verus! {

/// The `meta` object of one chart result, as a value.
pub struct MetaView {
    pub symbol: Seq<char>,
    pub currency: Seq<char>,
    pub previous_close: Option<DecimalView>,
    pub chart_previous_close: Option<DecimalView>,
    pub regular_market_price: DecimalView,
}

/// The `meta` object of one chart result.
#[derive(Debug, PartialEq, Eq)]
pub struct Meta {
    pub symbol: String,
    pub currency: String,
    pub previous_close: Option<Decimal>,
    pub chart_previous_close: Option<Decimal>,
    pub regular_market_price: Decimal,
}

/// The view of an amount that may be absent.
pub open spec fn amount_view(amount: Option<Decimal>) -> Option<DecimalView> {
    match amount {
        Some(d) => Some(d@),
        None => None,
    }
}

impl View for Meta {
    type V = MetaView;

    open spec fn view(&self) -> MetaView {
        MetaView {
            symbol: self.symbol@,
            currency: self.currency@,
            previous_close: amount_view(self.previous_close),
            chart_previous_close: amount_view(self.chart_previous_close),
            regular_market_price: self.regular_market_price@,
        }
    }
}

/// The views of a list of chart results, in order.
pub open spec fn meta_views(results: Seq<Meta>) -> Seq<MetaView> {
    results.map_values(|m: Meta| m@)
}

/// What came back for one request, as a value.
pub enum ReplyView {
    Unreachable(Seq<char>),
    Answer { status: u16, body: Result<Seq<MetaView>, Seq<char>> },
}

/// What came back for one request.
#[derive(Debug, PartialEq, Eq)]
pub enum Reply {
    /// No answer: the request could not be sent or the connection broke. The
    /// text says why.
    Unreachable(String),
    /// An answer with this HTTP status. The body is the list of chart results,
    /// or the decoder's complaint where the body is not JSON of that shape.
    Answer { status: u16, body: Result<Vec<Meta>, String> },
}

impl View for Reply {
    type V = ReplyView;

    open spec fn view(&self) -> ReplyView {
        match *self {
            Reply::Unreachable(why) => ReplyView::Unreachable(why@),
            Reply::Answer { status, body } => ReplyView::Answer {
                status,
                body: match body {
                    Ok(results) => Ok(meta_views(results@)),
                    Err(why) => Err(why@),
                },
            },
        }
    }
}

/// A quote as a value.
pub struct QuoteView {
    pub price: DecimalView,
    pub previous_close: DecimalView,
    pub currency: Seq<char>,
}

/// The current and the previous closing price of one symbol.
#[derive(Debug, PartialEq, Eq)]
pub struct Quote {
    pub price: Decimal,
    pub previous_close: Decimal,
    pub currency: String,
}

impl View for Quote {
    type V = QuoteView;

    open spec fn view(&self) -> QuoteView {
        QuoteView {
            price: self.price@,
            previous_close: self.previous_close@,
            currency: self.currency@,
        }
    }
}

/// Why no quote was had, as a value.
pub enum YahooErrorView {
    ConnectionError(Seq<char>),
    HttpError(u16),
    InvalidResponse(Seq<char>),
    MalformedJson(Seq<char>),
}

/// Why no quote was had.
#[derive(Debug, PartialEq, Eq)]
pub enum YahooError {
    /// The service could not be reached.
    ConnectionError(String),
    /// The service answered with a status outside 200 to 299.
    HttpError(u16),
    /// The answer is well formed and holds no data.
    InvalidResponse(&'static str),
    /// The answer is not JSON of the expected shape.
    MalformedJson(String),
}

impl View for YahooError {
    type V = YahooErrorView;

    open spec fn view(&self) -> YahooErrorView {
        match *self {
            YahooError::ConnectionError(why) => YahooErrorView::ConnectionError(why@),
            YahooError::HttpError(status) => YahooErrorView::HttpError(status),
            YahooError::InvalidResponse(why) => YahooErrorView::InvalidResponse(why@),
            YahooError::MalformedJson(why) => YahooErrorView::MalformedJson(why@),
        }
    }
}

/// The view of the outcome of a request.
pub open spec fn outcome_view(outcome: Result<Quote, YahooError>) -> Result<
    QuoteView,
    YahooErrorView,
> {
    match outcome {
        Ok(q) => Ok(q@),
        Err(e) => Err(e@),
    }
}

/// Whether an HTTP status reports success.
pub open spec fn is_success(status: u16) -> bool {
    200 <= status < 300
}

/// The previous close of a chart result: the day's where it is given, else the
/// chart's.
pub open spec fn closing(meta: MetaView) -> Option<DecimalView> {
    match meta.previous_close {
        Some(p) => Some(p),
        None => meta.chart_previous_close,
    }
}

/// The text of the error for an empty list of results.
pub open spec fn no_data() -> Seq<char> {
    "No data provided"@
}

/// The text of the error for a result without any previous close.
pub open spec fn no_close() -> Seq<char> {
    "No previous close provided"@
}

/// What a reply amounts to. In this order: no answer is a connection error; a
/// status outside 200 to 299 an HTTP error; a body that did not decode
/// malformed; an empty list of results no data; a first result without any
/// previous close malformed; anything else the quote of the first result.
pub open spec fn quote_of(reply: ReplyView) -> Result<QuoteView, YahooErrorView> {
    match reply {
        ReplyView::Unreachable(why) => Err(YahooErrorView::ConnectionError(why)),
        ReplyView::Answer { status, body } => if !is_success(status) {
            Err(YahooErrorView::HttpError(status))
        } else {
            match body {
                Err(why) => Err(YahooErrorView::MalformedJson(why)),
                Ok(results) => if results.len() == 0 {
                    Err(YahooErrorView::InvalidResponse(no_data()))
                } else {
                    match closing(results[0]) {
                        None => Err(YahooErrorView::MalformedJson(no_close())),
                        Some(p) => Ok(
                            QuoteView {
                                price: results[0].regular_market_price,
                                previous_close: p,
                                currency: results[0].currency,
                            },
                        ),
                    }
                },
            }
        },
    }
}

/// Whether an HTTP status reports success: 200 to 299.
pub fn status_is_success(status: u16) -> (r: bool)
    ensures
        r == is_success(status),
{
    200 <= status && status < 300
}

/// The quote that a reply holds, or the error that it amounts to.
pub fn request_quote(reply: Reply) -> (r: Result<Quote, YahooError>)
    ensures
        outcome_view(r) == quote_of(reply@),
{
    match reply {
        Reply::Unreachable(why) => Err(YahooError::ConnectionError(why)),
        Reply::Answer { status, body } => {
            if !status_is_success(status) {
                return Err(YahooError::HttpError(status));
            }
            match body {
                Err(why) => Err(YahooError::MalformedJson(why)),
                Ok(mut results) => {
                    if results.len() == 0 {
                        return Err(YahooError::InvalidResponse("No data provided"));
                    }
                    let meta = results.remove(0);
                    let close = match meta.previous_close {
                        Some(p) => Some(p),
                        None => meta.chart_previous_close,
                    };
                    match close {
                        None => Err(
                            YahooError::MalformedJson(
                                String::from_str("No previous close provided"),
                            ),
                        ),
                        Some(p) => Ok(
                            Quote {
                                price: meta.regular_market_price,
                                previous_close: p,
                                currency: meta.currency,
                            },
                        ),
                    }
                },
            }
        },
    }
}

/// The address of the chart of `symbol`.
pub open spec fn quote_url_of(symbol: Seq<char>) -> Seq<char> {
    "https://query1.finance.yahoo.com/v8/finance/chart/"@ + symbol + "?symbol="@ + symbol
        + "&interval=1m&range=1m"@
}

/// The address to ask for the chart of `symbol`.
pub fn quote_url(symbol: &str) -> (r: String)
    ensures
        r@ == quote_url_of(symbol@),
{
    let mut url = String::from_str("https://query1.finance.yahoo.com/v8/finance/chart/");
    url.append(symbol);
    url.append("?symbol=");
    url.append(symbol);
    url.append("&interval=1m&range=1m");
    url
}

/// The message of an error.
pub open spec fn description(e: YahooErrorView) -> Seq<char> {
    match e {
        YahooErrorView::ConnectionError(why) => "failed to connect to yahoo api: "@ + why,
        YahooErrorView::HttpError(status) => "yahoo responded with http code: "@ + digits(
            status as nat,
        ),
        YahooErrorView::InvalidResponse(why) => "failed to deserialize json: "@ + why,
        YahooErrorView::MalformedJson(why) => "failed to deserialize json: "@ + why,
    }
}

impl YahooError {
    /// The message of this error.
    pub fn describe(&self) -> (r: String)
        ensures
            r@ == description(self@),
    {
        match self {
            YahooError::ConnectionError(why) => String::from_str(
                "failed to connect to yahoo api: ",
            ).concat(why.as_str()),
            YahooError::HttpError(status) => {
                let mut text = String::from_str("yahoo responded with http code: ");
                append_digits(&mut text, *status as u32);
                text
            },
            YahooError::InvalidResponse(why) => String::from_str(
                "failed to deserialize json: ",
            ).concat(why),
            YahooError::MalformedJson(why) => String::from_str(
                "failed to deserialize json: ",
            ).concat(why.as_str()),
        }
    }
}

} // verus!
