//! The CoinMarketCap quotes service: what to ask it, and how to read its
//! answer.

use super::VendorError;
use crate::json::parse;
use crate::json::parsed;
use crate::json::Json;
use vstd::prelude::*;

verus! {

/// The name of the request header that carries the API key.
pub const API_KEY_HEADER: &'static str = "X-CMC_PRO_API_KEY";

/// The address to ask for the latest quote of `ticker` in `currency`. Both
/// stand in it as they are given.
pub open spec fn quote_url_of(ticker: Seq<char>, currency: Seq<char>) -> Seq<char> {
    "https://pro-api.coinmarketcap.com/v2/cryptocurrency/quotes/latest?symbol="@ + ticker
        + "&convert="@ + currency
}

/// The member called `name` of a value that is there; nothing where no value
/// is.
pub open spec fn then_member(value: Option<Json>, name: Seq<char>) -> Option<Json> {
    match value {
        Some(value) => value.member_of(name),
        None => None,
    }
}

/// Where the price stands in the service's answer: under `data`, in the first
/// entry for the ticker, under `quote`, the currency and `price`.
pub open spec fn price_node(document: Json, ticker: Seq<char>, currency: Seq<char>) -> Option<
    Json,
> {
    let entries = then_member(document.member_of("data"@), ticker);
    let first = match entries {
        Some(entries) => entries.element_of(0),
        None => None,
    };
    then_member(then_member(then_member(first, "quote"@), currency), "price"@)
}

/// What a parsed answer says of the price: the number at the price's place,
/// written out, or that no price was found.
pub open spec fn price_in(document: Json, ticker: Seq<char>, currency: Seq<char>) -> Result<
    Seq<char>,
    Seq<char>,
> {
    match price_node(document, ticker, currency) {
        Some(node) => match node.number_text_of() {
            Some(text) => Ok(text),
            None => Err("Price not found"@),
        },
        None => Err("Price not found"@),
    }
}

/// What the body of an answer says of the price: a body that is no JSON is
/// reported with the parser's words, any other is read as `price_in` says.
pub open spec fn quote_in(body: Seq<char>, ticker: Seq<char>, currency: Seq<char>) -> Result<
    Seq<char>,
    Seq<char>,
> {
    match parsed(body) {
        Ok(document) => price_in(document, ticker, currency),
        Err(message) => Err("JSON parse error: "@ + message),
    }
}

/// A price or a failure as plain text on either side.
pub open spec fn outcome_text(outcome: Result<String, VendorError>) -> Result<Seq<char>, Seq<char>> {
    match outcome {
        Ok(price) => Ok(price@),
        Err(error) => Err(error.message()),
    }
}

/// The CoinMarketCap quotes service, with the key that it is asked under.
pub struct CoinMarketCapVendor {
    api_key: String,
}

impl CoinMarketCapVendor {
    /// The API key, as text.
    pub closed spec fn key(&self) -> Seq<char> {
        self.api_key@
    }

    /// The service, to be asked under `api_key`.
    pub fn new(api_key: String) -> (v: Self)
        ensures
            v.key() == api_key@,
    {
        Self { api_key }
    }

    /// The API key, to be sent under `API_KEY_HEADER`.
    pub fn api_key(&self) -> (k: &str)
        ensures
            k@ == self.key(),
    {
        self.api_key.as_str()
    }

    /// The address to ask for the latest quote of `ticker` in `currency`.
    pub fn quote_url(ticker: &str, currency: &str) -> (url: String)
        ensures
            url@ == quote_url_of(ticker@, currency@),
    {
        let mut url =
            "https://pro-api.coinmarketcap.com/v2/cryptocurrency/quotes/latest?symbol=".to_owned();
        url.append(ticker);
        url.append("&convert=");
        url.append(currency);
        url
    }

    /// Reads the price of `ticker` in `currency` out of a parsed answer.
    pub fn read_price(document: &Json, ticker: &str, currency: &str) -> (r: Result<
        String,
        VendorError,
    >)
        ensures
            outcome_text(r) == price_in(*document, ticker@, currency@),
    {
        let entries = step(document.member(&"data".to_owned()), ticker);
        let first = match entries {
            Some(entries) => entries.element(0),
            None => None,
        };
        let price = step(step(step(first, "quote"), currency), "price");
        let text = match price {
            Some(node) => node.number_text(),
            None => None,
        };
        match text {
            Some(text) => Ok(text),
            None => Err(VendorError::new("Price not found".to_owned())),
        }
    }

    /// Reads the price of `ticker` in `currency` out of the body of an answer.
    pub fn read_quote(body: &str, ticker: &str, currency: &str) -> (r: Result<String, VendorError>)
        ensures
            outcome_text(r) == quote_in(body@, ticker@, currency@),
    {
        match parse(body) {
            Ok(document) => Self::read_price(&document, ticker, currency),
            Err(message) => {
                let mut text = "JSON parse error: ".to_owned();
                text.append(message.as_str());
                Err(VendorError::new(text))
            },
        }
    }
}

/// One step down a document: the member called `name` of a value that is
/// there, nothing of one that is not.
fn step<'a>(value: Option<&'a Json>, name: &str) -> (r: Option<&'a Json>)
    ensures
        match r {
            Some(member) => then_member(
                match value {
                    Some(value) => Some(*value),
                    None => None,
                },
                name@,
            ) == Some(*member),
            None => then_member(
                match value {
                    Some(value) => Some(*value),
                    None => None,
                },
                name@,
            ) is None,
        },
{
    match value {
        Some(value) => value.member(&name.to_owned()),
        None => None,
    }
}

} // verus!
