//! The price endpoint: which requests it takes, and what it answers.

use crate::vendors::ApiVendor;
use crate::vendors::VendorError;
use vstd::prelude::*;

verus! {

/// The currency that a request without one asks for.
pub const DEFAULT_CURRENCY: &'static str = "USD";

/// The status of the response that turns a request down.
pub const BAD_REQUEST: u16 = 400;

/// Whether `name` is one of `names`, letter for letter.
pub open spec fn listed(names: Seq<String>, name: Seq<char>) -> bool {
    exists|i: int| 0 <= i < names.len() && #[trigger] names[i]@ == name
}

/// The currency that a request asks for: the one it names, or the default.
pub open spec fn requested_currency(currency: Option<String>) -> Seq<char> {
    match currency {
        Some(name) => name@,
        None => DEFAULT_CURRENCY@,
    }
}

/// Why a request got no price.
#[derive(Debug)]
pub enum ApiError {
    /// The ticker is not on the list of those allowed.
    TickerNotAllowed,
    /// The currency is not on the list of those allowed.
    CurrencyNotAllowed,
    /// The request was in order and the price source failed.
    Vendor(VendorError),
}

impl ApiError {
    /// What the error says, as text.
    pub open spec fn message(&self) -> Seq<char> {
        match self {
            ApiError::TickerNotAllowed => "Ticker not allowed"@,
            ApiError::CurrencyNotAllowed => "Currency not allowed"@,
            ApiError::Vendor(error) => error.message(),
        }
    }

    /// What the error says.
    pub fn to_string(&self) -> (s: String)
        ensures
            s@ == self.message(),
    {
        match self {
            ApiError::TickerNotAllowed => "Ticker not allowed".to_owned(),
            ApiError::CurrencyNotAllowed => "Currency not allowed".to_owned(),
            ApiError::Vendor(error) => error.to_string(),
        }
    }

    /// The status of the response that reports the error: that of a bad
    /// request where the request was turned down, none where the source
    /// failed.
    pub fn status(&self) -> (s: Option<u16>)
        ensures
            s == (if *self is Vendor {
                None
            } else {
                Some(BAD_REQUEST)
            }),
    {
        match self {
            ApiError::Vendor(_) => None,
            _ => Some(BAD_REQUEST),
        }
    }
}

/// Whether `name` is one of `names`.
fn contains(names: &Vec<String>, name: &String) -> (found: bool)
    ensures
        found == listed(names@, name@),
{
    let mut i: usize = 0;
    while i < names.len()
        invariant
            i <= names.len(),
            forall|j: int| 0 <= j < i ==> #[trigger] names[j]@ != name@,
        decreases names.len() - i,
    {
        if names[i] == *name {
            return true;
        }
        i += 1;
    }
    false
}

/// What turns a request down, if anything does: a ticker that is not on its
/// list, or else a currency that is not on its list.
pub open spec fn rejection(
    allowed_tickers: Seq<String>,
    allowed_currencies: Seq<String>,
    ticker: Seq<char>,
    currency: Seq<char>,
) -> Option<ApiError> {
    if !listed(allowed_tickers, ticker) {
        Some(ApiError::TickerNotAllowed)
    } else if !listed(allowed_currencies, currency) {
        Some(ApiError::CurrencyNotAllowed)
    } else {
        None
    }
}

/// Checks a request against the two lists and settles its currency: the
/// currency to ask the source for, or the error that turns the request down.
pub fn check_request(
    allowed_tickers: &Vec<String>,
    allowed_currencies: &Vec<String>,
    ticker: &String,
    currency: Option<String>,
) -> (r: Result<String, ApiError>)
    ensures
        match rejection(
            allowed_tickers@,
            allowed_currencies@,
            ticker@,
            requested_currency(currency),
        ) {
            Some(error) => r == Err::<String, ApiError>(error),
            None => r matches Ok(name) && name@ == requested_currency(currency),
        },
{
    let currency = match currency {
        Some(name) => name,
        None => DEFAULT_CURRENCY.to_owned(),
    };
    if !contains(allowed_tickers, ticker) {
        Err(ApiError::TickerNotAllowed)
    } else if !contains(allowed_currencies, &currency) {
        Err(ApiError::CurrencyNotAllowed)
    } else {
        Ok(currency)
    }
}

/// The price endpoint: a price source, and the tickers and currencies that
/// may be asked for.
pub struct Api {
    pub vendor: Box<dyn ApiVendor>,
    pub allowed_tickers: Vec<String>,
    pub allowed_currencies: Vec<String>,
}

impl Api {
    /// What the endpoint answers once the source has: the price, or the
    /// source's failure as it came.
    pub fn respond(outcome: Result<String, VendorError>) -> (r: Result<String, ApiError>)
        ensures
            match outcome {
                Ok(price) => r == Ok::<String, ApiError>(price),
                Err(error) => r == Err::<String, ApiError>(ApiError::Vendor(error)),
            },
    {
        match outcome {
            Ok(price) => Ok(price),
            Err(error) => Err(ApiError::Vendor(error)),
        }
    }

    /// The price of `ticker` in `currency`, or in the default currency where
    /// none is named. A request that the lists turn down is answered with its
    /// error and the source is not asked. Any other is handed to the source,
    /// whose answer is the endpoint's. The lists stay as they are.
    pub fn get_coin_price(&mut self, ticker: String, currency: Option<String>) -> (r: Result<
        String,
        ApiError,
    >)
        ensures
            match rejection(
                old(self).allowed_tickers@,
                old(self).allowed_currencies@,
                ticker@,
                requested_currency(currency),
            ) {
                Some(error) => r == Err::<String, ApiError>(error) && *final(self) == *old(self),
                None => r is Ok || (r is Err && r->Err_0 is Vendor),
            },
            final(self).allowed_tickers == old(self).allowed_tickers,
            final(self).allowed_currencies == old(self).allowed_currencies,
    {
        match check_request(&self.allowed_tickers, &self.allowed_currencies, &ticker, currency) {
            Ok(currency) => Self::respond(self.vendor.get_price(ticker, currency)),
            Err(error) => Err(error),
        }
    }
}

} // verus!
