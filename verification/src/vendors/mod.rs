//! Price sources and the cache that decorates them.

pub mod cache;
pub mod coinmarketcap;

pub use cache::CacheLayerVendor;
pub use coinmarketcap::CoinMarketCapVendor;

use vstd::prelude::*;

verus! {

/// The failure of a price source, carrying a human-readable cause.
#[derive(Debug)]
pub struct VendorError {
    message: String,
}

impl VendorError {
    /// The cause as a sequence of characters.
    pub closed spec fn message(&self) -> Seq<char> {
        self.message@
    }

    /// A failure with the given cause.
    pub fn new(message: String) -> (e: Self)
        ensures
            e.message() == message@,
    {
        VendorError { message }
    }

    /// The cause, word for word.
    pub fn to_string(&self) -> (s: String)
        ensures
            s@ == self.message(),
    {
        self.message.clone()
    }
}

/// A capability that yields the price of a ticker in a currency, as text, or
/// fails with a cause. Nothing is asked of the text: a cache stores it and
/// serves it again as it came.
pub trait ApiVendor: Send + Sync {
    /// The price of `ticker` in `currency`, or why there is none.
    fn get_price(&mut self, ticker: String, currency: String) -> Result<String, VendorError>;
}

} // verus!
