//! Price lookup for cryptocurrency tickers, with a time-bounded cache in front
//! of the quote source.

pub mod api;
pub mod clock;
pub mod json;
pub mod vendors;
