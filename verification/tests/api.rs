use coin_price::api::check_request;
use coin_price::api::Api;
use coin_price::api::ApiError;
use coin_price::api::BAD_REQUEST;
use coin_price::api::DEFAULT_CURRENCY;
use coin_price::vendors::ApiVendor;
use coin_price::vendors::VendorError;
use std::collections::HashMap;
use std::sync::Arc;
use std::sync::Mutex;

// Mock ApiVendor for testing
struct TableVendor {
    // Map of (ticker, currency) -> price
    prices: Mutex<HashMap<(String, String), String>>,
    asked: Arc<Mutex<Vec<(String, String)>>>,
}

impl TableVendor {
    fn new() -> Self {
        Self { prices: Mutex::new(HashMap::new()), asked: Arc::new(Mutex::new(Vec::new())) }
    }

    fn set_price(&self, ticker: &str, currency: &str, price: &str) {
        self.prices
            .lock()
            .unwrap()
            .insert((ticker.to_string(), currency.to_string()), price.to_string());
    }
}

impl ApiVendor for TableVendor {
    fn get_price(&mut self, ticker: String, currency: String) -> Result<String, VendorError> {
        self.asked.lock().unwrap().push((ticker.clone(), currency.clone()));
        let prices = self.prices.lock().unwrap();
        if let Some(price) = prices.get(&(ticker.clone(), currency.clone())) {
            Ok(price.clone())
        } else {
            Err(VendorError::new(format!("No price found for {}/{}", ticker, currency)))
        }
    }
}

// Helper function to create a test API instance
fn create_test_api() -> Api {
    create_watched_api().0
}

fn create_watched_api() -> (Api, Arc<Mutex<Vec<(String, String)>>>) {
    let mock_vendor = TableVendor::new();
    mock_vendor.set_price("BTC", "USD", "50000.0");
    mock_vendor.set_price("ETH", "USD", "3000.0");
    mock_vendor.set_price("BTC", "EUR", "45000.0");
    let asked = mock_vendor.asked.clone();

    let api = Api {
        vendor: Box::new(mock_vendor),
        allowed_tickers: vec!["BTC".to_string(), "ETH".to_string()],
        allowed_currencies: vec!["USD".to_string(), "EUR".to_string()],
    };
    (api, asked)
}

#[test]
fn test_get_coin_price_success() {
    let mut api = create_test_api();

    // Test BTC/USD
    let result = api.get_coin_price("BTC".to_string(), Some("USD".to_string()));
    assert!(result.is_ok());
    assert_eq!(result.unwrap(), "50000.0");

    // Test ETH/USD
    let result = api.get_coin_price("ETH".to_string(), Some("USD".to_string()));
    assert!(result.is_ok());
    assert_eq!(result.unwrap(), "3000.0");

    // Test BTC/EUR
    let result = api.get_coin_price("BTC".to_string(), Some("EUR".to_string()));
    assert!(result.is_ok());
    assert_eq!(result.unwrap(), "45000.0");
}

#[test]
fn test_default_currency() {
    let mut api = create_test_api();

    // Test with no currency specified (should default to USD)
    let result = api.get_coin_price("BTC".to_string(), None);
    assert!(result.is_ok());
    assert_eq!(result.unwrap(), "50000.0");
}

#[test]
fn test_invalid_ticker() {
    let mut api = create_test_api();

    // Test with invalid ticker
    let result = api.get_coin_price("WNCG".to_string(), Some("USD".to_string()));
    assert!(result.is_err());

    // Extract the error and check its status
    let err = result.unwrap_err();
    assert_eq!(err.status(), Some(400));
}

#[test]
fn test_invalid_currency() {
    let mut api = create_test_api();

    // Test with invalid currency
    let result = api.get_coin_price("BTC".to_string(), Some("KRW".to_string()));
    assert!(result.is_err());

    // Extract the error and check its status
    let err = result.unwrap_err();
    assert_eq!(err.status(), Some(400));
}

#[test]
fn rejections_say_why_and_do_not_reach_the_source() {
    let (mut api, asked) = create_watched_api();

    let err = api.get_coin_price("WNCG".to_string(), Some("USD".to_string())).unwrap_err();
    assert!(matches!(err, ApiError::TickerNotAllowed));
    assert_eq!(err.to_string(), "Ticker not allowed");

    let err = api.get_coin_price("BTC".to_string(), Some("KRW".to_string())).unwrap_err();
    assert!(matches!(err, ApiError::CurrencyNotAllowed));
    assert_eq!(err.to_string(), "Currency not allowed");

    // Where both are wrong the ticker is named.
    let err = api.get_coin_price("WNCG".to_string(), Some("KRW".to_string())).unwrap_err();
    assert!(matches!(err, ApiError::TickerNotAllowed));

    // The lists are matched letter for letter.
    let err = api.get_coin_price("btc".to_string(), None).unwrap_err();
    assert!(matches!(err, ApiError::TickerNotAllowed));
    let err = api.get_coin_price("BTC".to_string(), Some("usd".to_string())).unwrap_err();
    assert!(matches!(err, ApiError::CurrencyNotAllowed));

    assert!(asked.lock().unwrap().is_empty());
}

#[test]
fn allowed_request_is_handed_on_as_it_is() {
    let (mut api, asked) = create_watched_api();
    assert_eq!(DEFAULT_CURRENCY, "USD");

    api.get_coin_price("ETH".to_string(), None).unwrap();
    api.get_coin_price("BTC".to_string(), Some("EUR".to_string())).unwrap();
    assert_eq!(
        *asked.lock().unwrap(),
        vec![
            ("ETH".to_string(), "USD".to_string()),
            ("BTC".to_string(), "EUR".to_string()),
        ]
    );
}

#[test]
fn source_failure_comes_back_as_it_was() {
    let mut api = create_test_api();

    // Allowed, but the source has no price for the pair.
    let err = api.get_coin_price("ETH".to_string(), Some("EUR".to_string())).unwrap_err();
    assert!(matches!(err, ApiError::Vendor(_)));
    assert_eq!(err.to_string(), "No price found for ETH/EUR");
    assert_eq!(err.status(), None);
}

#[test]
fn check_request_settles_the_currency() {
    let tickers = vec!["BTC".to_string(), "ETH".to_string()];
    let currencies = vec!["USD".to_string(), "EUR".to_string()];
    let btc = "BTC".to_string();

    assert_eq!(check_request(&tickers, &currencies, &btc, None).unwrap(), "USD");
    assert_eq!(check_request(&tickers, &currencies, &btc, Some("EUR".to_string())).unwrap(), "EUR");
    assert!(matches!(
        check_request(&tickers, &currencies, &btc, Some(String::new())),
        Err(ApiError::CurrencyNotAllowed)
    ));
    assert!(matches!(
        check_request(&tickers, &currencies, &String::new(), None),
        Err(ApiError::TickerNotAllowed)
    ));
}

#[test]
fn empty_lists_allow_nothing() {
    let mut api = Api {
        vendor: Box::new(TableVendor::new()),
        allowed_tickers: vec![],
        allowed_currencies: vec!["USD".to_string()],
    };
    let err = api.get_coin_price("BTC".to_string(), None).unwrap_err();
    assert!(matches!(err, ApiError::TickerNotAllowed));

    // The default currency is checked like any other.
    let mut api = Api {
        vendor: Box::new(TableVendor::new()),
        allowed_tickers: vec!["BTC".to_string()],
        allowed_currencies: vec!["EUR".to_string()],
    };
    let err = api.get_coin_price("BTC".to_string(), None).unwrap_err();
    assert!(matches!(err, ApiError::CurrencyNotAllowed));
    assert_eq!(err.status(), Some(BAD_REQUEST));
}

#[test]
fn respond_maps_the_answer() {
    assert_eq!(Api::respond(Ok("1.0".to_string())).unwrap(), "1.0");
    let err = Api::respond(Err(VendorError::new("Test error".to_string()))).unwrap_err();
    assert!(matches!(err, ApiError::Vendor(_)));
    assert_eq!(err.to_string(), "Test error");
}
