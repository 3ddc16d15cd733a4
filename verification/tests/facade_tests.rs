use cryptowatch::api::rest::{Details, List, ListStart};
use cryptowatch::api::{Auth, Cryptowatch, CryptowatchAPI};

#[test]
fn default_facade_points_at_production() {
    let cw = Cryptowatch::default();
    assert_eq!(cw.base_url, "https://api.cryptowat.ch");
    assert_eq!(cw.authenticated(), false);
}

#[test]
fn facade_with_auth_reports_it() {
    let cw = Cryptowatch::new("http://localhost:8080".to_string(), Some(Auth::default()));
    assert_eq!(cw.base_url, "http://localhost:8080");
    assert!(cw.authenticated());
}

#[test]
fn facade_without_auth_reports_none() {
    let cw = Cryptowatch::new("http://localhost:8080".to_string(), None);
    assert!(!cw.authenticated());
}

#[test]
fn facade_hands_out_working_clients() {
    let cw = Cryptowatch::default();
    match cw.exchange().list_plan(&cw.base_url, None) {
        ListStart::Fetch(url) => assert_eq!(url, "https://api.cryptowat.ch/exchanges"),
        ListStart::Done(_) => panic!("the first page must be fetched"),
    }
    assert_eq!(
        cw.pairs().details_url(&cw.base_url, "btcgbp"),
        "https://api.cryptowat.ch/pairs/btcgbp"
    );
    assert_eq!(
        cw.market().details_url(&cw.base_url, "kraken", "btcgbp"),
        "https://api.cryptowat.ch/markets/kraken/btcgbp"
    );
}
