use cryptowatch::api::rest::models::{Cursor, Market, Pair};
use cryptowatch::api::rest::{
    ApiError, Details, ExchangeAPI, List, ListStart, MarketAPI, PairsAPI,
};

const BASE: &str = "https://api.cryptowat.ch";

#[test]
fn first_page_url_has_no_cursor() {
    let api = PairsAPI {};
    match api.list_plan(BASE, None) {
        ListStart::Fetch(url) => assert_eq!(url, "https://api.cryptowat.ch/pairs"),
        ListStart::Done(_) => panic!("the first page must be fetched"),
    }
}

#[test]
fn continuation_url_appends_the_token() {
    let api = PairsAPI {};
    let cursor = Cursor { last: "tok".to_string(), has_more: true };
    match api.list_plan(BASE, Some(cursor)) {
        ListStart::Fetch(url) => assert_eq!(url, "https://api.cryptowat.ch/pairs?cursor=tok"),
        ListStart::Done(_) => panic!("a cursor with more pages must be fetched"),
    }
}

#[test]
fn exhausted_cursor_skips_the_request() {
    let api = MarketAPI::new();
    let cursor = Cursor { last: "tok".to_string(), has_more: false };
    match api.list_plan(BASE, Some(cursor)) {
        ListStart::Done(page) => {
            let page: cryptowatch::api::rest::PagedResult<Vec<Market>> = page;
            assert_eq!(page.result.len(), 0);
            assert!(page.cursor.is_none());
        },
        ListStart::Fetch(_) => panic!("an exhausted cursor must not fetch"),
    }
}

#[test]
fn two_pages_share_no_items() {
    let api = MarketAPI::new();
    let page1_body = r#"{
        "result":[
            {"id":1,"exchange":"kraken","pair":"btcgbp","active":true},
            {"id":2,"exchange":"kraken","pair":"btceur","active":true}
        ],
        "cursor":{"last":"p2","hasMore":true}
    }"#;
    let page1 = api.list_decode(page1_body).unwrap();
    let cursor1 = page1.cursor.unwrap();
    assert!(cursor1.has_more);

    let url1 = match api.list_plan(BASE, None) {
        ListStart::Fetch(u) => u,
        ListStart::Done(_) => panic!("first page must be fetched"),
    };
    let url2 = match api.list_plan(BASE, Some(Cursor { last: cursor1.last.clone(), has_more: true })) {
        ListStart::Fetch(u) => u,
        ListStart::Done(_) => panic!("second page must be fetched"),
    };
    assert_ne!(url1, url2);
    assert_eq!(url2, "https://api.cryptowat.ch/markets?cursor=p2");

    let page2_body = r#"{
        "result":[{"id":3,"exchange":"kraken","pair":"btcusd","active":true}],
        "cursor":{"last":"end","hasMore":false}
    }"#;
    let page2 = api.list_decode(page2_body).unwrap();
    assert!(!page2.cursor.as_ref().unwrap().has_more);

    let ids1: Vec<u64> = page1.result.iter().map(|m| m.id).collect();
    for m in page2.result.iter() {
        assert!(!ids1.contains(&m.id));
    }
}

#[test]
fn exchanges_list_from_fixture() {
    let api = ExchangeAPI {};
    let body = r#"{"result":[
        {"symbol":"kraken","name":"Kraken","active":true},
        {"symbol":"bitfinex","name":"Bitfinex","active":true},
        {"symbol":"binance","name":"Binance","active":true}
    ]}"#;
    let page = api.list_decode(body).unwrap();
    assert_ne!(0, page.result.len());
    let names: Vec<String> = page.result.into_iter().map(|e| e.name).collect();
    for exchange in ["Kraken", "Bitfinex", "Binance"] {
        assert!(names.contains(&exchange.to_string()));
    }
}

#[test]
fn pairs_two_pages_from_fixtures() {
    let api = PairsAPI {};
    let page1_body = r#"{"result":[
        {"symbol":"0neweth",
         "base":{"sid":"stone","symbol":"0ne","name":"Stone","fiat":false},
         "quote":{"sid":"weth","symbol":"weth","name":"Wrapped Ether","fiat":false}}
    ],"cursor":{"last":"page-two","hasMore":true}}"#;
    let page1 = api.list_decode(page1_body).unwrap();
    let pair1 = page1.result.get(0).unwrap();
    assert!(page1.cursor.is_some());
    assert!(pair1.symbol == "0neweth");
    let base1 = pair1.base.as_ref().unwrap();
    assert_eq!(base1.sid, "stone");
    assert_eq!(base1.symbol, "0ne");
    assert_eq!(base1.name, "Stone");
    assert!(!base1.fiat);

    let page2_body = r#"{"result":[
        {"symbol":"aaveaud",
         "base":{"sid":"aave","symbol":"aave","name":"Aave","fiat":false},
         "quote":{"sid":"australian-dollar","symbol":"aud","name":"Australian Dollar","fiat":true}}
    ],"cursor":{"last":"page-three","hasMore":true}}"#;
    let page2 = api.list_decode(page2_body).unwrap();
    let pair2 = page2.result.get(0).unwrap();
    assert!(page2.cursor.is_some());
    assert_ne!(pair2.symbol, "0neweth");
    let base2 = pair2.base.as_ref().unwrap();
    assert_ne!(base2.sid, "stone");
}

#[test]
fn exchange_details_from_fixture() {
    let api = ExchangeAPI {};
    let ex = api
        .details_decode(r#"{"result":{"symbol":"kraken","name":"Kraken","active":true}}"#)
        .unwrap();
    assert_eq!(ex.symbol, "kraken");
    let err = api.details_decode(r#"{"error":"not found"}"#).unwrap_err();
    match err {
        ApiError::ApplicationError(m) => assert_eq!(m, "not found"),
        _ => panic!("expected the application error"),
    }
}

#[test]
fn market_details_from_fixture() {
    let api = MarketAPI::new();
    let m: Market = api
        .details_decode(r#"{"result":{"id":88,"exchange":"kraken","pair":"btcgbp","active":true}}"#)
        .unwrap();
    assert_eq!(m.id, 88);
    assert_eq!(m.exchange, "kraken");
    assert_eq!(m.pair, "btcgbp");
    assert!(m.active);
}

#[test]
fn member_urls_are_exact() {
    let pairs = PairsAPI {};
    assert_eq!(pairs.details_url(BASE, "btcgbp"), "https://api.cryptowat.ch/pairs/btcgbp");
    let exchanges = ExchangeAPI {};
    assert_eq!(exchanges.details_url(BASE, "kraken"), "https://api.cryptowat.ch/exchanges/kraken");
    assert_eq!(exchanges.markets_url(BASE, "kraken"), "https://api.cryptowat.ch/markets/kraken");
    let market = MarketAPI::new();
    assert_eq!(
        market.summary_url(BASE, "kraken", "btcgbp"),
        "https://api.cryptowat.ch/markets/kraken/btcgbp/summary"
    );
    assert_eq!(
        market.details_url(BASE, "kraken", "btcgbp"),
        "https://api.cryptowat.ch/markets/kraken/btcgbp"
    );
    assert_eq!(
        market.price_url(BASE, "kraken", "btcgbp"),
        "https://api.cryptowat.ch/markets/kraken/btcgbp/price"
    );
    assert_eq!(
        market.trades_url(BASE, "kraken", "btcgbp"),
        "https://api.cryptowat.ch/markets/kraken/btcgbp/trades"
    );
    assert_eq!(
        market.orderbook_url(BASE, "kraken", "btcgbp"),
        "https://api.cryptowat.ch/markets/kraken/btcgbp/orderbook"
    );
    assert_eq!(
        market.ohlc_url(BASE, "kraken", "btcgbp"),
        "https://api.cryptowat.ch/markets/kraken/btcgbp/ohlc"
    );
}

#[test]
fn markets_for_exchange_decode() {
    let api = ExchangeAPI {};
    let body = r#"{"result":[
        {"id":1,"exchange":"kraken","pair":"btcgbp","active":true},
        {"id":2,"exchange":"kraken","pair":"btceur","active":false}
    ]}"#;
    let markets = api.markets_decode(body).unwrap();
    assert_eq!(markets.len(), 2);
    for m in markets.iter() {
        assert_eq!(m.exchange, "kraken");
    }
}

#[test]
fn pair_decode_with_assets() {
    let api = PairsAPI {};
    let body = r#"{"result":{
        "symbol":"btcgbp",
        "base":{"sid":"bitcoin","symbol":"btc","name":"Bitcoin","fiat":false},
        "quote":{"sid":"british-pound","symbol":"gbp","name":"British Pound","fiat":true}
    }}"#;
    let pair: Pair = api.details_decode(body).unwrap();
    assert_eq!(pair.symbol, "btcgbp");
    let base = pair.base.as_ref().unwrap();
    assert_eq!(base.sid, "bitcoin");
    assert_eq!(base.symbol, "btc");
    assert_eq!(base.name, "Bitcoin");
    assert!(!base.fiat);
    let quote = pair.quote.as_ref().unwrap();
    assert_eq!(quote.sid, "british-pound");
    assert_eq!(quote.symbol, "gbp");
    assert_eq!(quote.name, "British Pound");
    assert!(quote.fiat);
}

#[test]
fn pair_without_assets_decodes() {
    let api = PairsAPI {};
    let pair: Pair = api.details_decode(r#"{"result":{"symbol":"0neweth"}}"#).unwrap();
    assert_eq!(pair.symbol, "0neweth");
    assert!(pair.base.is_none());
    assert!(pair.quote.is_none());
}

#[test]
fn summary_decode_from_fixture() {
    let api = MarketAPI::new();
    let body = r#"{"result":{
        "price":{"last":9501.5,"high":9600.0,"low":9400.25,
                 "change":{"percentage":0.011,"absolute":101.5}},
        "volume":1234.5,
        "volumeQuote":117000.75
    }}"#;
    let summary = api.summary_decode(body).unwrap();
    let candle = summary.price.expect("the candle must be present");
    assert_eq!(candle.last.as_f64().unwrap(), 9501.5);
    assert_eq!(candle.high.as_f64().unwrap(), 9600.0);
    assert_eq!(candle.low.as_f64().unwrap(), 9400.25);
    let delta = candle.change.expect("the delta must be present");
    assert_eq!(delta.percentage.as_f64().unwrap(), 0.011);
    assert_eq!(delta.absolute.as_f64().unwrap(), 101.5);
    assert_eq!(summary.volume.as_f64().unwrap(), 1234.5);
    assert_eq!(summary.volume_quote.as_f64().unwrap(), 117000.75);
}

#[test]
fn price_decode_from_fixture() {
    let api = MarketAPI::new();
    let price = api.price_decode(r#"{"result":{"price":9500.5}}"#).unwrap();
    assert_eq!(price.price.as_f64().unwrap(), 9500.5);
}

#[test]
fn trades_decode_keeps_server_order() {
    let api = MarketAPI::new();
    let body = r#"{"result":[
        {"id":1,"timestamp":100,"price":9500.5,"amount":0.25},
        {"id":2,"timestamp":101,"price":9501.0,"amount":0.5}
    ]}"#;
    let trades = api.trades_decode(body).unwrap();
    assert_eq!(trades.len(), 2);
    assert_eq!(trades[0].timestamp, 100);
    assert_eq!(trades[1].timestamp, 101);
    assert_eq!(trades[0].id.as_u64().unwrap(), 1);
    assert_eq!(trades[1].id.as_u64().unwrap(), 2);
    assert_eq!(trades[0].amount.as_f64().unwrap(), 0.25);
}

#[test]
fn ohlc_round_trips_every_interval_key() {
    let api = MarketAPI::new();
    let body = r#"{"result":{
        "60":[{"last":1.0,"high":2.0,"low":0.5}],
        "180":[{"last":1.5,"high":2.5,"low":1.0}],
        "604800_Monday":[{"last":3.0,"high":4.0,"low":2.0}]
    }}"#;
    let ohlc = api.ohlc_decode(body).unwrap();
    assert_eq!(ohlc.len(), 3);
    for key in ["60", "180", "604800_Monday"] {
        let (_, candles) = ohlc
            .iter()
            .find(|(k, _)| k == key)
            .expect("every interval key of the fixture must round-trip");
        assert!(!candles.is_empty());
    }
}

#[test]
fn ohlc_rejects_a_non_array_interval() {
    let api = MarketAPI::new();
    let r = api.ohlc_decode(r#"{"result":{"60":5}}"#);
    assert!(matches!(r, Err(ApiError::UnexpectedShape(_))));
}

#[test]
fn prices_decode_from_fixture() {
    let api = MarketAPI::new();
    let body = r#"{"result":{
        "market:kraken:btcgbp":9500.5,
        "market:kraken:btceur":11000.0
    },"cursor":{"last":"next","hasMore":true}}"#;
    let page = api.prices_decode(body).unwrap();
    assert_eq!(page.prices.len(), 2);
    let (_, p) = page
        .prices
        .iter()
        .find(|(k, _)| k == "market:kraken:btcgbp")
        .expect("the market key must be present");
    assert_eq!(p.as_f64().unwrap(), 9500.5);
    let cursor = page.cursor.unwrap();
    assert_eq!(cursor.last, "next");
    assert!(cursor.has_more);
}

#[test]
fn prices_plan_skips_an_exhausted_cursor() {
    let api = MarketAPI::new();
    let cursor = Cursor { last: "end".to_string(), has_more: false };
    match api.prices_plan(BASE, Some(cursor)) {
        ListStart::Done(page) => {
            assert_eq!(page.prices.len(), 0);
            assert!(page.cursor.is_none());
        },
        ListStart::Fetch(_) => panic!("an exhausted cursor must not fetch"),
    }
}
