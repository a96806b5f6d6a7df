use newsfeed::news::{NewsItem, NewsSuggestion, NewsSymbol};
use newsfeed::clock::{EARLIEST_MILLIS, LATEST_MILLIS};

fn item_with_body(body: &str) -> NewsItem {
    NewsItem {
        id: "id-1".to_string(),
        title: "Title".to_string(),
        body: body.to_string(),
        time: 0,
        source: None,
        coin: None,
        icon: None,
        link: None,
        image: None,
        suggestions: Vec::new(),
        news_type: None,
        info: None,
    }
}

fn symbol(exchange: &str, sym: &str) -> NewsSymbol {
    NewsSymbol { exchange: exchange.to_string(), symbol: sym.to_string() }
}

fn suggestion(coin: &str, symbols: Vec<NewsSymbol>) -> NewsSuggestion {
    NewsSuggestion { coin: coin.to_string(), found: Vec::new(), symbols }
}

#[test]
fn preview_of_short_body_is_whole_body() {
    let item = item_with_body("Bitcoin up");
    assert_eq!(item.body_preview(150), "Bitcoin up");
    assert_eq!(item.body_preview(10), "Bitcoin up");
}

#[test]
fn preview_of_long_ascii_body_is_cut_at_limit() {
    let item = item_with_body("Bitcoin surges past resistance");
    assert_eq!(item.body_preview(7), "Bitcoin");
    assert_eq!(item.body_preview(0), "");
}

#[test]
fn preview_never_splits_a_character() {
    // 'é' takes bytes 1..3; a limit of 2 falls inside it.
    let item = item_with_body("héllo");
    assert_eq!(item.body_preview(2), "h");
    assert_eq!(item.body_preview(3), "hé");
    // a four-byte character at the start
    let emoji = item_with_body("🚀 moon");
    assert_eq!(emoji.body_preview(3), "");
    assert_eq!(emoji.body_preview(4), "🚀");
}

#[test]
fn preferred_symbol_picks_binance_futures() {
    let mut item = item_with_body("x");
    item.suggestions = vec![suggestion(
        "BTC",
        vec![symbol("bybit-perps", "BTCUSDT"), symbol("binance-futures", "BTCUSDT_PERP")],
    )];
    let sym = item.preferred_symbol().unwrap();
    assert_eq!(sym.exchange, "binance-futures");
    assert_eq!(sym.symbol, "BTCUSDT_PERP");
}

#[test]
fn preferred_symbol_falls_back_to_first() {
    let mut item = item_with_body("x");
    item.suggestions = vec![suggestion(
        "ETH",
        vec![symbol("bybit-perps", "ETHUSDT"), symbol("okx", "ETH-USDT")],
    )];
    assert_eq!(item.preferred_symbol().unwrap().exchange, "bybit-perps");
}

#[test]
fn preferred_symbol_uses_only_first_suggestion() {
    let mut item = item_with_body("x");
    item.suggestions = vec![
        suggestion("SOL", vec![]),
        suggestion("BTC", vec![symbol("binance-futures", "BTCUSDT")]),
    ];
    assert!(item.preferred_symbol().is_none());
    item.suggestions.clear();
    assert!(item.preferred_symbol().is_none());
}

#[test]
fn suggestion_preferred_symbol_takes_first_binance_futures() {
    let s = suggestion(
        "BTC",
        vec![
            symbol("okx", "A"),
            symbol("binance-futures", "B"),
            symbol("binance-futures", "C"),
        ],
    );
    assert_eq!(s.preferred_symbol().unwrap().symbol, "B");
}

#[test]
fn ticker_targets_limit_and_skip() {
    let mut item = item_with_body("x");
    item.suggestions = vec![
        suggestion("A", vec![symbol("okx", "A1")]),
        suggestion("B", vec![]),
        suggestion("C", vec![symbol("okx", "C1"), symbol("binance-futures", "C2")]),
        suggestion("D", vec![symbol("okx", "D1")]),
        suggestion("E", vec![symbol("okx", "E1")]),
        suggestion("F", vec![symbol("okx", "F1")]),
    ];
    let targets = item.ticker_targets();
    let shown: Vec<(String, String)> =
        targets.iter().map(|(c, s)| (c.to_string(), s.symbol.clone())).collect();
    assert_eq!(
        shown,
        vec![
            ("A".to_string(), "A1".to_string()),
            ("C".to_string(), "C2".to_string()),
            ("D".to_string(), "D1".to_string()),
            ("E".to_string(), "E1".to_string()),
        ]
    );
}

#[test]
fn first_ticker_matches_preferred_symbol() {
    let mut item = item_with_body("x");
    item.suggestions = vec![suggestion(
        "BTC",
        vec![symbol("okx", "X"), symbol("binance-futures", "Y")],
    )];
    let targets = item.ticker_targets();
    assert_eq!(targets[0].1.symbol, item.preferred_symbol().unwrap().symbol);
}

#[test]
fn source_label_defaults_to_news() {
    let mut item = item_with_body("x");
    assert_eq!(item.source_label(), "News");
    item.source = Some("Binance EN".to_string());
    assert_eq!(item.source_label(), "Binance EN");
}

#[test]
fn display_time_formats_utc_clock() {
    let mut item = item_with_body("x");
    item.time = 0;
    assert_eq!(item.display_time(), "00:00:00");
    item.time = 947_638_923_004;
    assert_eq!(item.display_time(), "01:02:03");
    item.time = 1_700_000_000_000;
    assert_eq!(item.display_time(), "22:13:20");
}

#[test]
fn display_time_at_calendar_edges() {
    let mut item = item_with_body("x");
    item.time = LATEST_MILLIS as u64;
    assert_eq!(item.display_time(), "23:59:59");
    item.time = LATEST_MILLIS as u64 + 1;
    assert_eq!(item.display_time(), "??:??:??");
    // u64::MAX reads as -1 ms: one millisecond before the epoch.
    item.time = u64::MAX;
    assert_eq!(item.display_time(), "23:59:59");
    item.time = EARLIEST_MILLIS as u64;
    assert_eq!(item.display_time(), "00:00:00");
    item.time = (EARLIEST_MILLIS - 1) as u64;
    assert_eq!(item.display_time(), "??:??:??");
}
