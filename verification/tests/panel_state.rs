use newsfeed::news::NewsItem;
use newsfeed::panel::{Action, Message, NewsPanel, MAX_NEWS_ITEMS};
use newsfeed::prices::{TickerPriceData, PRICE_HISTORY_LEN};

fn item(id: &str, body: &str) -> NewsItem {
    NewsItem {
        id: id.to_string(),
        title: "T".to_string(),
        body: body.to_string(),
        time: 0,
        source: None,
        coin: None,
        icon: None,
        link: None,
        image: None,
        suggestions: Vec::new(),
        news_type: None,
        info: None,
    }
}

#[test]
fn new_panel_is_empty() {
    let panel = NewsPanel::<f64>::new();
    assert!(panel.is_empty());
    assert_eq!(panel.len(), 0);
    let panel = NewsPanel::<f64>::default();
    assert!(panel.is_empty());
}

#[test]
fn add_news_puts_newest_first() {
    let mut panel = NewsPanel::<f64>::new();
    panel.add_news(item("a", "x"));
    panel.add_news(item("b", "y"));
    let ids: Vec<String> = panel.items_newest_first().iter().map(|n| n.id.clone()).collect();
    assert_eq!(ids, vec!["b".to_string(), "a".to_string()]);
    assert_eq!(panel.len(), 2);
    assert!(!panel.is_empty());
}

#[test]
fn add_news_keeps_at_most_max_items() {
    let mut panel = NewsPanel::<f64>::new();
    for i in 0..(MAX_NEWS_ITEMS + 5) {
        panel.add_news(item(&i.to_string(), "x"));
    }
    assert_eq!(panel.len(), MAX_NEWS_ITEMS);
    let items = panel.items_newest_first();
    assert_eq!(items[0].id, (MAX_NEWS_ITEMS + 4).to_string());
    assert_eq!(items[MAX_NEWS_ITEMS - 1].id, "5");
}

#[test]
fn ticker_click_opens_chart_in_new_window() {
    let mut panel = NewsPanel::<f64>::new();
    let action = panel.update::<f32>(Message::TickerClicked(
        "binance-futures".to_string(),
        "BTCUSDT".to_string(),
    ));
    match action {
        Some(Action::OpenChartInNewWindow { exchange, symbol }) => {
            assert_eq!(exchange, "binance-futures");
            assert_eq!(symbol, "BTCUSDT");
        }
        other => panic!("unexpected action: {:?}", other),
    }
}

#[test]
fn toggle_expand_twice_collapses() {
    let mut panel = NewsPanel::<f64>::new();
    assert!(panel.update::<f32>(Message::ToggleExpand("a".to_string())).is_none());
    assert!(panel.is_expanded(&"a".to_string()));
    assert!(!panel.is_expanded(&"b".to_string()));
    panel.update::<f32>(Message::ToggleExpand("a".to_string()));
    assert!(!panel.is_expanded(&"a".to_string()));
}

#[test]
fn toggle_other_item_switches_expansion() {
    let mut panel = NewsPanel::<f64>::new();
    panel.update::<f32>(Message::ToggleExpand("a".to_string()));
    panel.update::<f32>(Message::ToggleExpand("b".to_string()));
    assert!(panel.is_expanded(&"b".to_string()));
    assert!(!panel.is_expanded(&"a".to_string()));
}

#[test]
fn scrolling_changes_nothing() {
    let mut panel = NewsPanel::<f64>::new();
    panel.update::<f32>(Message::ToggleExpand("a".to_string()));
    assert!(panel.update(Message::Scrolled(3.5f32)).is_none());
    assert!(panel.is_expanded(&"a".to_string()));
}

#[test]
fn body_text_collapsed_and_expanded() {
    let long = "a".repeat(200);
    let news = item("n", &long);
    let mut panel = NewsPanel::<f64>::new();
    let collapsed = panel.body_text(&news);
    assert_eq!(collapsed, format!("{}...", "a".repeat(150)));
    panel.update::<f32>(Message::ToggleExpand("n".to_string()));
    assert_eq!(panel.body_text(&news), long);
}

#[test]
fn body_text_short_body_has_no_ellipsis() {
    let news = item("n", "short body");
    let panel = NewsPanel::<f64>::new();
    assert_eq!(panel.body_text(&news), "short body");
    let exact = item("m", &"b".repeat(150));
    assert_eq!(panel.body_text(&exact), "b".repeat(150));
}

#[test]
fn body_text_cuts_multibyte_at_boundary() {
    // 149 ASCII bytes then a 2-byte character: byte 150 is inside it.
    let body = format!("{}é tail", "x".repeat(149));
    let news = item("n", &body);
    let panel = NewsPanel::<f64>::new();
    assert_eq!(panel.body_text(&news), format!("{}...", "x".repeat(149)));
}

#[test]
fn record_price_sets_reference_from_first_sample() {
    let mut data: TickerPriceData<f64> = TickerPriceData::default();
    let zero = data.price_5m_ago == 0.0;
    data.record_price(100.0, zero);
    assert_eq!(data.price, 100.0);
    assert_eq!(data.price_5m_ago, 100.0);
    assert_eq!(data.price_history, vec![100.0]);
    let zero = data.price_5m_ago == 0.0;
    data.record_price(101.0, zero);
    assert_eq!(data.price, 101.0);
    assert_eq!(data.price_5m_ago, 100.0);
    assert_eq!(data.price_history, vec![100.0, 101.0]);
}

#[test]
fn record_price_keeps_a_bounded_window() {
    let mut data: TickerPriceData<f64> = TickerPriceData::default();
    for i in 1..=(PRICE_HISTORY_LEN + 3) {
        let zero = data.price_5m_ago == 0.0;
        data.record_price(i as f64, zero);
    }
    assert_eq!(data.price_history.len(), PRICE_HISTORY_LEN);
    assert_eq!(data.price_history[0], 4.0);
    assert_eq!(data.price_5m_ago, 4.0);
    assert_eq!(data.price, (PRICE_HISTORY_LEN + 3) as f64);
}

fn record(panel: &mut NewsPanel<f64>, symbol: &str, price: f64) {
    let zero = match panel.price_data(symbol) {
        Some(d) => d.price_5m_ago == 0.0,
        None => true,
    };
    panel.update_price(symbol, price, zero);
}

#[test]
fn update_price_keeps_each_symbol_apart() {
    let mut panel = NewsPanel::<f64>::new();
    assert!(panel.price_data("BTCUSDT").is_none());
    record(&mut panel, "BTCUSDT", 100.0);
    record(&mut panel, "ETHUSDT", 5.0);
    record(&mut panel, "BTCUSDT", 101.0);
    let btc = panel.price_data("BTCUSDT").unwrap();
    assert_eq!(btc.price, 101.0);
    assert_eq!(btc.price_5m_ago, 100.0);
    assert_eq!(btc.price_history, vec![100.0, 101.0]);
    let eth = panel.price_data("ETHUSDT").unwrap();
    assert_eq!(eth.price, 5.0);
    assert_eq!(eth.price_5m_ago, 5.0);
    assert_eq!(eth.price_history, vec![5.0]);
    assert!(panel.price_data("SOLUSDT").is_none());
}

#[test]
fn update_price_history_holds_last_samples_per_symbol() {
    let mut panel = NewsPanel::<f64>::new();
    for i in 1..=(PRICE_HISTORY_LEN + 5) {
        record(&mut panel, "BTCUSDT", i as f64);
        record(&mut panel, "ETHUSDT", -(i as f64));
    }
    let btc = panel.price_data("BTCUSDT").unwrap();
    let expected: Vec<f64> = (6..=(PRICE_HISTORY_LEN + 5)).map(|i| i as f64).collect();
    assert_eq!(btc.price_history, expected);
    assert_eq!(btc.price, (PRICE_HISTORY_LEN + 5) as f64);
    assert_eq!(btc.price_5m_ago, 6.0);
    let eth = panel.price_data("ETHUSDT").unwrap();
    assert_eq!(eth.price_history.len(), PRICE_HISTORY_LEN);
    assert_eq!(eth.price, -((PRICE_HISTORY_LEN + 5) as f64));
}

#[test]
fn update_price_leaves_news_and_expansion() {
    let mut panel = NewsPanel::<f64>::new();
    panel.add_news(item("a", "x"));
    panel.update(Message::<f32>::ToggleExpand("a".to_string()));
    record(&mut panel, "BTCUSDT", 1.0);
    assert_eq!(panel.len(), 1);
    assert!(panel.is_expanded(&"a".to_string()));
}
