use newsfeed::news::NewsItem;
use newsfeed::request::news_request;
use newsfeed::stream::{next_step, Event, LinkAction, LinkEvent, LinkState, RECONNECT_DELAY_MS};

fn item(id: &str) -> NewsItem {
    NewsItem {
        id: id.to_string(),
        title: "T".to_string(),
        body: "B".to_string(),
        time: 0,
        source: None,
        coin: None,
        icon: None,
        link: None,
        image: None,
        suggestions: Vec::new(),
        news_type: None,
        info: None,
    }
}

fn sent_text(actions: &[LinkAction]) -> String {
    match actions {
        [LinkAction::SendText(t)] => t.clone(),
        other => panic!("expected one text frame, got {:?}", other),
    }
}

#[test]
fn news_request_url_and_header() {
    let req = news_request(50, &Some("abc".to_string()));
    assert_eq!(req.url, "https://news.treeofalpha.com/api/news?limit=50");
    assert_eq!(req.authorization, Some("Bearer abc".to_string()));
    let req = news_request(0, &None);
    assert_eq!(req.url, "https://news.treeofalpha.com/api/news?limit=0");
    assert_eq!(req.authorization, None);
    let req = news_request(usize::MAX, &None);
    assert_eq!(req.url, format!("https://news.treeofalpha.com/api/news?limit={}", usize::MAX));
}

#[test]
fn disconnected_ready_opens() {
    let (state, actions) = next_step(LinkState::Disconnected, &None, LinkEvent::Ready);
    assert_eq!(state, LinkState::Disconnected);
    assert!(matches!(actions.as_slice(), [LinkAction::Open]));
}

#[test]
fn open_failure_pauses() {
    let (state, actions) =
        next_step(LinkState::Disconnected, &None, LinkEvent::OpenFailed("401".to_string()));
    assert_eq!(state, LinkState::Disconnected);
    assert!(matches!(actions.as_slice(), [LinkAction::Pause]));
    assert_eq!(RECONNECT_DELAY_MS, 5000);
}

#[test]
fn handshake_with_key_logs_in_then_subscribes() {
    let key = Some("secret".to_string());
    let (state, actions) = next_step(LinkState::Disconnected, &key, LinkEvent::Opened);
    assert_eq!(state, LinkState::SendingLogin);
    assert_eq!(sent_text(&actions), "login secret");
    let (state, actions) = next_step(state, &key, LinkEvent::Sent);
    assert_eq!(state, LinkState::Subscribing);
    assert_eq!(sent_text(&actions), "sub all");
    let (state, actions) = next_step(state, &key, LinkEvent::Sent);
    assert_eq!(state, LinkState::Connected);
    assert!(matches!(
        actions.as_slice(),
        [LinkAction::Emit(Event::Connected), LinkAction::Read]
    ));
}

#[test]
fn handshake_without_key_subscribes_directly() {
    let (state, actions) = next_step(LinkState::Disconnected, &None, LinkEvent::Opened);
    assert_eq!(state, LinkState::Subscribing);
    assert_eq!(sent_text(&actions), "sub all");
}

#[test]
fn handshake_write_failure_reconnects_after_pause() {
    let key = Some("k".to_string());
    let (state, actions) =
        next_step(LinkState::SendingLogin, &key, LinkEvent::SendFailed("x".to_string()));
    assert_eq!(state, LinkState::Disconnected);
    assert!(matches!(actions.as_slice(), [LinkAction::Pause]));
    let (state, actions) =
        next_step(LinkState::Subscribing, &key, LinkEvent::SendFailed("x".to_string()));
    assert_eq!(state, LinkState::Disconnected);
    assert!(matches!(actions.as_slice(), [LinkAction::Pause]));
}

#[test]
fn connected_forwards_news() {
    let (state, actions) =
        next_step(LinkState::Connected, &None, LinkEvent::TextFrame(Some(item("n1"))));
    assert_eq!(state, LinkState::Connected);
    match actions.as_slice() {
        [LinkAction::Emit(Event::NewsReceived(n)), LinkAction::Read] => assert_eq!(n.id, "n1"),
        other => panic!("unexpected: {:?}", other),
    }
    let (state, actions) = next_step(LinkState::Connected, &None, LinkEvent::TextFrame(None));
    assert_eq!(state, LinkState::Connected);
    assert!(matches!(actions.as_slice(), [LinkAction::Read]));
}

#[test]
fn connected_answers_ping() {
    let (state, actions) =
        next_step(LinkState::Connected, &None, LinkEvent::PingFrame(vec![1, 2, 3]));
    assert_eq!(state, LinkState::Connected);
    match actions.as_slice() {
        [LinkAction::SendPong(p)] => assert_eq!(p, &vec![1u8, 2, 3]),
        other => panic!("unexpected: {:?}", other),
    }
    let (state, actions) =
        next_step(LinkState::Connected, &None, LinkEvent::SendFailed("x".to_string()));
    assert_eq!(state, LinkState::Connected);
    assert!(matches!(actions.as_slice(), [LinkAction::Read]));
}

#[test]
fn close_frame_disconnects_without_pause() {
    let (state, actions) = next_step(LinkState::Connected, &None, LinkEvent::CloseFrame);
    assert_eq!(state, LinkState::Disconnected);
    match actions.as_slice() {
        [LinkAction::Emit(Event::Disconnected(r))] => assert_eq!(r, "Connection closed"),
        other => panic!("unexpected: {:?}", other),
    }
}

#[test]
fn read_error_disconnects_and_pauses() {
    let (state, actions) =
        next_step(LinkState::Connected, &None, LinkEvent::ReadFailed("reset".to_string()));
    assert_eq!(state, LinkState::Disconnected);
    match actions.as_slice() {
        [LinkAction::Emit(Event::Disconnected(r)), LinkAction::Pause] => assert_eq!(r, "reset"),
        other => panic!("unexpected: {:?}", other),
    }
}

#[test]
fn other_frames_keep_reading() {
    let (state, actions) = next_step(LinkState::Connected, &None, LinkEvent::OtherFrame);
    assert_eq!(state, LinkState::Connected);
    assert!(matches!(actions.as_slice(), [LinkAction::Read]));
}

#[test]
fn emitted_events_alternate_over_a_session() {
    let key = Some("k".to_string());
    let replies = vec![
        LinkEvent::Ready,
        LinkEvent::OpenFailed("refused".to_string()),
        LinkEvent::Ready,
        LinkEvent::Opened,
        LinkEvent::Sent,
        LinkEvent::Sent,
        LinkEvent::TextFrame(Some(item("a"))),
        LinkEvent::PingFrame(vec![9]),
        LinkEvent::Sent,
        LinkEvent::TextFrame(None),
        LinkEvent::CloseFrame,
        LinkEvent::Ready,
        LinkEvent::Opened,
        LinkEvent::Sent,
        LinkEvent::Sent,
        LinkEvent::TextFrame(Some(item("b"))),
        LinkEvent::ReadFailed("reset".to_string()),
    ];
    let mut state = LinkState::Disconnected;
    let mut kinds: Vec<String> = Vec::new();
    for reply in replies {
        let (next, actions) = next_step(state, &key, reply);
        state = next;
        for action in actions {
            if let LinkAction::Emit(event) = action {
                kinds.push(match event {
                    Event::Connected => "C".to_string(),
                    Event::Disconnected(_) => "D".to_string(),
                    Event::NewsReceived(n) => format!("N{}", n.id),
                });
            }
        }
    }
    assert_eq!(kinds, vec!["C", "Na", "D", "C", "Nb", "D"]);
    assert_eq!(state, LinkState::Disconnected);
}
