//! The decisions of the streaming news client. The client connects to the
//! news service, logs in when it has an API key, subscribes to all news,
//! and then reads frames; on any failure it drops the connection, waits
//! `RECONNECT_DELAY_MS`, and connects again. The I/O is done by the caller,
//! which performs the actions that `next_step` returns and reports what
//! came of them as the next event.

use vstd::prelude::*;
use crate::news::NewsItem;

verus! {

/// How long the client waits before connecting again, in milliseconds.
pub const RECONNECT_DELAY_MS: u64 = 5000;

/// The command that subscribes to all news.
pub const SUBSCRIBE_COMMAND: &'static str = "sub all";

/// The reason given when the server closes the connection.
pub const CLOSED_REASON: &'static str = "Connection closed";

/// Events emitted by the news subscription.
#[derive(Debug, Clone)]
pub enum Event {
    /// Connected to the news WebSocket.
    Connected,
    /// Disconnected from the news WebSocket, with the reason.
    Disconnected(String),
    /// Received a news item.
    NewsReceived(NewsItem),
}

/// Where the client stands with its connection.
#[derive(Debug, Clone, Copy, PartialEq, Eq, Structural)]
pub enum LinkState {
    /// No connection.
    Disconnected,
    /// Connected; the login command is being written.
    SendingLogin,
    /// Connected; the subscribe command is being written.
    Subscribing,
    /// Subscribed; frames are being read.
    Connected,
}

/// What came of the last action (or `Ready` when it yields nothing).
#[derive(Debug, Clone)]
pub enum LinkEvent {
    /// Nothing is pending.
    Ready,
    /// The connection was opened.
    Opened,
    /// The connection could not be opened.
    OpenFailed(String),
    /// A frame was written.
    Sent,
    /// A frame could not be written.
    SendFailed(String),
    /// A text frame was read; it held a news item when it parsed as one.
    TextFrame(Option<NewsItem>),
    /// The server closed the connection.
    CloseFrame,
    /// A ping was read, with its payload.
    PingFrame(Vec<u8>),
    /// Some other frame was read.
    OtherFrame,
    /// Reading failed, with the reason.
    ReadFailed(String),
}

/// What the caller is to do, in order.
#[derive(Debug, Clone)]
pub enum LinkAction {
    /// Open a connection to the news service.
    Open,
    /// Write a text frame.
    SendText(String),
    /// Answer a ping with a pong that carries its payload.
    SendPong(Vec<u8>),
    /// Hand an event to the subscriber.
    Emit(Event),
    /// Wait `RECONNECT_DELAY_MS`.
    Pause,
    /// Read the next frame.
    Read,
}

/// The kind of an event handed to the subscriber.
#[derive(Debug, Clone, Copy, PartialEq, Eq, Structural)]
pub enum EventKind {
    Connected,
    Disconnected,
    News,
}

/// The kind of `event`.
pub open spec fn event_kind(event: Event) -> EventKind {
    match event {
        Event::Connected => EventKind::Connected,
        Event::Disconnected(_) => EventKind::Disconnected,
        Event::NewsReceived(_) => EventKind::News,
    }
}

/// The kinds of the events that `actions` hands to the subscriber, in order.
pub open spec fn emitted(actions: Seq<LinkAction>) -> Seq<EventKind>
    decreases actions.len(),
{
    if actions.len() == 0 {
        seq![]
    } else {
        let rest = emitted(actions.drop_first());
        match actions[0] {
            LinkAction::Emit(e) => seq![event_kind(e)] + rest,
            _ => rest,
        }
    }
}

/// The client's state after `event` in `state`, with or without an API key.
pub open spec fn next_state(state: LinkState, has_key: bool, event: LinkEvent) -> LinkState {
    match (state, event) {
        (LinkState::Disconnected, LinkEvent::Opened) => if has_key {
            LinkState::SendingLogin
        } else {
            LinkState::Subscribing
        },
        (LinkState::Disconnected, _) => LinkState::Disconnected,
        (LinkState::SendingLogin, LinkEvent::Sent) => LinkState::Subscribing,
        (LinkState::SendingLogin, _) => LinkState::Disconnected,
        (LinkState::Subscribing, LinkEvent::Sent) => LinkState::Connected,
        (LinkState::Subscribing, _) => LinkState::Disconnected,
        (LinkState::Connected, LinkEvent::CloseFrame) => LinkState::Disconnected,
        (LinkState::Connected, LinkEvent::ReadFailed(_)) => LinkState::Disconnected,
        (LinkState::Connected, _) => LinkState::Connected,
    }
}

/// The kinds of the events that the step on `event` in `state` hands on.
pub open spec fn step_emits(state: LinkState, event: LinkEvent) -> Seq<EventKind> {
    match (state, event) {
        (LinkState::Subscribing, LinkEvent::Sent) => seq![EventKind::Connected],
        (LinkState::Connected, LinkEvent::TextFrame(Some(_))) => seq![EventKind::News],
        (LinkState::Connected, LinkEvent::CloseFrame) => seq![EventKind::Disconnected],
        (LinkState::Connected, LinkEvent::ReadFailed(_)) => seq![EventKind::Disconnected],
        _ => seq![],
    }
}

/// The kinds of the events handed on while the client steps through `events`
/// from `state`.
pub open spec fn run_emits(state: LinkState, has_key: bool, events: Seq<LinkEvent>) -> Seq<
    EventKind,
>
    decreases events.len(),
{
    if events.len() == 0 {
        seq![]
    } else {
        step_emits(state, events[0]) + run_emits(
            next_state(state, has_key, events[0]),
            has_key,
            events.drop_first(),
        )
    }
}

/// `kinds` is a well-formed history of a subscription, given whether it
/// stands connected at its start: `Connected` only while disconnected,
/// `Disconnected` only while connected, news only while connected.
pub open spec fn well_alternated(kinds: Seq<EventKind>, connected: bool) -> bool
    decreases kinds.len(),
{
    if kinds.len() == 0 {
        true
    } else {
        match kinds[0] {
            EventKind::Connected => !connected && well_alternated(kinds.drop_first(), true),
            EventKind::Disconnected => connected && well_alternated(kinds.drop_first(), false),
            EventKind::News => connected && well_alternated(kinds.drop_first(), true),
        }
    }
}

/// Whatever the outside world replies, the events handed to the subscriber
/// follow (Connected News* Disconnected)* (Connected News*)?: the first is
/// `Connected`, `Connected` and `Disconnected` alternate, and news comes
/// only between a `Connected` and the next `Disconnected`. More generally,
/// from any state the history is well-formed given whether that state is
/// the subscribed one.
pub proof fn law_events_alternate(state: LinkState, has_key: bool, events: Seq<LinkEvent>)
    ensures
        well_alternated(run_emits(state, has_key, events), state == LinkState::Connected),
        state == LinkState::Disconnected && run_emits(state, has_key, events).len() > 0
            ==> run_emits(state, has_key, events)[0] == EventKind::Connected,
    decreases events.len(),
{
    if events.len() > 0 {
        let e = events[0];
        let next = next_state(state, has_key, e);
        let rest = run_emits(next, has_key, events.drop_first());
        law_events_alternate(next, has_key, events.drop_first());
        let here = step_emits(state, e);
        let all = here + rest;
        assert(all == run_emits(state, has_key, events));
        if here.len() == 1 {
            assert(all[0] == here[0]);
            assert(all.drop_first() =~= rest);
        } else {
            assert(all =~= rest);
        }
    }
}

/// The login command for an API key.
pub open spec fn login_command(key: Seq<char>) -> Seq<char> {
    "login "@ + key
}

/// `actions` is the single action of writing `text`.
pub open spec fn sends(actions: Seq<LinkAction>, text: Seq<char>) -> bool {
    &&& actions.len() == 1
    &&& actions[0] matches LinkAction::SendText(t) && t@ == text
}

/// `actions` hands on a disconnection with reason `reason`, then does `rest`.
pub open spec fn emits_disconnect(actions: Seq<LinkAction>, reason: Seq<char>, rest: Seq<LinkAction>) -> bool {
    &&& actions.len() == rest.len() + 1
    &&& actions[0] matches LinkAction::Emit(Event::Disconnected(r)) && r@ == reason
    &&& actions.subrange(1, actions.len() as int) == rest
}

/// The text frame that starts the handshake: the login when there is a key,
/// else the subscription.
fn first_command(api_key: &Option<String>) -> (res: (LinkState, String))
    ensures
        match api_key {
            Some(key) => res.0 == LinkState::SendingLogin && res.1@ == login_command(key@),
            None => res.0 == LinkState::Subscribing && res.1@ == SUBSCRIBE_COMMAND@,
        },
{
    match api_key {
        Some(key) => {
            let mut command = "login ".to_string();
            command.append(key.as_str());
            (LinkState::SendingLogin, command)
        },
        None => (LinkState::Subscribing, SUBSCRIBE_COMMAND.to_string()),
    }
}

/// The client's next state, and the actions to perform, after `event` in
/// `state`.
///
/// - Disconnected: when ready, open a connection; once opened, write the
///   login (with a key) or the subscription (without); if opening failed,
///   pause.
/// - Writing the login: once written, write the subscription.
/// - Writing the subscription: once written, hand on `Event::Connected`
///   and start reading.
/// - A failed write during the handshake drops the connection and pauses.
/// - Connected: hand on each news item read; answer pings with pongs and
///   ignore whether the pong was written; on a close frame hand on
///   `Event::Disconnected("Connection closed")` and reconnect at once; on
///   a read error hand on `Event::Disconnected` with its reason and pause.
///   Otherwise read on.
/// - An event that cannot come in a state is ignored where a connection
///   is open and subscribed (read on) or absent (open one), and aborts the
///   handshake (drop the connection and pause).
pub fn next_step(state: LinkState, api_key: &Option<String>, event: LinkEvent) -> (res: (
    LinkState,
    Vec<LinkAction>,
))
    ensures
        match (state, event) {
            (LinkState::Disconnected, LinkEvent::Opened) => match api_key {
                Some(key) => res.0 == LinkState::SendingLogin && sends(res.1@, login_command(key@)),
                None => res.0 == LinkState::Subscribing && sends(res.1@, SUBSCRIBE_COMMAND@),
            },
            (LinkState::Disconnected, LinkEvent::OpenFailed(_)) => res.0 == LinkState::Disconnected
                && res.1@ == seq![LinkAction::Pause],
            (LinkState::Disconnected, _) => res.0 == LinkState::Disconnected && res.1@ == seq![
                LinkAction::Open,
            ],
            (LinkState::SendingLogin, LinkEvent::Sent) => res.0 == LinkState::Subscribing && sends(
                res.1@,
                SUBSCRIBE_COMMAND@,
            ),
            (LinkState::SendingLogin, _) => res.0 == LinkState::Disconnected && res.1@ == seq![
                LinkAction::Pause,
            ],
            (LinkState::Subscribing, LinkEvent::Sent) => res.0 == LinkState::Connected && res.1@
                == seq![LinkAction::Emit(Event::Connected), LinkAction::Read],
            (LinkState::Subscribing, _) => res.0 == LinkState::Disconnected && res.1@ == seq![
                LinkAction::Pause,
            ],
            (LinkState::Connected, LinkEvent::TextFrame(Some(news))) => res.0
                == LinkState::Connected && res.1@ == seq![
                LinkAction::Emit(Event::NewsReceived(news)),
                LinkAction::Read,
            ],
            (LinkState::Connected, LinkEvent::PingFrame(payload)) => res.0 == LinkState::Connected
                && res.1@ == seq![LinkAction::SendPong(payload)],
            (LinkState::Connected, LinkEvent::CloseFrame) => res.0 == LinkState::Disconnected
                && emits_disconnect(res.1@, CLOSED_REASON@, seq![]),
            (LinkState::Connected, LinkEvent::ReadFailed(reason)) => res.0 == LinkState::Disconnected
                && emits_disconnect(res.1@, reason@, seq![LinkAction::Pause]),
            (LinkState::Connected, _) => res.0 == LinkState::Connected && res.1@ == seq![
                LinkAction::Read,
            ],
        },
        // The subscription is in place before the client counts as connected,
        // and the subscriber hears of it.
        res.0 == LinkState::Connected && state != LinkState::Connected ==> state
            == LinkState::Subscribing && event is Sent && res.1@[0] == LinkAction::Emit(
            Event::Connected,
        ),
        // Losing a subscribed connection is always handed on to the subscriber.
        state == LinkState::Connected && res.0 != LinkState::Connected ==> res.1@.len() > 0
            && res.1@[0] matches LinkAction::Emit(Event::Disconnected(_)),
        // Every step asks for at least one action.
        res.1@.len() > 0,
        res.0 == next_state(state, api_key is Some, event),
        // The frames written, and the reasons handed on, word for word.
        state == LinkState::Disconnected && event is Opened ==> res.1@.len() == 1 && (
        res.1@[0] matches LinkAction::SendText(t) && t@ == match api_key {
            Some(key) => "login "@ + key@,
            None => "sub all"@,
        }),
        state == LinkState::SendingLogin && event is Sent ==> res.1@.len() == 1 && (
        res.1@[0] matches LinkAction::SendText(t) && t@ == "sub all"@),
        state == LinkState::Connected && event is CloseFrame ==> res.1@.len() == 1 && (
        res.1@[0] matches LinkAction::Emit(Event::Disconnected(r)) && r@ == "Connection closed"@),
        state == LinkState::Connected && event is ReadFailed ==> res.1@.len() == 2 && (
        res.1@[0] matches LinkAction::Emit(Event::Disconnected(r)) && r@ == event->ReadFailed_0@)
            && res.1@[1] == LinkAction::Pause,
        emitted(res.1@) == step_emits(state, event),
{
    proof {
        reveal_with_fuel(emitted, 3);
    }
    match state {
        LinkState::Disconnected => match event {
            LinkEvent::Opened => {
                let (next, command) = first_command(api_key);
                (next, vec![LinkAction::SendText(command)])
            },
            LinkEvent::OpenFailed(_) => (LinkState::Disconnected, vec![LinkAction::Pause]),
            _ => (LinkState::Disconnected, vec![LinkAction::Open]),
        },
        LinkState::SendingLogin => match event {
            LinkEvent::Sent => (
                LinkState::Subscribing,
                vec![LinkAction::SendText(SUBSCRIBE_COMMAND.to_string())],
            ),
            _ => (LinkState::Disconnected, vec![LinkAction::Pause]),
        },
        LinkState::Subscribing => match event {
            LinkEvent::Sent => (
                LinkState::Connected,
                vec![LinkAction::Emit(Event::Connected), LinkAction::Read],
            ),
            _ => (LinkState::Disconnected, vec![LinkAction::Pause]),
        },
        LinkState::Connected => match event {
            LinkEvent::TextFrame(Some(news)) => (
                LinkState::Connected,
                vec![LinkAction::Emit(Event::NewsReceived(news)), LinkAction::Read],
            ),
            LinkEvent::PingFrame(payload) => (
                LinkState::Connected,
                vec![LinkAction::SendPong(payload)],
            ),
            LinkEvent::CloseFrame => {
                let actions = vec![LinkAction::Emit(Event::Disconnected(CLOSED_REASON.to_string()))];
                assert(actions@.subrange(1, actions@.len() as int) =~= seq![]);
                (LinkState::Disconnected, actions)
            },
            LinkEvent::ReadFailed(reason) => {
                let actions = vec![LinkAction::Emit(Event::Disconnected(reason)), LinkAction::Pause];
                assert(actions@.subrange(1, actions@.len() as int) =~= seq![LinkAction::Pause]);
                (LinkState::Disconnected, actions)
            },
            _ => (LinkState::Connected, vec![LinkAction::Read]),
        },
    }
}

} // verus!
