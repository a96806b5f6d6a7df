# newsfeed

A verified core for a crypto news feed, written in Verus.

- `src/news.rs`: news items, body previews cut at character boundaries,
  the preferred trading symbol of a suggestion, the ticker buttons shown
  for an item, and its display time.
- `src/clock.rs`: the UTC "HH:MM:SS" rendering of millisecond timestamps.
- `src/panel.rs`: the bounded, newest-first news panel and its expand state.
- `src/prices.rs`: the recent-price window kept for each ticker.
- `src/request.rs`: the HTTP request for recent news.
- `src/stream.rs`: the streaming client's state machine.
- `app/`: JSON encoding, the WebSocket/HTTP I/O and the widgets, which
  drive the library.
