//! The news items that the news service delivers, and the questions the
//! dashboard asks of them.

use vstd::prelude::*;
use vstd::utf8::*;
use vstd::string::StringSliceAdditionalSpecFns;
use crate::clock::{display_time_text, utc_clock_text};
use crate::text::{boundary_at_or_below, lemma_boundary_at_or_below, lemma_cut_is_prefix, utf8_bytes};

verus! {

broadcast use vstd::utf8::encode_utf8_valid_utf8;

/// A news item received from the news service.
#[derive(Debug, Clone)]
pub struct NewsItem {
    /// Unique identifier for the news item.
    pub id: String,
    /// News title (for Twitter, this is the account name).
    pub title: String,
    /// News content/body.
    pub body: String,
    /// Timestamp in milliseconds.
    pub time: u64,
    /// Source of the news (Blogs, Terminal, Binance EN, Upbit, ...).
    pub source: Option<String>,
    /// Primary coin mentioned, if detected.
    pub coin: Option<String>,
    /// Icon URL (useful for Twitter account icons).
    pub icon: Option<String>,
    /// Link to the source article.
    pub link: Option<String>,
    /// Image URL if the news contains an image.
    pub image: Option<String>,
    /// Coins detected in the news, with trading symbols.
    pub suggestions: Vec<NewsSuggestion>,
    /// News type (e.g. "direct" for Twitter).
    pub news_type: Option<String>,
    /// Additional Twitter-specific info.
    pub info: Option<TwitterInfo>,
}

/// Twitter-specific metadata.
#[derive(Debug, Clone)]
pub struct TwitterInfo {
    pub is_quote: bool,
    pub is_reply: bool,
    pub is_retweet: bool,
    pub twitter_id: Option<String>,
}

/// A coin found in the news, with the trading symbols available for it.
#[derive(Debug, Clone)]
pub struct NewsSuggestion {
    /// The coin symbol (e.g. "BTC", "ETH").
    pub coin: String,
    /// Text fragments that matched this coin.
    pub found: Vec<String>,
    /// Available trading symbols on various exchanges.
    pub symbols: Vec<NewsSymbol>,
}

/// A trading symbol on a specific exchange.
#[derive(Debug, Clone)]
pub struct NewsSymbol {
    /// Exchange name (e.g. "binance-futures", "bybit-perps").
    pub exchange: String,
    /// Trading pair symbol (e.g. "BTCUSDT").
    pub symbol: String,
}

/// The UTF-8 bytes that `body_preview` keeps of a body whose characters are
/// `body`, for a limit of `max_bytes` bytes: the whole body when it fits,
/// else the body cut at the last character boundary at or below the limit.
pub open spec fn preview_bytes(body: Seq<char>, max_bytes: int) -> Seq<u8> {
    let bytes = utf8_bytes(body);
    bytes.subrange(0, boundary_at_or_below(bytes, max_bytes))
}

/// The exchange whose symbols the dashboard prefers.
pub open spec fn preferred_exchange() -> Seq<char> {
    "binance-futures"@
}

/// A symbol listed on the preferred exchange.
pub open spec fn on_preferred_exchange(sym: NewsSymbol) -> bool {
    sym.exchange@ == preferred_exchange()
}

/// Which of `symbols` the dashboard shows: the first one listed on the
/// preferred exchange, else the first one, else none.
pub open spec fn preferred_index(symbols: Seq<NewsSymbol>) -> Option<int> {
    if exists|i: int| 0 <= i < symbols.len() && on_preferred_exchange(#[trigger] symbols[i]) {
        Some(
            choose|i: int|
                0 <= i < symbols.len() && on_preferred_exchange(#[trigger] symbols[i]) && forall|
                    j: int,
                | 0 <= j < i ==> !on_preferred_exchange(#[trigger] symbols[j]),
        )
    } else if symbols.len() > 0 {
        Some(0)
    } else {
        None
    }
}

/// The most suggestions for which the dashboard shows a ticker button.
pub const MAX_TICKERS: usize = 5;

/// The (coin, symbol) pairs that the dashboard shows as ticker buttons for
/// `suggestions`: each suggestion with a preferred symbol, in order.
pub open spec fn ticker_picks(suggestions: Seq<NewsSuggestion>) -> Seq<(Seq<char>, NewsSymbol)>
    decreases suggestions.len(),
{
    if suggestions.len() == 0 {
        seq![]
    } else {
        let rest = ticker_picks(suggestions.drop_last());
        let last = suggestions.last();
        match preferred_index(last.symbols@) {
            Some(i) => rest.push((last.coin@, last.symbols@[i])),
            None => rest,
        }
    }
}

/// Whether an exchange name is the preferred exchange.
fn is_preferred_exchange(exchange: &String) -> (res: bool)
    ensures
        res == (exchange@ == preferred_exchange()),
{
    let preferred = "binance-futures".to_string();
    *exchange == preferred
}

/// A symbol counts as on the preferred exchange exactly when its exchange
/// is named "binance-futures"; an item's preferred symbol, when some symbol
/// of its first suggestion is on "binance-futures", is the first such one.
pub proof fn law_preferred_exchange_is_binance_futures(symbols: Seq<NewsSymbol>)
    ensures
        forall|i: int|
            0 <= i < symbols.len() ==> (on_preferred_exchange(#[trigger] symbols[i])
                <==> symbols[i].exchange@ == "binance-futures"@),
        (exists|j: int| 0 <= j < symbols.len() && (#[trigger] symbols[j]).exchange@ == "binance-futures"@)
            ==> (preferred_index(symbols) matches Some(i) && symbols[i].exchange@ == "binance-futures"@
            && forall|j: int| 0 <= j < i ==> (#[trigger] symbols[j]).exchange@ != "binance-futures"@),
        (forall|j: int| 0 <= j < symbols.len() ==> (#[trigger] symbols[j]).exchange@ != "binance-futures"@)
            && symbols.len() > 0 ==> preferred_index(symbols) == Some(0int),
{
    law_preferred_index(symbols);
    if exists|j: int| 0 <= j < symbols.len() && (#[trigger] symbols[j]).exchange@ == "binance-futures"@ {
        let j = choose|j: int| 0 <= j < symbols.len() && (#[trigger] symbols[j]).exchange@ == "binance-futures"@;
        assert(on_preferred_exchange(symbols[j]));
    }
    if forall|j: int| 0 <= j < symbols.len() ==> (#[trigger] symbols[j]).exchange@ != "binance-futures"@ {
        assert(!exists|j: int| 0 <= j < symbols.len() && on_preferred_exchange(#[trigger] symbols[j]));
    }
}

/// The number of `suggestions` that list at least one symbol.
pub open spec fn count_with_symbols(suggestions: Seq<NewsSuggestion>) -> nat
    decreases suggestions.len(),
{
    if suggestions.len() == 0 {
        0
    } else {
        count_with_symbols(suggestions.drop_last()) + if suggestions.last().symbols@.len() > 0 {
            1nat
        } else {
            0nat
        }
    }
}

/// The ticker buttons come from the first min(n, 5) suggestions, one for
/// each of them that lists a symbol.
pub proof fn law_ticker_buttons_count(suggestions: Seq<NewsSuggestion>)
    ensures
        shown_suggestions(suggestions.len()) == if suggestions.len() < 5 {
            suggestions.len() as int
        } else {
            5
        },
        ticker_picks(suggestions).len() == count_with_symbols(suggestions),
    decreases suggestions.len(),
{
    if suggestions.len() > 0 {
        law_ticker_buttons_count(suggestions.drop_last());
        law_preferred_index(suggestions.last().symbols@);
    }
}

/// The k-th ticker button for `suggestions` shows the coin of the j-th
/// suggestion with that suggestion's preferred symbol, and k earlier
/// suggestions have buttons.
pub open spec fn button_from(suggestions: Seq<NewsSuggestion>, k: int, j: int) -> bool {
    &&& 0 <= j < suggestions.len()
    &&& preferred_index(suggestions[j].symbols@) is Some
    &&& ticker_picks(suggestions)[k] == (
        suggestions[j].coin@,
        suggestions[j].symbols@[preferred_index(suggestions[j].symbols@).unwrap()],
    )
    &&& ticker_picks(suggestions.take(j)).len() == k
}

/// The suggestion that the k-th ticker button comes from.
pub open spec fn button_source(suggestions: Seq<NewsSuggestion>, k: int) -> int {
    choose|j: int| button_from(suggestions, k, j)
}

/// Each ticker button shows the coin of one of the suggestions and that
/// suggestion's preferred symbol, and the buttons follow the suggestions'
/// order: the k-th button comes from the suggestion after whose
/// predecessors exactly k buttons were made.
pub proof fn law_ticker_buttons_come_from_suggestions(suggestions: Seq<NewsSuggestion>)
    ensures
        forall|k: int|
            0 <= k < ticker_picks(suggestions).len() ==> #[trigger] button_from(
                suggestions,
                k,
                button_source(suggestions, k),
            ),
    decreases suggestions.len(),
{
    if suggestions.len() > 0 {
        let before = suggestions.drop_last();
        law_ticker_buttons_come_from_suggestions(before);
        let prev = ticker_picks(before);
        assert forall|k: int| 0 <= k < ticker_picks(suggestions).len() implies #[trigger] button_from(
            suggestions,
            k,
            button_source(suggestions, k),
        ) by {
            if k < prev.len() {
                let j = button_source(before, k);
                assert(button_from(before, k, j));
                assert(suggestions[j] == before[j]);
                assert(suggestions.take(j) =~= before.take(j));
                assert(button_from(suggestions, k, j));
            } else {
                let j = suggestions.len() - 1;
                assert(suggestions.take(j) =~= before);
                assert(suggestions[j] == suggestions.last());
                assert(button_from(suggestions, k, j));
            }
        }
    }
}

/// How many of `n` suggestions the dashboard considers for ticker buttons.
pub open spec fn shown_suggestions(n: nat) -> int {
    if n < MAX_TICKERS {
        n as int
    } else {
        MAX_TICKERS as int
    }
}

impl NewsSuggestion {
    /// The symbol that the dashboard shows for this coin: the first one on
    /// Binance Futures, falling back to the first available one.
    pub fn preferred_symbol(&self) -> (res: Option<&NewsSymbol>)
        ensures
            match preferred_index(self.symbols@) {
                Some(i) => res == Some(&self.symbols@[i]),
                None => res is None,
            },
    {
        let n = self.symbols.len();
        let mut i: usize = 0;
        while i < n
            invariant
                n == self.symbols@.len(),
                i <= n,
                forall|j: int| 0 <= j < i ==> !on_preferred_exchange(#[trigger] self.symbols@[j]),
            decreases n - i,
        {
            if is_preferred_exchange(&self.symbols[i].exchange) {
                proof {
                    let k = choose|k: int|
                        0 <= k < self.symbols@.len() && on_preferred_exchange(
                            #[trigger] self.symbols@[k],
                        ) && forall|j: int|
                            0 <= j < k ==> !on_preferred_exchange(#[trigger] self.symbols@[j]);
                    assert(on_preferred_exchange(self.symbols@[i as int]));
                    if k < i {
                    } else if k > i {
                        assert(!on_preferred_exchange(self.symbols@[i as int]));
                    }
                }
                return Some(&self.symbols[i]);
            }
            i += 1;
        }
        if n > 0 {
            Some(&self.symbols[0])
        } else {
            None
        }
    }
}

/// The characters that `body_preview` keeps of `body` for a limit of
/// `max_bytes` bytes.
pub open spec fn preview_text(body: Seq<char>, max_bytes: int) -> Seq<char> {
    decode_utf8(preview_bytes(body, max_bytes))
}

/// A preview is a prefix of the body; it is the whole body when the body
/// fits in the limit, and otherwise stays within the limit and is shorter
/// than the body.
pub proof fn law_preview_is_prefix(body: Seq<char>, max_bytes: int)
    requires
        0 <= max_bytes,
    ensures
        preview_text(body, max_bytes) == body.take(preview_text(body, max_bytes).len() as int),
        preview_text(body, max_bytes).len() <= body.len(),
        utf8_bytes(body).len() <= max_bytes ==> preview_text(body, max_bytes) == body,
        utf8_bytes(body).len() > max_bytes ==> preview_bytes(body, max_bytes).len() <= max_bytes
            && preview_bytes(body, max_bytes).len() < utf8_bytes(body).len()
            && preview_text(body, max_bytes).len() < body.len(),
{
    broadcast use vstd::utf8::encode_utf8_decode_utf8;

    let bytes = utf8_bytes(body);
    lemma_boundary_at_or_below(bytes, max_bytes);
    let end = boundary_at_or_below(bytes, max_bytes);
    lemma_cut_is_prefix(body, end);
    if bytes.len() <= max_bytes {
        assert(bytes.subrange(0, end) =~= bytes);
    } else {
        let p = preview_text(body, max_bytes);
        if p.len() == body.len() {
            // the bytes after the cut decode to nothing, so there are none
            let rest = bytes.subrange(end, bytes.len() as int);
            vstd::utf8::valid_utf8_split(bytes, end);
            vstd::utf8::decode_utf8_split(bytes, end);
            vstd::utf8::decode_utf8_encode_utf8(rest);
            assert(decode_utf8(bytes) == body);
            assert(decode_utf8(rest).len() == 0);
            assert(decode_utf8(rest) =~= Seq::<char>::empty());
            assert(encode_utf8(Seq::<char>::empty()) =~= Seq::<u8>::empty());
            assert(rest.len() == 0);
        }
    }
}

/// The preview is the longest cut of the body's UTF-8 bytes at a character
/// boundary that fits the limit (the whole body when it fits): the cut is a
/// boundary, no boundary lies between it and the limit, and the preview's
/// characters are what those bytes decode to.
pub proof fn law_preview_is_longest_cut(body: Seq<char>, max_bytes: int)
    requires
        0 <= max_bytes,
    ensures
        ({
            let bytes = encode_utf8(body);
            let cut = preview_bytes(body, max_bytes).len() as int;
            &&& preview_bytes(body, max_bytes) == bytes.subrange(0, cut)
            &&& is_char_boundary(bytes, cut)
            &&& bytes.len() <= max_bytes ==> cut == bytes.len()
            &&& bytes.len() > max_bytes ==> cut <= max_bytes
            &&& forall|j: int| cut < j <= max_bytes && j <= bytes.len() ==> !is_char_boundary(bytes, j)
            &&& preview_text(body, max_bytes) == decode_utf8(bytes.subrange(0, cut))
        }),
{
    let bytes = encode_utf8(body);
    lemma_boundary_at_or_below(bytes, max_bytes);
}

/// The index `preferred_index` picks lies within the symbols; it is on the
/// preferred exchange whenever any symbol is, and no earlier symbol is.
pub proof fn law_preferred_index(symbols: Seq<NewsSymbol>)
    ensures
        preferred_index(symbols) is None <==> symbols.len() == 0,
        preferred_index(symbols) matches Some(i) ==> 0 <= i < symbols.len(),
        (exists|j: int| 0 <= j < symbols.len() && on_preferred_exchange(#[trigger] symbols[j]))
            ==> (preferred_index(symbols) matches Some(i) && on_preferred_exchange(symbols[i])
            && forall|j: int| 0 <= j < i ==> !on_preferred_exchange(#[trigger] symbols[j])),
{
    if exists|j: int| 0 <= j < symbols.len() && on_preferred_exchange(#[trigger] symbols[j]) {
        lemma_first_preferred_exists(symbols);
    }
}

/// When some symbol is on the preferred exchange, a first such symbol exists.
proof fn lemma_first_preferred_exists(symbols: Seq<NewsSymbol>)
    requires
        exists|j: int| 0 <= j < symbols.len() && on_preferred_exchange(#[trigger] symbols[j]),
    ensures
        exists|i: int|
            0 <= i < symbols.len() && on_preferred_exchange(#[trigger] symbols[i]) && forall|j: int|
                0 <= j < i ==> !on_preferred_exchange(#[trigger] symbols[j]),
    decreases symbols.len(),
{
    let j = choose|j: int| 0 <= j < symbols.len() && on_preferred_exchange(#[trigger] symbols[j]);
    if on_preferred_exchange(symbols[0]) {
        assert(on_preferred_exchange(symbols[0]));
    } else {
        let rest = symbols.drop_first();
        assert(on_preferred_exchange(rest[j - 1]));
        lemma_first_preferred_exists(rest);
        let i = choose|i: int|
            0 <= i < rest.len() && on_preferred_exchange(#[trigger] rest[i]) && forall|k: int|
                0 <= k < i ==> !on_preferred_exchange(#[trigger] rest[k]);
        assert(on_preferred_exchange(symbols[i + 1]));
        assert forall|k: int| 0 <= k < i + 1 implies !on_preferred_exchange(#[trigger] symbols[k]) by {
            if k > 0 {
                assert(symbols[k] == rest[k - 1]);
            }
        }
    }
}

/// At most one ticker is shown per suggestion.
pub proof fn law_ticker_picks_len(suggestions: Seq<NewsSuggestion>)
    ensures
        ticker_picks(suggestions).len() <= suggestions.len(),
    decreases suggestions.len(),
{
    if suggestions.len() > 0 {
        law_ticker_picks_len(suggestions.drop_last());
    }
}

/// When the first suggestion has a preferred symbol, the first ticker button
/// shows its coin and that symbol: the item's `preferred_symbol`.
pub proof fn law_first_ticker_is_preferred(suggestions: Seq<NewsSuggestion>)
    requires
        suggestions.len() > 0,
        preferred_index(suggestions[0].symbols@) is Some,
    ensures
        ticker_picks(suggestions).len() > 0,
        ticker_picks(suggestions)[0] == (
            suggestions[0].coin@,
            suggestions[0].symbols@[preferred_index(suggestions[0].symbols@).unwrap()],
        ),
    decreases suggestions.len(),
{
    if suggestions.len() > 1 {
        let rest = suggestions.drop_last();
        assert(rest[0] == suggestions[0]);
        law_first_ticker_is_preferred(rest);
        let picks = ticker_picks(rest);
        assert(ticker_picks(suggestions)[0] == picks[0]);
    } else {
        assert(suggestions.drop_last() =~= Seq::<NewsSuggestion>::empty());
        assert(ticker_picks(suggestions.drop_last()) == Seq::<(Seq<char>, NewsSymbol)>::empty());
        assert(suggestions.last() == suggestions[0]);
    }
}

impl NewsItem {
    /// A short preview of the body: at most `max_chars` bytes of it, cut
    /// at a character boundary; the whole body when it fits.
    pub fn body_preview(&self, max_chars: usize) -> (res: &str)
        ensures
            res.spec_bytes() == preview_bytes(self.body@, max_chars as int),
            res@ == preview_text(self.body@, max_chars as int),
            res@ == self.body@.take(res@.len() as int),
            utf8_bytes(self.body@).len() <= max_chars ==> res@ == self.body@,
            res.spec_bytes().len() <= max_chars || res@ == self.body@,
    {
        let body: &str = self.body.as_str();
        let ghost bytes = utf8_bytes(self.body@);
        proof {
            lemma_boundary_at_or_below(bytes, max_chars as int);
        }
        if body.as_bytes().len() <= max_chars {
            assert(bytes.subrange(0, bytes.len() as int) =~= bytes);
            proof {
                broadcast use vstd::utf8::encode_utf8_decode_utf8;

            }
            body
        } else {
            let mut end = max_chars;
            while end > 0 && !body.is_char_boundary(end)
                invariant
                    bytes == body.spec_bytes(),
                    valid_utf8(bytes),
                    end <= max_chars < bytes.len(),
                    boundary_at_or_below(bytes, end as int) == boundary_at_or_below(
                        bytes,
                        max_chars as int,
                    ),
                decreases end,
            {
                end -= 1;
            }
            proof {
                broadcast use vstd::utf8::is_char_boundary_start_end_of_seq;

            }
            let (head, _rest) = body.split_at(end);
            proof {
                broadcast use vstd::utf8::encode_utf8_decode_utf8;

                lemma_cut_is_prefix(self.body@, end as int);
                assert(head@ == decode_utf8(encode_utf8(head@)));
            }
            head
        }
    }

    /// The symbol that the dashboard prefers for this item: the preferred
    /// symbol of the first suggestion, if there is one.
    pub fn preferred_symbol(&self) -> (res: Option<&NewsSymbol>)
        ensures
            self.suggestions@.len() == 0 ==> res is None,
            self.suggestions@.len() > 0 ==> match preferred_index(self.suggestions@[0].symbols@) {
                Some(i) => res == Some(&self.suggestions@[0].symbols@[i]),
                None => res is None,
            },
    {
        if self.suggestions.len() == 0 {
            None
        } else {
            self.suggestions[0].preferred_symbol()
        }
    }

    /// The item's time as "HH:MM:SS" in UTC, or "??:??:??" when the
    /// timestamp, read as signed milliseconds, lies outside chrono's calendar.
    pub fn display_time(&self) -> (res: String)
        ensures
            res@ == display_time_text(self.time as i64 as int),
    {
        match utc_clock_text(self.time as i64) {
            Some(text) => text,
            None => "??:??:??".to_string(),
        }
    }

    /// The label of the item's source, "News" when it names none.
    pub fn source_label(&self) -> (res: &str)
        ensures
            res@ == match self.source {
                Some(s) => s@,
                None => "News"@,
            },
    {
        match &self.source {
            Some(s) => s.as_str(),
            None => "News",
        }
    }

    /// The ticker buttons to show for this item: for each of its first
    /// `MAX_TICKERS` suggestions that has a preferred symbol, the coin and
    /// that symbol, in order.
    pub fn ticker_targets(&self) -> (res: Vec<(&str, &NewsSymbol)>)
        ensures
            res@.len() <= MAX_TICKERS,
            res@.len() == ticker_picks(self.suggestions@.take(shown_suggestions(self.suggestions@.len()))).len(),
            forall|k: int|
                0 <= k < res@.len() ==> (#[trigger] res@[k]).0@ == ticker_picks(
                    self.suggestions@.take(shown_suggestions(self.suggestions@.len())),
                )[k].0 && *res@[k].1 == ticker_picks(
                    self.suggestions@.take(shown_suggestions(self.suggestions@.len())),
                )[k].1,
    {
        let shown = if self.suggestions.len() < MAX_TICKERS {
            self.suggestions.len()
        } else {
            MAX_TICKERS
        };
        let mut res: Vec<(&str, &NewsSymbol)> = Vec::new();
        let mut i: usize = 0;
        while i < shown
            invariant
                shown == shown_suggestions(self.suggestions@.len()),
                shown <= self.suggestions@.len(),
                i <= shown,
                res@.len() == ticker_picks(self.suggestions@.take(i as int)).len(),
                forall|k: int|
                    0 <= k < res@.len() ==> (#[trigger] res@[k]).0@ == ticker_picks(
                        self.suggestions@.take(i as int),
                    )[k].0 && *res@[k].1 == ticker_picks(self.suggestions@.take(i as int))[k].1,
            decreases shown - i,
        {
            let suggestion = &self.suggestions[i];
            let ghost prefix = self.suggestions@.take(i + 1);
            assert(prefix.drop_last() =~= self.suggestions@.take(i as int));
            assert(prefix.last() == self.suggestions@[i as int]);
            match suggestion.preferred_symbol() {
                Some(sym) => {
                    res.push((suggestion.coin.as_str(), sym));
                },
                None => {},
            }
            i += 1;
        }
        proof {
            law_ticker_picks_len(self.suggestions@.take(shown as int));
        }
        res
    }
}

} // verus!
