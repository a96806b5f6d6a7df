//! The news panel: the newest news items, newest first, and which one is
//! shown expanded.

use vstd::prelude::*;
use vstd::utf8::encode_utf8;
use vstd::string::StringSliceAdditionalSpecFns;
use std::collections::VecDeque;
use crate::news::{law_preview_is_prefix, preview_bytes, preview_text, NewsItem};
use crate::prices::{price_view, prices_after_update, PriceCache, TickerPriceData};
use crate::text::utf8_bytes;

verus! {

/// Maximum number of news items the panel keeps.
pub const MAX_NEWS_ITEMS: usize = 100;

/// How many bytes of a collapsed item's body the panel shows.
pub const PREVIEW_BYTES: usize = 150;

/// A user interaction with the panel. `S` is the type of a scroll offset.
#[derive(Debug, Clone)]
pub enum Message<S> {
    /// User clicked on a ticker button: (exchange, symbol).
    TickerClicked(String, String),
    /// Toggle the expanded view of the news item with this id.
    ToggleExpand(String),
    /// The news feed was scrolled.
    Scrolled(S),
}

/// Something the panel asks its parent to do.
#[derive(Debug, Clone)]
pub enum Action {
    /// Navigate to a specific ticker chart.
    NavigateToTicker { exchange: String, symbol: String },
    /// Open a specific ticker chart in a new window.
    OpenChartInNewWindow { exchange: String, symbol: String },
}

/// The news panel state. `P` is the type of a price.
pub struct NewsPanel<P> {
    /// News items, newest first.
    news_items: VecDeque<NewsItem>,
    /// The id of the expanded news item, if any.
    expanded_id: Option<String>,
    /// Price data for the tickers shown.
    price_cache: PriceCache<P>,
}

/// The items after `news` is added to `items`: in front, and the oldest
/// dropped beyond `MAX_NEWS_ITEMS`.
pub open spec fn items_after_add(items: Seq<NewsItem>, news: NewsItem) -> Seq<NewsItem> {
    let pushed = seq![news] + items;
    if pushed.len() > MAX_NEWS_ITEMS {
        pushed.take(MAX_NEWS_ITEMS as int)
    } else {
        pushed
    }
}

/// The expanded id after the item `id` is toggled.
pub open spec fn expanded_after_toggle(expanded: Option<Seq<char>>, id: Seq<char>) -> Option<
    Seq<char>,
> {
    if expanded == Some(id) {
        None
    } else {
        Some(id)
    }
}

/// The body text the panel shows for an item: the whole body when it is
/// expanded; else its preview, followed by "..." when the preview is
/// shorter than the body.
pub open spec fn shown_body(body: Seq<char>, expanded: bool) -> Seq<char> {
    if expanded {
        body
    } else if preview_bytes(body, PREVIEW_BYTES as int).len() < utf8_bytes(body).len() {
        preview_text(body, PREVIEW_BYTES as int) + "..."@
    } else {
        preview_text(body, PREVIEW_BYTES as int)
    }
}

/// Adding an item keeps the panel within `MAX_NEWS_ITEMS`, puts the new item
/// first, keeps the older items after it in their order, and drops nothing
/// while there is room.
pub proof fn law_add_news_bounded(items: Seq<NewsItem>, news: NewsItem)
    ensures
        items_after_add(items, news).len() <= 100,
        items_after_add(items, news)[0] == news,
        forall|i: int|
            0 <= i < items_after_add(items, news).len() - 1 ==> items_after_add(items, news)[i + 1]
                == items[i],
        items.len() < 100 ==> items_after_add(items, news) == seq![news] + items,
        items.len() >= 100 ==> items_after_add(items, news).len() == 100,
{
}

/// The items after each of `news` is added to `items`, in order.
pub open spec fn items_after_adds(items: Seq<NewsItem>, news: Seq<NewsItem>) -> Seq<NewsItem>
    decreases news.len(),
{
    if news.len() == 0 {
        items
    } else {
        items_after_add(items_after_adds(items, news.drop_last()), news.last())
    }
}

/// A panel that started empty and was given the items `news`, one by one,
/// holds the last min(k, `MAX_NEWS_ITEMS`) of them, newest first.
pub proof fn law_adds_keep_newest(news: Seq<NewsItem>)
    ensures
        items_after_adds(Seq::empty(), news).len() == if news.len() < 100 {
            news.len() as int
        } else {
            100
        },
        forall|i: int|
            0 <= i < items_after_adds(Seq::empty(), news).len() ==> #[trigger] items_after_adds(
                Seq::empty(),
                news,
            )[i] == news[news.len() - 1 - i],
    decreases news.len(),
{
    if news.len() > 0 {
        let before = news.drop_last();
        law_adds_keep_newest(before);
        let prev = items_after_adds(Seq::empty(), before);
        let now = items_after_adds(Seq::empty(), news);
        assert(now == items_after_add(prev, news.last()));
        assert forall|i: int| 0 <= i < now.len() implies #[trigger] now[i] == news[news.len() - 1
            - i] by {
            if i > 0 {
                assert(now[i] == prev[i - 1]);
                assert(before[before.len() - 1 - (i - 1)] == news[news.len() - 1 - i]);
            }
        }
    }
}

/// Toggling the same item twice restores the expanded state, when that item
/// was the expanded one or none was.
pub proof fn law_toggle_twice(expanded: Option<Seq<char>>, id: Seq<char>)
    requires
        expanded is None || expanded == Some(id),
    ensures
        expanded_after_toggle(expanded_after_toggle(expanded, id), id) == expanded,
{
}

/// Toggling the expanded item collapses it; toggling any other item (or any
/// item while none is expanded) makes it the expanded one.
pub proof fn law_toggle_result(expanded: Option<Seq<char>>, id: Seq<char>)
    ensures
        expanded == Some(id) ==> expanded_after_toggle(expanded, id) is None,
        expanded != Some(id) ==> expanded_after_toggle(expanded, id) == Some(id),
{
}

/// An expanded item shows its whole body. A collapsed item shows a body
/// that fits in 150 bytes (`PREVIEW_BYTES`) whole; a longer one shows a
/// proper prefix of it followed by "...".
pub proof fn law_collapsed_body(body: Seq<char>)
    ensures
        shown_body(body, true) == body,
        shown_body(body, false) == if encode_utf8(body).len() <= 150 {
            body
        } else {
            preview_text(body, 150) + "..."@
        },
        utf8_bytes(body).len() <= 150 ==> shown_body(body, false) == body,
        utf8_bytes(body).len() > 150 ==> exists|k: int|
            0 <= k < body.len() && shown_body(body, false) == body.take(k) + "..."@,
{
    law_preview_is_prefix(body, PREVIEW_BYTES as int);
    let p = preview_text(body, PREVIEW_BYTES as int);
    if utf8_bytes(body).len() > PREVIEW_BYTES {
        assert(p.len() < body.len());
        assert(shown_body(body, false) == body.take(p.len() as int) + "..."@);
    }
}

impl<P: Copy> NewsPanel<P> {
    /// The news items, newest first.
    pub closed spec fn items(&self) -> Seq<NewsItem> {
        self.news_items@
    }

    /// The id of the expanded item, by its characters.
    pub closed spec fn expanded(&self) -> Option<Seq<char>> {
        match self.expanded_id {
            Some(id) => Some(id@),
            None => None,
        }
    }

    /// The price data of each ticker, by symbol: (price, reference, history).
    pub closed spec fn prices(&self) -> Map<Seq<char>, (P, P, Seq<P>)> {
        self.price_cache.prices()
    }

    /// An empty panel with no item expanded.
    pub fn new() -> (res: Self)
        ensures
            res.items() == Seq::<NewsItem>::empty(),
            res.expanded() is None,
            res.prices() == Map::<Seq<char>, (P, P, Seq<P>)>::empty(),
    {
        NewsPanel { news_items: VecDeque::new(), expanded_id: None, price_cache: PriceCache::new() }
    }

    /// Adds a news item in front (newest first), dropping the oldest items
    /// beyond `MAX_NEWS_ITEMS`.
    pub fn add_news(&mut self, news: NewsItem)
        ensures
            final(self).items() == items_after_add(old(self).items(), news),
            final(self).expanded() == old(self).expanded(),
            final(self).prices() == old(self).prices(),
    {
        let ghost pushed = seq![news] + old(self).news_items@;
        self.news_items.push_front(news);
        assert(self.news_items@ =~= pushed.take(pushed.len() as int));
        while self.news_items.len() > MAX_NEWS_ITEMS
            invariant
                self.expanded() == old(self).expanded(),
                self.prices() == old(self).prices(),
                pushed == seq![news] + old(self).news_items@,
                self.news_items@.len() <= pushed.len(),
                self.news_items@.len() >= MAX_NEWS_ITEMS || self.news_items@.len() == pushed.len(),
                self.news_items@ == pushed.take(self.news_items@.len() as int),
            decreases self.news_items@.len(),
        {
            self.news_items.pop_back();
            assert(self.news_items@ =~= pushed.take(self.news_items@.len() as int));
        }
        proof {
            if pushed.len() <= MAX_NEWS_ITEMS {
                assert(self.news_items@ =~= pushed);
            }
        }
    }

    /// Handles a user interaction, and returns what the parent should do.
    /// A ticker click opens that chart in a new window; toggling an item
    /// expands it, or collapses it when it was the expanded one.
    pub fn update<S>(&mut self, message: Message<S>) -> (res: Option<Action>)
        ensures
            final(self).items() == old(self).items(),
            final(self).prices() == old(self).prices(),
            match message {
                Message::TickerClicked(exchange, symbol) => {
                    &&& res == Some(Action::OpenChartInNewWindow { exchange, symbol })
                    &&& final(self).expanded() == old(self).expanded()
                },
                Message::ToggleExpand(id) => {
                    &&& res is None
                    &&& final(self).expanded() == expanded_after_toggle(old(self).expanded(), id@)
                },
                Message::Scrolled(_) => {
                    &&& res is None
                    &&& final(self).expanded() == old(self).expanded()
                },
            },
    {
        match message {
            Message::TickerClicked(exchange, symbol) => {
                Some(Action::OpenChartInNewWindow { exchange, symbol })
            },
            Message::ToggleExpand(id) => {
                let same = match &self.expanded_id {
                    Some(current) => *current == id,
                    None => false,
                };
                if same {
                    self.expanded_id = None;
                } else {
                    self.expanded_id = Some(id);
                }
                None
            },
            Message::Scrolled(_) => None,
        }
    }

    /// Records a new price for the ticker `symbol`. `reference_is_zero` tells
    /// whether that ticker's reference price equals zero before the call (a
    /// ticker seen for the first time has none). Only that ticker's entry
    /// changes; the news and the expanded item stay as they are.
    pub fn update_price(&mut self, symbol: &str, price: P, reference_is_zero: bool)
        ensures
            final(self).prices() == prices_after_update(
                old(self).prices(),
                (symbol@, price, reference_is_zero),
            ),
            final(self).items() == old(self).items(),
            final(self).expanded() == old(self).expanded(),
    {
        self.price_cache.update_price(symbol, price, reference_is_zero);
    }

    /// The price data of the ticker `symbol`, if a price was recorded for it.
    pub fn price_data(&self, symbol: &str) -> (res: Option<&TickerPriceData<P>>)
        ensures
            match res {
                Some(data) => self.prices().contains_key(symbol@) && price_view(*data)
                    == self.prices()[symbol@],
                None => !self.prices().contains_key(symbol@),
            },
    {
        self.price_cache.price_data(symbol)
    }

    /// Whether the item with this id is the expanded one.
    pub fn is_expanded(&self, id: &String) -> (res: bool)
        ensures
            res == (self.expanded() == Some(id@)),
    {
        match &self.expanded_id {
            Some(current) => *current == *id,
            None => false,
        }
    }

    /// The body text shown for `news`: whole when it is the expanded item,
    /// else the preview of its first `PREVIEW_BYTES` bytes, marked with
    /// "..." when cut.
    pub fn body_text(&self, news: &NewsItem) -> (res: String)
        ensures
            res@ == shown_body(news.body@, self.expanded() == Some(news.id@)),
    {
        if self.is_expanded(&news.id) {
            news.body.clone()
        } else {
            let preview = news.body_preview(PREVIEW_BYTES);
            let body: &str = news.body.as_str();
            if preview.as_bytes().len() < body.as_bytes().len() {
                let mut text = preview.to_string();
                text.append("...");
                text
            } else {
                preview.to_string()
            }
        }
    }

    /// The news items, newest first, each by reference.
    pub fn items_newest_first(&self) -> (res: Vec<&NewsItem>)
        ensures
            res@.len() == self.items().len(),
            forall|i: int| 0 <= i < res@.len() ==> *(#[trigger] res@[i]) == self.items()[i],
    {
        let mut res: Vec<&NewsItem> = Vec::new();
        let n = self.news_items.len();
        let mut i: usize = 0;
        while i < n
            invariant
                n == self.news_items@.len(),
                i <= n,
                res@.len() == i,
                forall|k: int| 0 <= k < i ==> *(#[trigger] res@[k]) == self.news_items@[k],
            decreases n - i,
        {
            res.push(&self.news_items[i]);
            i += 1;
        }
        res
    }

    /// Whether the panel holds no news.
    pub fn is_empty(&self) -> (res: bool)
        ensures
            res == (self.items().len() == 0),
    {
        self.news_items.len() == 0
    }

    /// The number of news items held.
    pub fn len(&self) -> (res: usize)
        ensures
            res == self.items().len(),
    {
        self.news_items.len()
    }
}

impl<P: Copy> Default for NewsPanel<P> {
    fn default() -> (res: Self)
        ensures
            res.items() == Seq::<NewsItem>::empty(),
            res.expanded() is None,
            res.prices() == Map::<Seq<char>, (P, P, Seq<P>)>::empty(),
    {
        Self::new()
    }
}

} // verus!
