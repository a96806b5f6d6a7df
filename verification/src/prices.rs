//! The recent-price window kept for each ticker that the news panel shows.

use vstd::prelude::*;
use rustc_hash::FxHashMap;

verus! {

/// How many price samples a ticker keeps (5 minutes at 10-second intervals).
pub const PRICE_HISTORY_LEN: usize = 30;

/// Price data shown beside a ticker button. `P` is the type of a price.
#[derive(Debug, Clone, Default)]
pub struct TickerPriceData<P> {
    /// Current price.
    pub price: P,
    /// The price about 5 minutes ago: the reference for the change shown.
    pub price_5m_ago: P,
    /// Recent prices, oldest first (for the sparkline).
    pub price_history: Vec<P>,
}

/// The history after `sample` is recorded, for any sample type.
pub open spec fn window_after<P>(history: Seq<P>, sample: P) -> Seq<P> {
    let pushed = history.push(sample);
    if pushed.len() > PRICE_HISTORY_LEN {
        pushed.drop_first()
    } else {
        pushed
    }
}

/// The reference price after a sample is recorded: the oldest sample when
/// the reference was still unset (zero), or once the history is full;
/// otherwise the reference stays as it was.
pub open spec fn reference_after<P>(
    old_reference: P,
    reference_is_zero: bool,
    history: Seq<P>,
) -> P {
    if reference_is_zero && history.len() > 0 {
        history[0]
    } else if history.len() >= PRICE_HISTORY_LEN {
        history[0]
    } else {
        old_reference
    }
}

impl<P: Copy> TickerPriceData<P> {
    /// Records a new price sample. `reference_is_zero` tells whether the
    /// reference price (`price_5m_ago`) equals zero before the call, which
    /// marks it as not yet set.
    pub fn record_price(&mut self, price: P, reference_is_zero: bool)
        ensures
            final(self).price_history@ == window_after(old(self).price_history@, price),
            final(self).price == price,
            final(self).price_history@.last() == price,
            final(self).price_5m_ago == reference_after(
                old(self).price_5m_ago,
                reference_is_zero,
                final(self).price_history@,
            ),
    {
        self.price_history.push(price);
        if self.price_history.len() > PRICE_HISTORY_LEN {
            self.price_history.remove(0);
        }
        self.price = price;
        if reference_is_zero && self.price_history.len() > 0 {
            self.price_5m_ago = self.price_history[0];
        } else if self.price_history.len() >= PRICE_HISTORY_LEN {
            self.price_5m_ago = self.price_history[0];
        }
        proof {
            assert(self.price_history@ =~= window_after(old(self).price_history@, price));
        }
    }
}

/// Recording a sample never lets the history grow past
/// `PRICE_HISTORY_LEN` once it is within it, always keeps the new sample as
/// the newest one, and leaves the history non-empty.
pub proof fn law_history_bounded<P>(history: Seq<P>, sample: P)
    requires
        history.len() <= 30,
    ensures
        window_after(history, sample).len() <= 30,
        window_after(history, sample).len() > 0,
        window_after(history, sample).last() == sample,
{
}

/// The history after each of `samples` is recorded into `history`, in order.
pub open spec fn window_after_samples<P>(history: Seq<P>, samples: Seq<P>) -> Seq<P>
    decreases samples.len(),
{
    if samples.len() == 0 {
        history
    } else {
        window_after(window_after_samples(history, samples.drop_last()), samples.last())
    }
}

/// The last `PRICE_HISTORY_LEN` (or fewer) elements of `s`.
pub open spec fn last_window<P>(s: Seq<P>) -> Seq<P> {
    if s.len() > PRICE_HISTORY_LEN {
        s.subrange(s.len() - PRICE_HISTORY_LEN, s.len() as int)
    } else {
        s
    }
}

/// Recording samples one by one into a history within `PRICE_HISTORY_LEN`
/// keeps the last `PRICE_HISTORY_LEN` (or fewer) of the old history followed
/// by the samples; in particular a history that started empty holds the last
/// min(n, `PRICE_HISTORY_LEN`) samples in order, ending with the newest.
pub proof fn law_samples_keep_last<P>(history: Seq<P>, samples: Seq<P>)
    requires
        history.len() <= 30,
    ensures
        window_after_samples(history, samples) == last_window(history + samples),
        window_after_samples(history, samples) == if history.len() + samples.len() > 30 {
            (history + samples).subrange(history.len() + samples.len() - 30, history.len() + samples.len() as int)
        } else {
            history + samples
        },
        samples.len() > 0 ==> {
            &&& 1 <= window_after_samples(history, samples).len() <= 30
            &&& window_after_samples(history, samples).last() == samples.last()
        },
    decreases samples.len(),
{
    if samples.len() > 0 {
        let before = samples.drop_last();
        law_samples_keep_last(history, before);
        let all_before = history + before;
        let all = history + samples;
        assert(all =~= all_before.push(samples.last()));
        let w = last_window(all_before);
        if all_before.len() >= PRICE_HISTORY_LEN {
            assert(w.push(samples.last()).drop_first() =~= last_window(all));
        } else {
            assert(w.push(samples.last()) =~= last_window(all));
        }
    } else {
        assert(history + samples =~= history);
    }
}

/// Once the reference is set, recording a sample while the history is not
/// yet full leaves the reference unchanged; the first sample recorded into
/// an empty window with an unset reference becomes the reference.
pub proof fn law_reference_set_once<P>(old_reference: P, history: Seq<P>, sample: P)
    requires
        history.len() + 1 < 30,
    ensures
        reference_after(old_reference, false, window_after(history, sample)) == old_reference,
        history.len() == 0 ==> reference_after(old_reference, true, window_after(history, sample))
            == sample,
{
}

/// A ticker's price data by value: (price, reference price, history).
pub open spec fn price_view<P>(data: TickerPriceData<P>) -> (P, P, Seq<P>) {
    (data.price, data.price_5m_ago, data.price_history@)
}

/// A ticker's price data after `price` is recorded for it: `entry` is its
/// data before, if it had any. A ticker seen for the first time has no
/// reference yet, so its first price becomes the reference.
pub open spec fn entry_after<P>(
    entry: Option<(P, P, Seq<P>)>,
    price: P,
    reference_is_zero: bool,
) -> (P, P, Seq<P>) {
    match entry {
        Some(e) => {
            let history = window_after(e.2, price);
            (price, reference_after(e.1, reference_is_zero, history), history)
        },
        None => (price, price, seq![price]),
    }
}

/// The entry of `symbol` in `prices`, if there is one.
pub open spec fn entry_of<P>(prices: Map<Seq<char>, (P, P, Seq<P>)>, symbol: Seq<char>) -> Option<
    (P, P, Seq<P>),
> {
    if prices.contains_key(symbol) {
        Some(prices[symbol])
    } else {
        None
    }
}

/// The price data after one update (symbol, price, whether the symbol's
/// reference price was zero before it).
pub open spec fn prices_after_update<P>(
    prices: Map<Seq<char>, (P, P, Seq<P>)>,
    update: (Seq<char>, P, bool),
) -> Map<Seq<char>, (P, P, Seq<P>)> {
    prices.insert(update.0, entry_after(entry_of(prices, update.0), update.1, update.2))
}

/// The price data after each of `updates`, in order.
pub open spec fn prices_after_updates<P>(
    prices: Map<Seq<char>, (P, P, Seq<P>)>,
    updates: Seq<(Seq<char>, P, bool)>,
) -> Map<Seq<char>, (P, P, Seq<P>)>
    decreases updates.len(),
{
    if updates.len() == 0 {
        prices
    } else {
        prices_after_update(prices_after_updates(prices, updates.drop_last()), updates.last())
    }
}

/// The prices that `updates` give for `symbol`, in order.
pub open spec fn prices_given_for<P>(updates: Seq<(Seq<char>, P, bool)>, symbol: Seq<char>) -> Seq<
    P,
>
    decreases updates.len(),
{
    if updates.len() == 0 {
        seq![]
    } else {
        let before = prices_given_for(updates.drop_last(), symbol);
        if updates.last().0 == symbol {
            before.push(updates.last().1)
        } else {
            before
        }
    }
}

/// Recording into the last window of a sequence gives the last window of
/// the sequence with the sample appended.
proof fn lemma_window_of_last_window<P>(s: Seq<P>, sample: P)
    ensures
        window_after(last_window(s), sample) == last_window(s.push(sample)),
{
    let w = last_window(s);
    if s.len() >= PRICE_HISTORY_LEN {
        assert(w.push(sample).drop_first() =~= last_window(s.push(sample)));
    } else {
        assert(w.push(sample) =~= last_window(s.push(sample)));
    }
}

/// Each ticker's price data depends only on the prices given for it: after
/// any sequence of updates, a symbol that got no price keeps its entry (or
/// stays absent), and a symbol that got n > 0 prices holds as history the
/// last `PRICE_HISTORY_LEN` (or fewer) of its old history followed by those
/// prices, with the newest of them as its price. From an empty cache, its
/// history is the last min(n, `PRICE_HISTORY_LEN`) prices given for it.
pub proof fn law_symbol_history<P>(
    prices: Map<Seq<char>, (P, P, Seq<P>)>,
    updates: Seq<(Seq<char>, P, bool)>,
    symbol: Seq<char>,
)
    requires
        prices.contains_key(symbol) ==> prices[symbol].2.len() <= 30,
    ensures
        prices_given_for(updates, symbol).len() == 0 ==> entry_of(
            prices_after_updates(prices, updates),
            symbol,
        ) == entry_of(prices, symbol),
        prices_given_for(updates, symbol).len() > 0 ==> {
            let after = prices_after_updates(prices, updates);
            let given = prices_given_for(updates, symbol);
            let old_history = match entry_of(prices, symbol) {
                Some(e) => e.2,
                None => Seq::<P>::empty(),
            };
            &&& after.contains_key(symbol)
            &&& after[symbol].2 == last_window(old_history + given)
            &&& 1 <= after[symbol].2.len() <= 30
            &&& after[symbol].0 == given.last()
            &&& after[symbol].2.last() == given.last()
        },
    decreases updates.len(),
{
    if updates.len() > 0 {
        let before = updates.drop_last();
        let u = updates.last();
        law_symbol_history(prices, before, symbol);
        let mid = prices_after_updates(prices, before);
        let given_before = prices_given_for(before, symbol);
        let old_history = match entry_of(prices, symbol) {
            Some(e) => e.2,
            None => Seq::<P>::empty(),
        };
        if u.0 == symbol {
            let given = given_before.push(u.1);
            assert(old_history + given =~= (old_history + given_before).push(u.1));
            if given_before.len() == 0 {
                assert(old_history + given_before =~= old_history);
                if prices.contains_key(symbol) {
                    assert(last_window(old_history) =~= old_history);
                }
            }
            if mid.contains_key(symbol) {
                lemma_window_of_last_window(old_history + given_before, u.1);
                if given_before.len() == 0 {
                    assert(mid[symbol].2 == last_window(old_history + given_before));
                }
            } else {
                assert(old_history =~= Seq::<P>::empty());
                assert(old_history + given =~= seq![u.1]);
            }
            let h = prices_after_updates(prices, updates)[symbol].2;
            assert(h == last_window(old_history + given));
            assert(h.len() >= 1) by {
                lemma_window_of_last_window(old_history + given_before, u.1);
            }
        } else {
            assert(prices_given_for(updates, symbol) == given_before);
        }
    }
}

/// The index from a symbol to its slot.
pub type SlotIndex = FxHashMap<String, usize>;

/// One recorded price for a ticker: the price becomes the new price; a ticker
/// seen for the first time starts with that price as its only sample and as
/// its reference; afterwards the reference stays put while the window of 30
/// samples is not full and no reset is asked for, and is the window's oldest
/// sample once the window is full or when the reference was zero.
pub proof fn law_entry_reference<P>(entry: (P, P, Seq<P>), price: P, reference_is_zero: bool)
    requires
        entry.2.len() <= 30,
    ensures
        entry_after(Some(entry), price, reference_is_zero).0 == price,
        entry_after(None, price, reference_is_zero) == (price, price, seq![price]),
        entry.2.len() + 1 < 30 ==> entry_after(Some(entry), price, false).1 == entry.1,
        entry.2.len() + 1 >= 30 ==> entry_after(Some(entry), price, reference_is_zero).1
            == entry_after(Some(entry), price, reference_is_zero).2[0],
        entry_after(Some(entry), price, true).1 == entry_after(Some(entry), price, true).2[0],
{
}

/// A ticker's reference price is always the oldest sample in its window:
/// if that held before (or the ticker had no entry), it holds after any
/// updates. So from an empty cache, after prices p1..pn for a ticker, its
/// reference is p1 while n <= 30 and p(n-29) afterwards.
pub proof fn law_reference_is_oldest_sample<P>(
    prices: Map<Seq<char>, (P, P, Seq<P>)>,
    updates: Seq<(Seq<char>, P, bool)>,
    symbol: Seq<char>,
)
    requires
        prices.contains_key(symbol) ==> prices[symbol].2.len() > 0 && prices[symbol].1
            == prices[symbol].2[0],
    ensures
        prices_after_updates(prices, updates).contains_key(symbol) ==> {
            let e = prices_after_updates(prices, updates)[symbol];
            &&& e.2.len() > 0
            &&& e.1 == e.2[0]
        },
        !prices.contains_key(symbol) && prices_given_for(updates, symbol).len() > 0 ==> {
            let given = prices_given_for(updates, symbol);
            let n = given.len();
            prices_after_updates(prices, updates)[symbol].1 == if n <= 30 {
                given[0]
            } else {
                given[n - 30]
            }
        },
    decreases updates.len(),
{
    if updates.len() > 0 {
        let before = updates.drop_last();
        law_reference_is_oldest_sample(prices, before, symbol);
        let mid = prices_after_updates(prices, before);
        let u = updates.last();
        if u.0 == symbol && mid.contains_key(symbol) {
            let e = mid[symbol];
            let h = window_after(e.2, u.1);
            if h.len() < PRICE_HISTORY_LEN && !u.2 {
                assert(h[0] == e.2[0]);
            }
        }
    }
    if !prices.contains_key(symbol) && prices_given_for(updates, symbol).len() > 0 {
        law_symbol_history(prices, updates, symbol);
        let given = prices_given_for(updates, symbol);
        let after = prices_after_updates(prices, updates);
        assert(Seq::<P>::empty() + given =~= given);
        if given.len() > 30 {
            assert(after[symbol].2[0] == given[given.len() - 30]);
        }
    }
}

/// What a symbol index holds: the slot of each symbol, by its characters.
pub uninterp spec fn slot_map(index: SlotIndex) -> Map<Seq<char>, usize>;

/// Declares rustc-hash's `FxBuildHasher`, the hasher of the symbol index.
#[verifier::external_type_specification]
#[verifier::external_body]
pub struct ExFxBuildHasher(rustc_hash::FxBuildHasher);

/// Calls `FxHashMap::default()` (`HashMap::default`). Claimed: the new map
/// holds no symbol.
#[verifier::external_body]
fn new_slot_index() -> (res: SlotIndex)
    ensures
        slot_map(res) =~= Map::empty(),
{
    SlotIndex::default()
}

/// Calls `HashMap::get` with a `&str` key and copies the value. Claimed: it
/// returns the slot stored for the symbol with these characters, or `None`
/// when there is none.
#[verifier::external_body]
fn slot_of(index: &SlotIndex, symbol: &str) -> (res: Option<usize>)
    ensures
        match res {
            Some(i) => slot_map(*index).contains_key(symbol@) && slot_map(*index)[symbol@] == i,
            None => !slot_map(*index).contains_key(symbol@),
        },
{
    index.get(symbol).copied()
}

/// Calls `HashMap::insert`. Claimed: afterwards the symbol maps to `slot`
/// and every other symbol keeps its slot.
#[verifier::external_body]
fn set_slot(index: &mut SlotIndex, symbol: String, slot: usize)
    ensures
        slot_map(*final(index)) == slot_map(*old(index)).insert(symbol@, slot),
{
    index.insert(symbol, slot);
}

/// The price data of each ticker, by symbol.
pub struct PriceCache<P> {
    /// The slot in `entries` of each symbol.
    slots: SlotIndex,
    /// The price data, one per symbol.
    entries: Vec<TickerPriceData<P>>,
}

impl<P> PriceCache<P> {
    /// Every symbol has a slot of its own within `entries`.
    #[verifier::type_invariant]
    spec fn slots_valid(self) -> bool {
        &&& forall|k: Seq<char>|
            #[trigger] slot_map(self.slots).contains_key(k) ==> slot_map(self.slots)[k]
                < self.entries@.len()
        &&& forall|k1: Seq<char>, k2: Seq<char>|
            #![trigger slot_map(self.slots)[k1], slot_map(self.slots)[k2]]
            slot_map(self.slots).contains_key(k1) && slot_map(self.slots).contains_key(k2) && k1
                != k2 ==> slot_map(self.slots)[k1] != slot_map(self.slots)[k2]
    }

    /// The price data of each symbol.
    pub closed spec fn prices(&self) -> Map<Seq<char>, (P, P, Seq<P>)> {
        Map::new(
            |k: Seq<char>| slot_map(self.slots).contains_key(k),
            |k: Seq<char>| price_view(self.entries@[slot_map(self.slots)[k] as int]),
        )
    }
}

impl<P: Copy> PriceCache<P> {
    /// An empty cache.
    pub fn new() -> (res: Self)
        ensures
            res.prices() == Map::<Seq<char>, (P, P, Seq<P>)>::empty(),
    {
        let res = PriceCache { slots: new_slot_index(), entries: Vec::new() };
        assert(res.prices() =~= Map::<Seq<char>, (P, P, Seq<P>)>::empty());
        res
    }

    /// The price data of `symbol`, if any price was recorded for it.
    pub fn price_data(&self, symbol: &str) -> (res: Option<&TickerPriceData<P>>)
        ensures
            match res {
                Some(data) => self.prices().contains_key(symbol@) && price_view(*data)
                    == self.prices()[symbol@],
                None => !self.prices().contains_key(symbol@),
            },
    {
        proof {
            use_type_invariant(self);
        }
        match slot_of(&self.slots, symbol) {
            Some(i) => Some(&self.entries[i]),
            None => None,
        }
    }

    /// Records a new price for `symbol`. `reference_is_zero` tells whether the
    /// symbol's reference price equals zero before the call (a symbol seen for
    /// the first time has none). Only this symbol's entry changes.
    pub fn update_price(&mut self, symbol: &str, price: P, reference_is_zero: bool)
        ensures
            final(self).prices() == prices_after_update(
                old(self).prices(),
                (symbol@, price, reference_is_zero),
            ),
    {
        let mut taken = PriceCache { slots: new_slot_index(), entries: Vec::new() };
        std::mem::swap(self, &mut taken);
        proof {
            use_type_invariant(&taken);
        }
        let PriceCache { slots: mut slots, entries: mut entries } = taken;
        match slot_of(&slots, symbol) {
            Some(i) => {
                entries[i].record_price(price, reference_is_zero);
            },
            None => {
                let i = entries.len();
                let mut history: Vec<P> = Vec::new();
                history.push(price);
                let data = TickerPriceData { price, price_5m_ago: price, price_history: history };
                entries.push(data);
                let key = symbol.to_string();
                set_slot(&mut slots, key, i);
            },
        }
        *self = PriceCache { slots, entries };
        assert(self.prices() =~= prices_after_update(
            old(self).prices(),
            (symbol@, price, reference_is_zero),
        ));
    }
}

} // verus!
