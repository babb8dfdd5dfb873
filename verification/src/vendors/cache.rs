//! A time-bounded cache over a price source.

use super::ApiVendor;
use super::VendorError;
use crate::clock::now;
use crate::clock::Timestamp;
use crate::clock::NANOS_PER_SEC;
use vstd::prelude::*;

verus! {

/// What identifies a cached quote: the ticker and the currency, both taken
/// letter for letter.
pub type QuoteKey = (Seq<char>, Seq<char>);

/// What the table holds for one key: the price as text, and the instant, in
/// nanoseconds since the Unix epoch, from which on it no longer counts as fresh.
pub ghost struct CachedQuote {
    pub value: Seq<char>,
    pub expires_at: int,
}

/// The value that a table serves for `key` at the instant `now`: that of the
/// entry under `key`, if there is one and it expires strictly after `now`.
pub open spec fn fresh_value(
    table: Map<QuoteKey, CachedQuote>,
    key: QuoteKey,
    now: int,
) -> Option<Seq<char>> {
    if table.contains_key(key) && table[key].expires_at > now {
        Some(table[key].value)
    } else {
        None
    }
}

/// The table once the source has answered a miss for `key` and the clock read
/// `now`: a price is written under `key`, to expire `ttl_secs` seconds after
/// `now`; a failure leaves the table as it was.
pub open spec fn settled(
    table: Map<QuoteKey, CachedQuote>,
    key: QuoteKey,
    outcome: Result<String, VendorError>,
    now: int,
    ttl_secs: u64,
) -> Map<QuoteKey, CachedQuote> {
    match outcome {
        Ok(price) => table.insert(
            key,
            CachedQuote { value: price@, expires_at: now + ttl_secs * NANOS_PER_SEC },
        ),
        Err(_) => table,
    }
}

/// One lookup of `key`, as seen from outside: the table went from `before` to
/// `after` and the caller got `result`, the clock having read `checked_at`
/// when the table was consulted and `stored_at` when the source had answered.
/// A fresh entry is served as it is and nothing is written. Otherwise `result`
/// is the source's answer, and the table is settled with it.
pub open spec fn answers(
    before: Map<QuoteKey, CachedQuote>,
    after: Map<QuoteKey, CachedQuote>,
    key: QuoteKey,
    ttl_secs: u64,
    checked_at: int,
    stored_at: int,
    result: Result<String, VendorError>,
) -> bool {
    match fresh_value(before, key, checked_at) {
        Some(value) => {
            &&& after == before
            &&& result matches Ok(price)
            &&& price@ == value
        },
        None => after == settled(before, key, result, stored_at, ttl_secs),
    }
}

struct CacheEntry {
    ticker: String,
    currency: String,
    value: String,
    expires_at: i128,
}

impl CacheEntry {
    spec fn key(&self) -> QuoteKey {
        (self.ticker@, self.currency@)
    }

    spec fn quote(&self) -> CachedQuote {
        CachedQuote { value: self.value@, expires_at: self.expires_at as int }
    }
}

/// No key occurs in two entries.
spec fn distinct_keys(s: Seq<CacheEntry>) -> bool {
    forall|i: int, j: int|
        0 <= i < j < s.len() ==> #[trigger] s[i].key() != #[trigger] s[j].key()
}

/// Some entry has the key.
spec fn holds(s: Seq<CacheEntry>, k: QuoteKey) -> bool {
    exists|i: int| 0 <= i < s.len() && #[trigger] s[i].key() == k
}

/// Where an entry with the key stands, if one has it.
spec fn index_of(s: Seq<CacheEntry>, k: QuoteKey) -> int {
    choose|i: int| 0 <= i < s.len() && #[trigger] s[i].key() == k
}

/// The mapping that a list of entries stands for.
spec fn model(s: Seq<CacheEntry>) -> Map<QuoteKey, CachedQuote> {
    Map::new(|k: QuoteKey| holds(s, k), |k: QuoteKey| s[index_of(s, k)].quote())
}

/// With distinct keys, the entry at `i` is the one that its key leads to.
proof fn lemma_model_at(s: Seq<CacheEntry>, i: int)
    requires
        distinct_keys(s),
        0 <= i < s.len(),
    ensures
        holds(s, s[i].key()),
        index_of(s, s[i].key()) == i,
        model(s).contains_key(s[i].key()),
        model(s)[s[i].key()] == s[i].quote(),
{
    let j = index_of(s, s[i].key());
    assert(0 <= j < s.len() && s[j].key() == s[i].key());
}

/// Replacing the entry at `i` by one with the same key overwrites that key.
proof fn lemma_model_update(s: Seq<CacheEntry>, i: int, e: CacheEntry)
    requires
        distinct_keys(s),
        0 <= i < s.len(),
        s[i].key() == e.key(),
    ensures
        distinct_keys(s.update(i, e)),
        model(s.update(i, e)) == model(s).insert(e.key(), e.quote()),
{
    let t = s.update(i, e);
    assert(distinct_keys(t)) by {
        assert forall|a: int, b: int| 0 <= a < b < t.len() implies #[trigger] t[a].key()
            != #[trigger] t[b].key() by {
            assert(t[a].key() == s[a].key());
            assert(t[b].key() == s[b].key());
        }
    }
    assert forall|k: QuoteKey| holds(t, k) <==> #[trigger] holds(s, k) by {
        if holds(s, k) {
            let j = index_of(s, k);
            assert(t[j].key() == k);
        }
        if holds(t, k) {
            let j = index_of(t, k);
            assert(s[j].key() == k);
        }
    }
    assert forall|k: QuoteKey| holds(t, k) implies #[trigger] model(t)[k] == model(s).insert(
        e.key(),
        e.quote(),
    )[k] by {
        let j = index_of(t, k);
        lemma_model_at(t, j);
        if j != i {
            assert(s[j].key() == k);
            lemma_model_at(s, j);
        }
    }
    assert(holds(s, e.key())) by {
        assert(s[i].key() == e.key());
    }
    assert(model(t) =~= model(s).insert(e.key(), e.quote()));
}

/// Appending an entry whose key is new adds that key.
proof fn lemma_model_push(s: Seq<CacheEntry>, e: CacheEntry)
    requires
        distinct_keys(s),
        !holds(s, e.key()),
    ensures
        distinct_keys(s.push(e)),
        model(s.push(e)) == model(s).insert(e.key(), e.quote()),
{
    let t = s.push(e);
    let n = s.len() as int;
    assert(distinct_keys(t)) by {
        assert forall|a: int, b: int| 0 <= a < b < t.len() implies #[trigger] t[a].key()
            != #[trigger] t[b].key() by {
            assert(t[a].key() == s[a].key());
            if b < n {
                assert(t[b].key() == s[b].key());
            }
        }
    }
    assert(t[n].key() == e.key());
    assert forall|k: QuoteKey| holds(t, k) <==> #[trigger] holds(s, k) || k == e.key() by {
        if holds(s, k) {
            let j = index_of(s, k);
            assert(t[j].key() == k);
        }
        if holds(t, k) {
            let j = index_of(t, k);
            if j < n {
                assert(s[j].key() == k);
            }
        }
    }
    assert forall|k: QuoteKey| holds(t, k) implies #[trigger] model(t)[k] == model(s).insert(
        e.key(),
        e.quote(),
    )[k] by {
        let j = index_of(t, k);
        lemma_model_at(t, j);
        if j < n {
            assert(s[j].key() == k);
            lemma_model_at(s, j);
        }
    }
    assert(model(t) =~= model(s).insert(e.key(), e.quote()));
}

/// The cache table: at most one entry for each key, the one stored last.
/// Entries are never removed; a stale one stays until it is overwritten.
pub struct CacheTable {
    entries: Vec<CacheEntry>,
}

impl View for CacheTable {
    type V = Map<QuoteKey, CachedQuote>;

    closed spec fn view(&self) -> Map<QuoteKey, CachedQuote> {
        model(self.entries@)
    }
}

impl CacheTable {
    #[verifier::type_invariant]
    spec fn well_formed(&self) -> bool {
        distinct_keys(self.entries@)
    }

    /// An empty table.
    pub fn new() -> (t: Self)
        ensures
            t@ == Map::<QuoteKey, CachedQuote>::empty(),
    {
        let t = CacheTable { entries: Vec::new() };
        assert(t@ =~= Map::<QuoteKey, CachedQuote>::empty());
        t
    }

    /// Where the entry for the key stands, if the table has one.
    fn position(&self, ticker: &String, currency: &String) -> (r: Option<usize>)
        ensures
            match r {
                Some(i) => i < self.entries.len() && self.entries[i as int].key() == (
                    ticker@,
                    currency@,
                ),
                None => !holds(self.entries@, (ticker@, currency@)),
            },
    {
        let mut i: usize = 0;
        while i < self.entries.len()
            invariant
                i <= self.entries.len(),
                forall|j: int|
                    0 <= j < i ==> #[trigger] self.entries[j].key() != (ticker@, currency@),
            decreases self.entries.len() - i,
        {
            if self.entries[i].ticker == *ticker && self.entries[i].currency == *currency {
                return Some(i);
            }
            i += 1;
        }
        None
    }

    /// The value served for the key at `now`: a hit if and only if the table
    /// has an entry for the key that expires strictly after `now`.
    pub fn fresh(&self, ticker: &String, currency: &String, now: Timestamp) -> (r: Option<String>)
        ensures
            match r {
                Some(v) => fresh_value(self@, (ticker@, currency@), now.as_nanos()) == Some(v@),
                None => fresh_value(self@, (ticker@, currency@), now.as_nanos()) is None,
            },
    {
        match self.position(ticker, currency) {
            Some(i) => {
                proof {
                    use_type_invariant(self);
                    lemma_model_at(self.entries@, i as int);
                }
                if self.entries[i].expires_at > now.total_nanos() {
                    Some(self.entries[i].value.clone())
                } else {
                    None
                }
            },
            None => None,
        }
    }

    /// Writes the entry for the key, over the one that was there if any.
    /// Every other key keeps what it had.
    pub fn store(&mut self, ticker: String, currency: String, value: String, expires_at: i128)
        ensures
            final(self)@ == old(self)@.insert(
                (ticker@, currency@),
                CachedQuote { value: value@, expires_at: expires_at as int },
            ),
    {
        proof {
            use_type_invariant(&*self);
        }
        let found = self.position(&ticker, &currency);
        let entry = CacheEntry { ticker, currency, value, expires_at };
        let mut taken = CacheTable::new();
        std::mem::swap(self, &mut taken);
        let mut entries = taken.entries;
        match found {
            Some(i) => {
                proof {
                    lemma_model_update(entries@, i as int, entry);
                }
                entries.set(i, entry);
            },
            None => {
                proof {
                    lemma_model_push(entries@, entry);
                }
                entries.push(entry);
            },
        }
        *self = CacheTable { entries };
    }

    /// Takes in what the source answered to a miss for the key, the clock
    /// reading `now`: a price is stored under the key, to expire `ttl_secs`
    /// seconds after `now`; a failure changes nothing. The answer is handed on
    /// as it came.
    pub fn settle(
        &mut self,
        ticker: String,
        currency: String,
        outcome: Result<String, VendorError>,
        now: Timestamp,
        ttl_secs: u64,
    ) -> (r: Result<String, VendorError>)
        ensures
            r == outcome,
            final(self)@ == settled(
                old(self)@,
                (ticker@, currency@),
                outcome,
                now.as_nanos(),
                ttl_secs,
            ),
    {
        match outcome {
            Ok(price) => {
                self.store(ticker, currency, price.clone(), now.deadline(ttl_secs));
                Ok(price)
            },
            Err(error) => Err(error),
        }
    }
}

/// How long a stored price stays fresh where nothing else is asked for:
/// 45 minutes, in seconds.
pub const DEFAULT_TTL_SECS: u64 = 2700;

/// A price source that remembers what the source behind it answered, key by
/// key, and serves that again until it expires.
pub struct CacheLayerVendor {
    vendor: Box<dyn ApiVendor>,
    cache: CacheTable,
    ttl_secs: u64,
}

impl CacheLayerVendor {
    /// What the cache holds.
    pub closed spec fn table(&self) -> Map<QuoteKey, CachedQuote> {
        self.cache@
    }

    /// For how many seconds a stored price stays fresh.
    pub closed spec fn ttl_secs(&self) -> u64 {
        self.ttl_secs
    }

    /// A cache over `vendor`, empty, whose entries stay fresh for 45 minutes.
    pub fn new(vendor: Box<dyn ApiVendor>) -> (c: Self)
        ensures
            c.table() == Map::<QuoteKey, CachedQuote>::empty(),
            c.ttl_secs() == DEFAULT_TTL_SECS,
    {
        CacheLayerVendor { vendor, cache: CacheTable::new(), ttl_secs: DEFAULT_TTL_SECS }
    }

    /// A cache over `vendor`, empty, whose entries stay fresh for `ttl_secs`
    /// seconds.
    pub fn with_ttl(vendor: Box<dyn ApiVendor>, ttl_secs: u64) -> (c: Self)
        ensures
            c.table() == Map::<QuoteKey, CachedQuote>::empty(),
            c.ttl_secs() == ttl_secs,
    {
        CacheLayerVendor { vendor, cache: CacheTable::new(), ttl_secs }
    }

    /// The price for the key, with `now` standing for every reading of the
    /// clock. A fresh entry is served and nothing else happens: the source is
    /// not asked and the cache is not written. Otherwise the source is asked
    /// once; its price is stored and returned, its failure is returned and the
    /// table stays as it was.
    pub fn get_price_at(&mut self, ticker: String, currency: String, now: Timestamp) -> (r: Result<
        String,
        VendorError,
    >)
        ensures
            answers(
                old(self).table(),
                final(self).table(),
                (ticker@, currency@),
                old(self).ttl_secs(),
                now.as_nanos(),
                now.as_nanos(),
                r,
            ),
            fresh_value(old(self).table(), (ticker@, currency@), now.as_nanos()) is Some
                ==> *final(self) == *old(self),
            final(self).ttl_secs() == old(self).ttl_secs(),
    {
        match self.cache.fresh(&ticker, &currency, now) {
            Some(price) => Ok(price),
            None => {
                let outcome = self.vendor.get_price(ticker.clone(), currency.clone());
                self.cache.settle(ticker, currency, outcome, now, self.ttl_secs)
            },
        }
    }
}

impl ApiVendor for CacheLayerVendor {
    /// The price for the key, by the system clock, which is read when the
    /// table is consulted and again when the source has answered. Whatever the
    /// two readings were, the call is one lookup as `answers` describes it, and
    /// a hit leaves the whole decorator, the source included, as it was.
    fn get_price(&mut self, ticker: String, currency: String) -> (r: Result<String, VendorError>)
        ensures
            exists|checked_at: int, stored_at: int|
                {
                    &&& #[trigger] answers(
                        old(self).table(),
                        final(self).table(),
                        (ticker@, currency@),
                        old(self).ttl_secs(),
                        checked_at,
                        stored_at,
                        r,
                    )
                    &&& fresh_value(old(self).table(), (ticker@, currency@), checked_at) is Some
                        ==> *final(self) == *old(self)
                },
            final(self).ttl_secs() == old(self).ttl_secs(),
    {
        let checked = now();
        match self.cache.fresh(&ticker, &currency, checked) {
            Some(price) => {
                assert(answers(
                    old(self).table(),
                    self.table(),
                    (ticker@, currency@),
                    old(self).ttl_secs(),
                    checked.as_nanos(),
                    checked.as_nanos(),
                    Ok(price),
                ));
                Ok(price)
            },
            None => {
                let outcome = self.vendor.get_price(ticker.clone(), currency.clone());
                let stored = now();
                let r = self.cache.settle(ticker, currency, outcome, stored, self.ttl_secs);
                assert(answers(
                    old(self).table(),
                    self.table(),
                    (ticker@, currency@),
                    old(self).ttl_secs(),
                    checked.as_nanos(),
                    stored.as_nanos(),
                    r,
                ));
                r
            },
        }
    }
}

/// A price that a lookup had to fetch is served again by every later lookup of
/// the same key whose clock reads before that price expires: the later lookup
/// is a hit, so the source is not asked, it returns the same price, and it
/// writes nothing.
pub proof fn lemma_hit_within_ttl(
    before: Map<QuoteKey, CachedQuote>,
    between: Map<QuoteKey, CachedQuote>,
    after: Map<QuoteKey, CachedQuote>,
    key: QuoteKey,
    ttl_secs: u64,
    first_checked_at: int,
    first_stored_at: int,
    first: Result<String, VendorError>,
    second_checked_at: int,
    second_stored_at: int,
    second: Result<String, VendorError>,
)
    requires
        fresh_value(before, key, first_checked_at) is None,
        answers(before, between, key, ttl_secs, first_checked_at, first_stored_at, first),
        first is Ok,
        second_checked_at < first_stored_at + ttl_secs * NANOS_PER_SEC,
        answers(between, after, key, ttl_secs, second_checked_at, second_stored_at, second),
    ensures
        fresh_value(between, key, second_checked_at) == Some(first->Ok_0@),
        second is Ok,
        second->Ok_0@ == first->Ok_0@,
        after == between,
{
}

/// A lookup of one key leaves every other key as it was: whether it has an
/// entry, which one, and what it serves at any instant.
pub proof fn lemma_other_keys_untouched(
    before: Map<QuoteKey, CachedQuote>,
    after: Map<QuoteKey, CachedQuote>,
    key: QuoteKey,
    other: QuoteKey,
    ttl_secs: u64,
    checked_at: int,
    stored_at: int,
    result: Result<String, VendorError>,
)
    requires
        answers(before, after, key, ttl_secs, checked_at, stored_at, result),
        other != key,
    ensures
        after.contains_key(other) == before.contains_key(other),
        before.contains_key(other) ==> after[other] == before[other],
        forall|now: int| fresh_value(after, other, now) == fresh_value(before, other, now),
{
}

/// A lookup removes nothing: every key that had an entry has one afterwards.
pub proof fn lemma_entries_are_never_removed(
    before: Map<QuoteKey, CachedQuote>,
    after: Map<QuoteKey, CachedQuote>,
    key: QuoteKey,
    ttl_secs: u64,
    checked_at: int,
    stored_at: int,
    result: Result<String, VendorError>,
)
    requires
        answers(before, after, key, ttl_secs, checked_at, stored_at, result),
    ensures
        before.dom().subset_of(after.dom()),
        result is Ok ==> after.contains_key(key),
{
}

/// An entry that has expired, be it at this very instant, is not served: the
/// lookup is a miss and goes to the source. What the source answers is what
/// the caller gets, and a price replaces the expired entry, to be served from
/// then on until it expires in its turn.
pub proof fn lemma_expired_entry_refetched(
    before: Map<QuoteKey, CachedQuote>,
    after: Map<QuoteKey, CachedQuote>,
    key: QuoteKey,
    ttl_secs: u64,
    checked_at: int,
    stored_at: int,
    result: Result<String, VendorError>,
)
    requires
        before.contains_key(key),
        before[key].expires_at <= checked_at,
        answers(before, after, key, ttl_secs, checked_at, stored_at, result),
    ensures
        fresh_value(before, key, checked_at) is None,
        after == settled(before, key, result, stored_at, ttl_secs),
        result matches Ok(price) ==> {
            &&& after.contains_key(key)
            &&& after[key] == CachedQuote {
                value: price@,
                expires_at: stored_at + ttl_secs * NANOS_PER_SEC,
            }
            &&& forall|now: int|
                now < stored_at + ttl_secs * NANOS_PER_SEC ==> fresh_value(after, key, now)
                    == Some(price@)
        },
{
}

/// A failure is not remembered: the lookup that failed leaves the table as it
/// was, and a lookup of the same key at that instant or later is a miss again,
/// which goes to the source.
pub proof fn lemma_failure_not_cached(
    before: Map<QuoteKey, CachedQuote>,
    after: Map<QuoteKey, CachedQuote>,
    key: QuoteKey,
    ttl_secs: u64,
    checked_at: int,
    stored_at: int,
    result: Result<String, VendorError>,
    later: int,
)
    requires
        answers(before, after, key, ttl_secs, checked_at, stored_at, result),
        result is Err,
        checked_at <= later,
    ensures
        after == before,
        fresh_value(after, key, later) is None,
{
}

} // verus!
