use vstd::prelude::*;

use crate::sources::{current_timestamp, utc_date, utc_date_of};
use crate::text::text;

verus! {

/// Exchange rates are fixed point: a rate of `r` means `r / RATE_SCALE` units of
/// the destination currency per unit of the source currency.
pub const RATE_SCALE: u64 = 100_000_000;

/// The day of a quote taken at `timestamp`, empty where it cannot be written.
pub open spec fn date_text(timestamp: i64) -> Seq<char> {
    match utc_date_of(timestamp) {
        Some(d) => d,
        None => Seq::empty(),
    }
}

/// A quoted rate snapshot for a currency pair; `timestamp` is in Unix seconds
/// and `date` its calendar day in UTC.
#[derive(Clone, Debug, PartialEq, Eq)]
pub struct ExchangeRate {
    pub date: String,
    pub timestamp: i64,
    pub source_currency: String,
    pub destination_currency: String,
    pub rate: u64,
    pub provider: String,
}

impl ExchangeRate {
    /// Whether this quote is for the pair `source` to `destination`.
    pub open spec fn for_pair(&self, source: Seq<char>, destination: Seq<char>) -> bool {
        self.source_currency@ == source && self.destination_currency@ == destination
    }

    /// A quote taken at `timestamp`.
    pub fn new_at(
        source_currency: String,
        destination_currency: String,
        rate: u64,
        provider: String,
        timestamp: i64,
    ) -> (r: Self)
        ensures
            r.date@ == date_text(timestamp),
            r == (ExchangeRate {
                date: r.date,
                timestamp,
                source_currency,
                destination_currency,
                rate,
                provider,
            }),
    {
        let date = match utc_date(timestamp) {
            Some(d) => d,
            None => String::new(),
        };
        ExchangeRate { date, timestamp, source_currency, destination_currency, rate, provider }
    }

    /// A quote taken now.
    pub fn new(source_currency: String, destination_currency: String, rate: u64, provider: String) -> (r:
        Self)
        ensures
            r.date@ == date_text(r.timestamp),
            r == (ExchangeRate {
                date: r.date,
                timestamp: r.timestamp,
                source_currency,
                destination_currency,
                rate,
                provider,
            }),
    {
        let now = current_timestamp();
        ExchangeRate::new_at(source_currency, destination_currency, rate, provider, now)
    }

    /// A field-by-field copy.
    pub fn duplicate(&self) -> (r: Self)
        ensures
            r == *self,
    {
        ExchangeRate {
            date: self.date.clone(),
            timestamp: self.timestamp,
            source_currency: self.source_currency.clone(),
            destination_currency: self.destination_currency.clone(),
            rate: self.rate,
            provider: self.provider.clone(),
        }
    }
}

/// Quote `i` of `quotes` is the most recently stored one for the pair.
pub open spec fn is_latest(
    quotes: Seq<ExchangeRate>,
    i: int,
    source: Seq<char>,
    destination: Seq<char>,
) -> bool {
    &&& 0 <= i < quotes.len()
    &&& quotes[i].for_pair(source, destination)
    &&& forall|j: int| i < j < quotes.len() ==> !(#[trigger] quotes[j]).for_pair(source, destination)
}

/// A quote taken at `timestamp` is still valid at `now` under time-to-live `ttl`.
pub open spec fn fresh(timestamp: i64, now: i64, ttl: u64) -> bool {
    now - timestamp <= ttl
}

/// The quotes of `quotes` for the pair, newest (last stored) first.
pub open spec fn newest_for_pair(
    quotes: Seq<ExchangeRate>,
    source: Seq<char>,
    destination: Seq<char>,
) -> Seq<ExchangeRate>
    decreases quotes.len(),
{
    if quotes.len() == 0 {
        Seq::empty()
    } else {
        let rest = newest_for_pair(quotes.drop_last(), source, destination);
        if quotes.last().for_pair(source, destination) {
            seq![quotes.last()] + rest
        } else {
            rest
        }
    }
}

/// How many quotes a history query returns at most: 10 unless asked, never over 50.
pub open spec fn history_limit(limit: Option<usize>) -> int {
    match limit {
        Some(l) => if l > 50 {
            50
        } else {
            l as int
        },
        None => 10,
    }
}

/// The append-only store of quotes, read through with a time-to-live: a quote
/// older than `cache_seconds` is never handed out again.
pub struct ExchangeRateRepository {
    quotes: Vec<ExchangeRate>,
    cache_seconds: u64,
}

impl View for ExchangeRateRepository {
    type V = Seq<ExchangeRate>;

    closed spec fn view(&self) -> Seq<ExchangeRate> {
        self.quotes@
    }
}

impl ExchangeRateRepository {
    /// How long a quote stays valid, in seconds.
    pub closed spec fn ttl(&self) -> u64 {
        self.cache_seconds
    }

    /// An empty store whose quotes stay valid for `cache_seconds`.
    pub fn new(cache_seconds: u64) -> (r: Self)
        ensures
            r@ == Seq::<ExchangeRate>::empty(),
            r.ttl() == cache_seconds,
    {
        ExchangeRateRepository { quotes: Vec::new(), cache_seconds }
    }

    /// Stores a quote; it supersedes earlier quotes for its pair.
    pub fn save(&mut self, quote: ExchangeRate)
        ensures
            final(self)@ == old(self)@.push(quote),
            final(self).ttl() == old(self).ttl(),
    {
        self.quotes.push(quote);
    }

    /// The latest stored quote for the pair if it is still fresh at `now`;
    /// `None` when there is none or it is stale, and a fresh quote must be fetched.
    pub fn get_latest(&self, source_currency: &str, destination_currency: &str, now: i64) -> (r:
        Option<ExchangeRate>)
        ensures
            match r {
                Some(q) => exists|i: int|
                    is_latest(self@, i, source_currency@, destination_currency@) && q == self@[i]
                        && fresh(q.timestamp, now, self.ttl()),
                None => forall|i: int|
                    is_latest(self@, i, source_currency@, destination_currency@) ==> !fresh(
                        #[trigger] self@[i].timestamp,
                        now,
                        self.ttl(),
                    ),
            },
    {
        let source = text(source_currency);
        let destination = text(destination_currency);
        let mut i: usize = self.quotes.len();
        while i > 0
            invariant
                i <= self.quotes@.len(),
                source@ == source_currency@,
                destination@ == destination_currency@,
                forall|j: int|
                    i <= j < self.quotes@.len() ==> !(#[trigger] self.quotes@[j]).for_pair(
                        source_currency@,
                        destination_currency@,
                    ),
            decreases i,
        {
            let q = &self.quotes[i - 1];
            if q.source_currency == source && q.destination_currency == destination {
                proof {
                    assert(is_latest(self@, i - 1, source_currency@, destination_currency@));
                    assert forall|k: int|
                        is_latest(self@, k, source_currency@, destination_currency@) implies k == i
                        - 1 by {
                        if k < i - 1 {
                            assert(!self.quotes@[i - 1].for_pair(
                                source_currency@,
                                destination_currency@,
                            ));
                        }
                    }
                }
                let age = now as i128 - q.timestamp as i128;
                if age <= self.cache_seconds as i128 {
                    return Some(q.duplicate());
                } else {
                    return None;
                }
            }
            i = i - 1;
        }
        None
    }
    /// The quotes stored for the pair, newest first, at most `limit` of them
    /// (10 when not given, never more than 50).
    pub fn get_history(&self, source_currency: &str, destination_currency: &str, limit: Option<
        usize,
    >) -> (r: Vec<ExchangeRate>)
        ensures
            r@ == crate::repository::first_n(
                newest_for_pair(self@, source_currency@, destination_currency@),
                history_limit(limit),
            ),
    {
        let n: usize = match limit {
            Some(l) => if l > 50 {
                50
            } else {
                l
            },
            None => 10,
        };
        let source = text(source_currency);
        let destination = text(destination_currency);
        let ghost q = self@;
        let ghost full = newest_for_pair(q, source_currency@, destination_currency@);
        let mut out: Vec<ExchangeRate> = Vec::new();
        let mut i: usize = self.quotes.len();
        proof {
            assert(q.take(i as int) =~= q);
            assert(out@ + full =~= full);
        }
        while i > 0 && out.len() < n
            invariant
                q == self@,
                i <= q.len(),
                out.len() <= n,
                source@ == source_currency@,
                destination@ == destination_currency@,
                out@ + newest_for_pair(q.take(i as int), source_currency@, destination_currency@)
                    == full,
            decreases i,
        {
            proof {
                assert(q.take(i as int).drop_last() =~= q.take(i - 1));
                assert(q.take(i as int).last() == q[i - 1]);
            }
            let quote = &self.quotes[i - 1];
            if quote.source_currency == source && quote.destination_currency == destination {
                let ghost before = out@;
                out.push(quote.duplicate());
                proof {
                    assert(out@ + newest_for_pair(
                        q.take(i - 1),
                        source_currency@,
                        destination_currency@,
                    ) =~= before + (seq![*quote] + newest_for_pair(
                        q.take(i - 1),
                        source_currency@,
                        destination_currency@,
                    )));
                }
            }
            i = i - 1;
        }
        proof {
            if i == 0 {
                assert(q.take(0) =~= Seq::<ExchangeRate>::empty());
                assert(out@ =~= full);
            } else {
                let rest = newest_for_pair(q.take(i as int), source_currency@, destination_currency@);
                assert((out@ + rest).take(n as int) =~= out@);
            }
        }
        out
    }
}

} // verus!
