//! How fast tokens are used: which samples count, and how they fall into the columns of
//! a graph.
use vstd::prelude::*;
use vstd::string::*;

use crate::sorting::{is_ranking, ranked, sort, views_of, Ranked};

verus! {

broadcast use {vstd::seq::group_seq_axioms, vstd::string::group_string_axioms};

/// How far back the current rate looks, in milliseconds.
pub const THROUGHPUT_WINDOW_MS: i64 = 5_000;

/// How far back the graph looks, in milliseconds.
pub const THROUGHPUT_GRAPH_WINDOW_MS: i64 = 600_000;

/// How many columns the graph has.
pub const THROUGHPUT_GRAPH_COLUMNS: usize = 24;

/// How many milliseconds a column of the graph stands for.
pub const THROUGHPUT_BUCKET_MS: i64 = 25_000;

/// How many tokens had been used at some time, in milliseconds since the start of 1970.
#[derive(Clone, Copy, Debug, PartialEq, Eq, Structural)]
pub struct TokenSample {
    pub at_ms: i64,
    pub tokens: u64,
}

impl View for TokenSample {
    type V = TokenSample;

    open spec fn view(&self) -> TokenSample {
        *self
    }
}

impl Ranked for TokenSample {
    open spec fn ranks_before(a: TokenSample, b: TokenSample) -> bool {
        a.at_ms < b.at_ms
    }

    fn comes_before(&self, other: &Self) -> (r: bool) {
        self.at_ms < other.at_ms
    }
}

/// What comes first among samples is an order: no two come before each other, and of
/// three that are not out of order, the first and the last are not either.
pub proof fn law_sample_order_is_an_order()
    ensures
        is_ranking::<TokenSample>(),
{
}

/// The samples that are kept, the newest first, and the second for which the rate was
/// last measured.
#[derive(Debug)]
pub struct TokenSamples {
    pub samples: Vec<TokenSample>,
    pub last_tps_second: Option<i64>,
}

/// How much was used between two samples, and how many milliseconds lie between them.
#[derive(Clone, Copy, Debug, PartialEq, Eq, Structural)]
pub struct TokenRate {
    pub tokens: u64,
    pub elapsed_ms: i128,
}

/// The samples without those at the end that are too old.
pub open spec fn kept(samples: Seq<TokenSample>, oldest: int) -> Seq<TokenSample>
    decreases samples.len(),
{
    if samples.len() > 0 && samples.last().at_ms < oldest {
        kept(samples.drop_last(), oldest)
    } else {
        samples
    }
}

/// The whole second of a time in milliseconds, rounded towards zero.
pub open spec fn second_of(ms: i64) -> int {
    if ms >= 0 {
        ms as int / 1_000
    } else {
        -((0 - ms) / 1_000)
    }
}

/// The rate from the first of some samples to a last one.
pub open spec fn rate_between(start: TokenSample, end: TokenSample) -> TokenRate {
    TokenRate {
        tokens: if end.tokens > start.tokens {
            (end.tokens - start.tokens) as u64
        } else {
            0
        },
        elapsed_ms: (end.at_ms - start.at_ms) as i128,
    }
}

fn measure(start: TokenSample, end: TokenSample) -> (r: TokenRate)
    ensures
        r == rate_between(start, end),
{
    TokenRate {
        tokens: if end.tokens > start.tokens {
            end.tokens - start.tokens
        } else {
            0
        },
        elapsed_ms: end.at_ms as i128 - start.at_ms as i128,
    }
}

/// The last sample that is not too old: since the newest stand first, the oldest of the
/// window.
pub open spec fn oldest_since(samples: Seq<TokenSample>, oldest: int) -> Option<TokenSample>
    decreases samples.len(),
{
    if samples.len() == 0 {
        None
    } else if samples.last().at_ms >= oldest {
        Some(samples.last())
    } else {
        oldest_since(samples.drop_last(), oldest)
    }
}

/// The rate of now: from the oldest sample of the window to now.
pub open spec fn current_rate(samples: Seq<TokenSample>, now: TokenSample) -> TokenRate {
    match oldest_since(samples, now.at_ms - THROUGHPUT_WINDOW_MS) {
        Some(start) => rate_between(start, now),
        None => rate_between(now, now),
    }
}

/// The rates between samples that follow each other, each with the time of the later
/// one.
pub open spec fn steps(samples: Seq<TokenSample>) -> Seq<(i64, TokenRate)> {
    if samples.len() == 0 {
        Seq::empty()
    } else {
        Seq::new(
            (samples.len() - 1) as nat,
            |i: int| (samples[i + 1].at_ms, rate_between(samples[i], samples[i + 1])),
        )
    }
}

/// What is left of a time by the width of a column, rounded towards zero.
pub open spec fn column_offset(ms: i64) -> int {
    if ms >= 0 {
        ms as int % 25_000
    } else {
        -((0 - ms) % 25_000)
    }
}

/// Where a column of the graph starts.
pub open spec fn column_start(now_ms: i64, column: int) -> int {
    now_ms - column_offset(now_ms) - 23 * 25_000 + column * 25_000
}

/// Whether a time falls into a column of the graph; the last one takes its end in.
pub open spec fn in_column(at_ms: i64, now_ms: i64, column: int) -> bool {
    let start = column_start(now_ms, column);
    start <= at_ms && (at_ms < start + 25_000 || (column == 23 && at_ms == start + 25_000))
}

/// The rates that fall into a column, in their order.
pub open spec fn rates_in(all: Seq<(i64, TokenRate)>, now_ms: i64, column: int) -> Seq<TokenRate>
    decreases all.len(),
{
    if all.len() == 0 {
        Seq::empty()
    } else {
        let earlier = rates_in(all.drop_last(), now_ms, column);
        if in_column(all.last().0, now_ms, column) {
            earlier.push(all.last().1)
        } else {
            earlier
        }
    }
}

/// The rates in each column of the graph.
pub open spec fn columns(samples: Seq<TokenSample>, now: TokenSample) -> Seq<Seq<TokenRate>> {
    let all = steps(ranked::<TokenSample>(samples.push(now)));
    Seq::new(24, |i: int| rates_in(all, now.at_ms, i))
}

/// What lists of rates hold.
pub open spec fn rate_lists(all: Seq<Vec<TokenRate>>) -> Seq<Seq<TokenRate>> {
    Seq::new(all.len(), |i: int| all[i]@)
}

impl TokenSamples {
    /// No samples yet.
    pub fn new() -> (r: TokenSamples)
        ensures
            r.samples@ == Seq::<TokenSample>::empty(),
            r.last_tps_second is None,
    {
        TokenSamples { samples: Vec::new(), last_tps_second: None }
    }

    /// Takes a sample in, and lets go of those that the graph does not look back to.
    pub fn capture_token_sample(&mut self, now_ms: i64, total_tokens: u64)
        ensures
            final(self).samples@ == kept(
                seq![TokenSample { at_ms: now_ms, tokens: total_tokens }] + old(self).samples@,
                now_ms - THROUGHPUT_GRAPH_WINDOW_MS,
            ),
            final(self).last_tps_second == old(self).last_tps_second,
    {
        let ghost all = seq![TokenSample { at_ms: now_ms, tokens: total_tokens }] + self.samples@;
        self.samples.insert(0, TokenSample { at_ms: now_ms, tokens: total_tokens });
        proof {
            assert(self.samples@ =~= all);
        }
        let oldest: i128 = now_ms as i128 - THROUGHPUT_GRAPH_WINDOW_MS as i128;
        while self.samples.len() > 0 && (self.samples[self.samples.len() - 1].at_ms as i128)
            < oldest
            invariant
                oldest == now_ms - THROUGHPUT_GRAPH_WINDOW_MS,
                kept(all, oldest as int) == kept(self.samples@, oldest as int),
                self.last_tps_second == old(self).last_tps_second,
            decreases self.samples.len(),
        {
            let ghost had = self.samples@;
            self.samples.pop();
            proof {
                assert(self.samples@ =~= had.drop_last());
            }
        }
    }

    /// The rate of now, unless it has been measured in this second.
    pub fn throttled_rate(&mut self, now_ms: i64, current_tokens: u64) -> (r: Option<TokenRate>)
        ensures
            final(self).samples@ == old(self).samples@,
            final(self).last_tps_second == Some(second_of(now_ms) as i64),
            r == if old(self).last_tps_second == Some(second_of(now_ms) as i64) {
                None
            } else {
                Some(
                    current_rate(
                        old(self).samples@,
                        TokenSample { at_ms: now_ms, tokens: current_tokens },
                    ),
                )
            },
    {
        let second: i64 = if now_ms >= 0 {
            now_ms / 1_000
        } else {
            let away: u64 = (0 - now_ms as i128) as u64;
            -((away / 1_000) as i64)
        };
        let measured: bool = match self.last_tps_second {
            Some(last) => last == second,
            None => false,
        };
        if measured {
            return None;
        }
        self.last_tps_second = Some(second);
        Some(self.rolling_rate(now_ms, current_tokens))
    }

    /// The rate of now: from the oldest sample of the window to now.
    pub fn rolling_rate(&self, now_ms: i64, current_tokens: u64) -> (r: TokenRate)
        ensures
            r == current_rate(
                self.samples@,
                TokenSample { at_ms: now_ms, tokens: current_tokens },
            ),
    {
        let now: TokenSample = TokenSample { at_ms: now_ms, tokens: current_tokens };
        let oldest: i128 = now_ms as i128 - THROUGHPUT_WINDOW_MS as i128;
        let ghost all = self.samples@;
        let mut i: usize = self.samples.len();
        proof {
            assert(all.take(i as int) =~= all);
        }
        while i > 0
            invariant
                i <= self.samples.len(),
                all == self.samples@,
                oldest == now_ms - THROUGHPUT_WINDOW_MS,
                now.at_ms == now_ms,
                now.tokens == current_tokens,
                oldest_since(all, oldest as int) == oldest_since(all.take(i as int), oldest as int),
            decreases i,
        {
            i = i - 1;
            proof {
                assert(all.take(i + 1).last() == all[i as int]);
                assert(all.take(i + 1).drop_last() =~= all.take(i as int));
            }
            if self.samples[i].at_ms as i128 >= oldest {
                return measure(self.samples[i], now);
            }
        }
        measure(now, now)
    }

    /// The rates in each column of the graph.
    pub fn graph_rates(&self, now_ms: i64, current_tokens: u64) -> (r: Vec<Vec<TokenRate>>)
        ensures
            rate_lists(r@) == columns(
                self.samples@,
                TokenSample { at_ms: now_ms, tokens: current_tokens },
            ),
    {
        let now: TokenSample = TokenSample { at_ms: now_ms, tokens: current_tokens };
        let mut samples: Vec<TokenSample> = Vec::new();
        let mut i: usize = 0;
        while i < self.samples.len()
            invariant
                i <= self.samples.len(),
                samples@ == self.samples@.take(i as int),
            decreases self.samples.len() - i,
        {
            samples.push(self.samples[i]);
            i = i + 1;
        }
        samples.push(now);
        proof {
            assert(views_of(samples@) =~= self.samples@.push(now));
        }
        let sorted: Vec<TokenSample> = sort(samples);
        proof {
            assert(views_of(sorted@) =~= sorted@);
        }
        let ghost all = steps(sorted@);
        let mut rates: Vec<(i64, TokenRate)> = Vec::new();
        let mut k: usize = 1;
        while k < sorted.len()
            invariant
                1 <= k,
                sorted.len() >= 1 ==> k <= sorted.len(),
                rates.len() == k - 1,
                forall|j: int|
                    0 <= j < k - 1 ==> #[trigger] rates@[j] == (
                        sorted@[j + 1].at_ms,
                        rate_between(sorted@[j], sorted@[j + 1]),
                    ),
            decreases sorted.len() - k,
        {
            rates.push((sorted[k].at_ms, measure(sorted[k - 1], sorted[k])));
            k = k + 1;
        }
        proof {
            crate::sorting::law_ranked_is_a_permutation::<TokenSample>(self.samples@.push(now));
            assert(rates@ =~= all);
        }
        let offset: i128 = if now_ms >= 0 {
            (now_ms % 25_000) as i128
        } else {
            let away: u64 = (0 - now_ms as i128) as u64;
            0 - (away % 25_000) as i128
        };
        let first: i128 = now_ms as i128 - offset - 575_000;
        let mut out: Vec<Vec<TokenRate>> = Vec::new();
        let mut column: usize = 0;
        while column < THROUGHPUT_GRAPH_COLUMNS
            invariant
                column <= THROUGHPUT_GRAPH_COLUMNS,
                first == column_start(now_ms, 0),
                i64::MIN - 1_000_000 <= first <= i64::MAX,
                rates@ == all,
                out.len() == column,
                forall|j: int|
                    0 <= j < column ==> (#[trigger] out@[j])@ == rates_in(all, now_ms, j),
            decreases THROUGHPUT_GRAPH_COLUMNS - column,
        {
            let start: i128 = first + column as i128 * 25_000;
            let end: i128 = start + 25_000;
            let last: bool = column == 23;
            let mut held: Vec<TokenRate> = Vec::new();
            let mut n: usize = 0;
            while n < rates.len()
                invariant
                    n <= rates.len(),
                    rates@ == all,
                    start == column_start(now_ms, column as int),
                    end == start + 25_000,
                    last == (column == 23),
                    held@ == rates_in(all.take(n as int), now_ms, column as int),
                decreases rates.len() - n,
            {
                proof {
                    assert(all.take(n + 1).drop_last() =~= all.take(n as int));
                    assert(all.take(n + 1).last() == rates@[n as int]);
                }
                let at: i128 = rates[n].0 as i128;
                if start <= at && (at < end || (last && at == end)) {
                    held.push(rates[n].1);
                }
                n = n + 1;
            }
            proof {
                assert(all.take(n as int) =~= all);
            }
            out.push(held);
            column = column + 1;
        }
        proof {
            assert(rate_lists(out@) =~= columns(self.samples@, now));
        }
        out
    }
}

/// A block of the graph, by its height; heights that do not exist are the lowest.
pub open spec fn block(height: usize) -> Seq<char> {
    if height == 1 {
        "▂"@
    } else if height == 2 {
        "▃"@
    } else if height == 3 {
        "▄"@
    } else if height == 4 {
        "▅"@
    } else if height == 5 {
        "▆"@
    } else if height == 6 {
        "▇"@
    } else if height == 7 {
        "█"@
    } else {
        "▁"@
    }
}

fn block_text(height: usize) -> (r: &'static str)
    ensures
        r@ == block(height),
{
    if height == 1 {
        "▂"
    } else if height == 2 {
        "▃"
    } else if height == 3 {
        "▄"
    } else if height == 4 {
        "▅"
    } else if height == 5 {
        "▆"
    } else if height == 6 {
        "▇"
    } else if height == 7 {
        "█"
    } else {
        "▁"
    }
}

/// A graph of blocks.
pub open spec fn graph(heights: Seq<usize>) -> Seq<char>
    decreases heights.len(),
{
    if heights.len() == 0 {
        Seq::empty()
    } else {
        graph(heights.drop_last()) + block(heights.last())
    }
}

/// A graph of blocks, by their heights.
pub fn sparkline(heights: &Vec<usize>) -> (r: String)
    ensures
        r@ == graph(heights@),
{
    let mut out: String = String::new();
    let mut i: usize = 0;
    while i < heights.len()
        invariant
            i <= heights.len(),
            out@ == graph(heights@.take(i as int)),
        decreases heights.len() - i,
    {
        proof {
            assert(heights@.take(i + 1).drop_last() =~= heights@.take(i as int));
            assert(heights@.take(i + 1).last() == heights@[i as int]);
        }
        out.append(block_text(heights[i]));
        i = i + 1;
    }
    proof {
        assert(heights@.take(i as int) =~= heights@);
    }
    out
}

/// The samples that are kept stand at the start of those that there were, and the last of
/// them is not too old.
pub proof fn law_kept_samples_are_recent(samples: Seq<TokenSample>, oldest: int)
    ensures
        kept(samples, oldest).len() <= samples.len(),
        kept(samples, oldest) == samples.take(kept(samples, oldest).len() as int),
        kept(samples, oldest).len() > 0 ==> kept(samples, oldest).last().at_ms >= oldest,
    decreases samples.len(),
{
    if samples.len() > 0 && samples.last().at_ms < oldest {
        law_kept_samples_are_recent(samples.drop_last(), oldest);
        let n = kept(samples, oldest).len() as int;
        assert(samples.drop_last().take(n) =~= samples.take(n));
    } else {
        assert(samples.take(samples.len() as int) =~= samples);
    }
}

/// Whether samples stand with the newest first.
pub open spec fn newest_first(samples: Seq<TokenSample>) -> bool {
    forall|i: int, j: int| 0 <= i < j < samples.len() ==> samples[i].at_ms >= samples[j].at_ms
}

/// Where the newest samples stand first, the rate of now looks back to the oldest sample of
/// the window, and no further than the window.
pub proof fn law_rates_span_the_window(samples: Seq<TokenSample>, now: TokenSample)
    requires
        newest_first(samples),
        samples.len() > 0 ==> samples[0].at_ms <= now.at_ms,
    ensures
        0 <= current_rate(samples, now).elapsed_ms <= THROUGHPUT_WINDOW_MS,
        forall|i: int|
            0 <= i < samples.len() && (#[trigger] samples[i]).at_ms >= now.at_ms
                - THROUGHPUT_WINDOW_MS ==> current_rate(samples, now).elapsed_ms >= now.at_ms
                - samples[i].at_ms,
    decreases samples.len(),
{
    if samples.len() > 0 {
        if samples.last().at_ms < now.at_ms - THROUGHPUT_WINDOW_MS {
            let rest = samples.drop_last();
            law_rates_span_the_window(rest, now);
            assert forall|i: int|
                0 <= i < samples.len() && (#[trigger] samples[i]).at_ms >= now.at_ms
                    - THROUGHPUT_WINDOW_MS implies current_rate(samples, now).elapsed_ms
                >= now.at_ms - samples[i].at_ms by {
                assert(rest[i] == samples[i]);
            }
        }
    }
}

/// Taking in a sample that is not older than the newest keeps the newest first.
pub proof fn law_capturing_keeps_newest_first(
    samples: Seq<TokenSample>,
    now: TokenSample,
    oldest: int,
)
    requires
        newest_first(samples),
        samples.len() > 0 ==> samples[0].at_ms <= now.at_ms,
    ensures
        newest_first(kept(seq![now] + samples, oldest)),
{
    let all = seq![now] + samples;
    assert forall|i: int, j: int| 0 <= i < j < all.len() implies all[i].at_ms >= all[j].at_ms by {
        if i > 0 {
            assert(all[i] == samples[i - 1]);
        }
        assert(all[j] == samples[j - 1]);
    }
    law_kept_samples_are_recent(all, oldest);
    let left = kept(all, oldest);
    assert forall|i: int, j: int| 0 <= i < j < left.len() implies left[i].at_ms
        >= left[j].at_ms by {
        assert(left[i] == all[i] && left[j] == all[j]);
    }
}

/// No time falls into two columns of the graph.
pub proof fn law_columns_do_not_overlap(at_ms: i64, now_ms: i64, a: int, b: int)
    requires
        0 <= a < b < 24,
        in_column(at_ms, now_ms, a),
    ensures
        !in_column(at_ms, now_ms, b),
{
}

/// The present falls into the last column of the graph.
pub proof fn law_now_falls_into_the_last_column(now_ms: i64)
    requires
        now_ms >= 0,
    ensures
        in_column(now_ms, now_ms, 23),
{
}

} // verus!
