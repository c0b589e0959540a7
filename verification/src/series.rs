//! Quote series: the points of one fetch, ordered by time, and the merge that
//! puts the series of one week together from its daily pieces.

use vstd::prelude::*;
use crate::language::AppError;
use crate::timeframe::Timeframe;

verus! {

/// One point of a series. The four prices are carried as the bit patterns of
/// the provider's floating-point numbers and are never computed with.
#[derive(Clone, Copy, Debug, PartialEq, Eq, Structural)]
pub struct QuotePoint {
    /// Seconds since the epoch.
    pub timestamp: i64,
    pub open: u64,
    pub high: u64,
    pub low: u64,
    pub close: u64,
}

/// Every point is later than the one before it.
pub open spec fn strictly_increasing(s: Seq<QuotePoint>) -> bool {
    forall|i: int, j: int| 0 <= i < j < s.len() ==> s[i].timestamp < s[j].timestamp
}

/// Some point of `s` was taken at `t`.
pub open spec fn has_timestamp(s: Seq<QuotePoint>, t: i64) -> bool {
    exists|i: int| 0 <= i < s.len() && s[i].timestamp == t
}

/// `s[k]` is the first point of `s` that was taken at `t`.
pub open spec fn is_first_at(s: Seq<QuotePoint>, k: int, t: i64) -> bool {
    &&& 0 <= k < s.len()
    &&& s[k].timestamp == t
    &&& forall|m: int| 0 <= m < k ==> s[m].timestamp != t
}

/// `out` is `input` merged: ordered by time, with one point for every
/// timestamp of `input` and no other, and of several points taken at the same
/// time the one that comes first in `input`.
pub open spec fn is_merge_of(input: Seq<QuotePoint>, out: Seq<QuotePoint>) -> bool {
    &&& strictly_increasing(out)
    &&& forall|i: int| 0 <= i < input.len() ==> has_timestamp(out, #[trigger] input[i].timestamp)
    &&& forall|j: int| 0 <= j < out.len() ==> is_taken_first(input, #[trigger] out[j])
}

/// `point` is a point of `input`, and the first one taken at its time.
pub open spec fn is_taken_first(input: Seq<QuotePoint>, point: QuotePoint) -> bool {
    exists|k: int| #[trigger] is_first_at(input, k, point.timestamp) && input[k] == point
}

/// The pieces of a fetch laid end to end.
pub open spec fn concat_chunks(chunks: Seq<Vec<QuotePoint>>) -> Seq<QuotePoint>
    decreases chunks.len(),
{
    if chunks.len() == 0 {
        Seq::empty()
    } else {
        concat_chunks(chunks.drop_last()) + chunks.last()@
    }
}

/// Merging leaves nothing exactly when there was nothing to merge.
pub proof fn lemma_merge_empty_iff(input: Seq<QuotePoint>, out: Seq<QuotePoint>)
    requires
        is_merge_of(input, out),
    ensures
        out.len() == 0 <==> input.len() == 0,
{
    if input.len() > 0 {
        assert(has_timestamp(out, input[0].timestamp));
    }
    if out.len() > 0 {
        assert(is_taken_first(input, out[0]));
        let k = choose|k: int| #[trigger]
            is_first_at(input, k, out[0].timestamp) && input[k] == out[0];
        assert(0 <= k < input.len());
    }
}

/// Two merges of the same input are the same series: the merge is a function
/// of its input.
pub proof fn lemma_merge_is_unique(input: Seq<QuotePoint>, a: Seq<QuotePoint>, b: Seq<QuotePoint>)
    requires
        is_merge_of(input, a),
        is_merge_of(input, b),
    ensures
        a == b,
{
    lemma_merge_prefix(input, a, b, a.len() as int);
    lemma_merge_prefix(input, b, a, b.len() as int);
    assert(a =~= b);
}

/// The first `n` points of one merge are the first `n` points of any other
/// merge of the same input.
proof fn lemma_merge_prefix(input: Seq<QuotePoint>, a: Seq<QuotePoint>, b: Seq<QuotePoint>, n: int)
    requires
        is_merge_of(input, a),
        is_merge_of(input, b),
        0 <= n <= a.len(),
    ensures
        n <= b.len(),
        forall|i: int| 0 <= i < n ==> a[i] == b[i],
    decreases n,
{
    if n > 0 {
        lemma_merge_prefix(input, a, b, n - 1);
        let i = n - 1;
        // a[i] comes from the input, so b holds its timestamp at some place p.
        assert(is_taken_first(input, a[i]));
        let k = choose|k: int| #[trigger] is_first_at(input, k, a[i].timestamp) && input[k] == a[i];
        assert(has_timestamp(b, input[k].timestamp));
        let p = choose|p: int| 0 <= p < b.len() && b[p].timestamp == a[i].timestamp;
        // p cannot lie before i: those places hold the earlier points of a.
        if p < i {
            assert(a[p] == b[p]);
            assert(a[p].timestamp < a[i].timestamp);
        }
        // and it cannot lie after i: b[i] would then be a point earlier than
        // a[i] that a holds only before place i.
        if p > i {
            assert(is_taken_first(input, b[i]));
            let kb = choose|kb: int| #[trigger]
                is_first_at(input, kb, b[i].timestamp) && input[kb] == b[i];
            assert(has_timestamp(a, input[kb].timestamp));
            let q = choose|q: int| 0 <= q < a.len() && a[q].timestamp == b[i].timestamp;
            assert(b[i].timestamp < b[p].timestamp);
            if q < i {
                assert(a[q] == b[q]);
                assert(b[q].timestamp < b[i].timestamp);
            } else if q > i {
                assert(a[i].timestamp < a[q].timestamp);
            }
            assert(false);
        }
        assert(p == i);
        assert(is_taken_first(input, b[i]));
        let kb = choose|kb: int| #[trigger]
            is_first_at(input, kb, b[i].timestamp) && input[kb] == b[i];
        assert(kb == k) by {
            if kb < k {
                assert(input[kb].timestamp != a[i].timestamp);
            } else if k < kb {
                assert(input[k].timestamp != b[i].timestamp);
            }
        }
    }
}

/// What was taken first from the input is taken first from the input with
/// one more point at its end.
proof fn lemma_first_stays_first(input: Seq<QuotePoint>, point: QuotePoint, taken: QuotePoint)
    requires
        is_taken_first(input, taken),
    ensures
        is_taken_first(input.push(point), taken),
{
    let grown = input.push(point);
    let k = choose|k: int| #[trigger] is_first_at(input, k, taken.timestamp) && input[k] == taken;
    assert(grown[k] == input[k]);
    assert forall|m: int| 0 <= m < k implies grown[m].timestamp != taken.timestamp by {
        assert(grown[m] == input[m]);
    }
    assert(is_first_at(grown, k, taken.timestamp) && grown[k] == taken);
}

/// A point whose timestamp the merge already holds changes nothing.
proof fn lemma_merge_skip(input: Seq<QuotePoint>, out: Seq<QuotePoint>, point: QuotePoint)
    requires
        is_merge_of(input, out),
        has_timestamp(out, point.timestamp),
    ensures
        is_merge_of(input.push(point), out),
{
    let grown = input.push(point);
    assert forall|j: int| 0 <= j < out.len() implies is_taken_first(grown, #[trigger] out[j]) by {
        lemma_first_stays_first(input, point, out[j]);
    }
    assert forall|i: int| 0 <= i < grown.len() implies has_timestamp(
        out,
        #[trigger] grown[i].timestamp,
    ) by {
        if i < input.len() {
            assert(grown[i] == input[i]);
            assert(has_timestamp(out, input[i].timestamp));
        }
    }
}

/// A point with a new timestamp goes where it belongs in time.
proof fn lemma_merge_insert(
    input: Seq<QuotePoint>,
    out: Seq<QuotePoint>,
    point: QuotePoint,
    pos: int,
)
    requires
        is_merge_of(input, out),
        0 <= pos <= out.len(),
        forall|j: int| 0 <= j < pos ==> out[j].timestamp < point.timestamp,
        forall|j: int| pos <= j < out.len() ==> out[j].timestamp > point.timestamp,
    ensures
        is_merge_of(input.push(point), out.insert(pos, point)),
{
    let grown = input.push(point);
    let after = out.insert(pos, point);
    assert(after.len() == out.len() + 1);
    assert(after[pos] == point);
    assert forall|j: int| 0 <= j < pos implies after[j] == out[j] by {}
    assert forall|j: int| pos < j < after.len() implies after[j] == out[j - 1] by {}
    // No point of the input was taken at the new timestamp.
    assert(!has_timestamp(out, point.timestamp)) by {
        if has_timestamp(out, point.timestamp) {
            let q = choose|q: int| 0 <= q < out.len() && out[q].timestamp == point.timestamp;
            if q < pos {
                assert(out[q].timestamp < point.timestamp);
            } else {
                assert(out[q].timestamp > point.timestamp);
            }
        }
    }
    assert forall|m: int| 0 <= m < input.len() implies input[m].timestamp
        != point.timestamp by {
        if input[m].timestamp == point.timestamp {
            assert(has_timestamp(out, input[m].timestamp));
        }
    }
    // Order.
    assert forall|i: int, j: int| 0 <= i < j < after.len() implies after[i].timestamp
        < after[j].timestamp by {
        if j < pos {
            assert(out[i].timestamp < out[j].timestamp);
        } else if j == pos {
            assert(out[i].timestamp < point.timestamp);
        } else if i < pos {
            assert(out[i].timestamp < out[j - 1].timestamp);
        } else if i == pos {
            assert(out[j - 1].timestamp > point.timestamp);
        } else {
            assert(out[i - 1].timestamp < out[j - 1].timestamp);
        }
    }
    // Every timestamp of the input is there.
    assert forall|i: int| 0 <= i < grown.len() implies has_timestamp(
        after,
        #[trigger] grown[i].timestamp,
    ) by {
        if i < input.len() {
            assert(grown[i] == input[i]);
            assert(has_timestamp(out, input[i].timestamp));
            let q = choose|q: int| 0 <= q < out.len() && out[q].timestamp == input[i].timestamp;
            if q < pos {
                assert(after[q].timestamp == grown[i].timestamp);
            } else {
                assert(after[q + 1] == out[q]);
                assert(after[q + 1].timestamp == grown[i].timestamp);
            }
        } else {
            assert(after[pos].timestamp == grown[i].timestamp);
        }
    }
    // Every point comes first among its equals in the input.
    assert forall|j: int| 0 <= j < after.len() implies is_taken_first(
        grown,
        #[trigger] after[j],
    ) by {
        if j < pos {
            assert(after[j] == out[j]);
            lemma_first_stays_first(input, point, out[j]);
        } else if j == pos {
            let k = input.len() as int;
            assert(grown[k] == point);
            assert forall|m: int| 0 <= m < k implies grown[m].timestamp != point.timestamp by {
                assert(grown[m] == input[m]);
            }
            assert(is_first_at(grown, k, point.timestamp) && grown[k] == point);
        } else {
            assert(after[j] == out[j - 1]);
            lemma_first_stays_first(input, point, out[j - 1]);
        }
    }
}

/// Adds one more point of the input to a merge: the point is dropped when
/// its timestamp is already there, and put at its place in time otherwise.
fn merge_point(out: &mut Vec<QuotePoint>, point: QuotePoint, Ghost(input): Ghost<Seq<QuotePoint>>)
    requires
        is_merge_of(input, old(out)@),
    ensures
        is_merge_of(input.push(point), final(out)@),
{
    let mut pos: usize = out.len();
    while pos > 0 && out[pos - 1].timestamp > point.timestamp
        invariant
            pos <= out.len(),
            out@ == old(out)@,
            forall|j: int| pos <= j < out.len() ==> out[j].timestamp > point.timestamp,
        decreases pos,
    {
        pos -= 1;
    }
    if pos > 0 && out[pos - 1].timestamp == point.timestamp {
        proof {
            assert(has_timestamp(out@, point.timestamp));
            lemma_merge_skip(input, out@, point);
        }
    } else {
        proof {
            assert forall|j: int| 0 <= j < pos implies out@[j].timestamp < point.timestamp by {
                assert(out@[pos - 1].timestamp < point.timestamp);
                if j < pos - 1 {
                    assert(out@[j].timestamp < out@[pos - 1].timestamp);
                }
            }
            lemma_merge_insert(input, out@, point, pos as int);
        }
        out.insert(pos, point);
    }
}

/// Merges the pieces of a fetch into one series: the union of their points
/// by timestamp, ordered by time, each timestamp once.
pub fn merge_chunks(chunks: &Vec<Vec<QuotePoint>>) -> (out: Vec<QuotePoint>)
    ensures
        is_merge_of(concat_chunks(chunks@), out@),
{
    let mut out: Vec<QuotePoint> = Vec::new();
    let mut c: usize = 0;
    assert(concat_chunks(chunks@.take(0)) =~= Seq::<QuotePoint>::empty());
    while c < chunks.len()
        invariant
            c <= chunks.len(),
            is_merge_of(concat_chunks(chunks@.take(c as int)), out@),
        decreases chunks.len() - c,
    {
        let chunk = &chunks[c];
        let ghost done = concat_chunks(chunks@.take(c as int));
        let mut i: usize = 0;
        assert(done + chunk@.take(0) =~= done);
        while i < chunk.len()
            invariant
                i <= chunk.len(),
                is_merge_of(done + chunk@.take(i as int), out@),
            decreases chunk.len() - i,
        {
            merge_point(&mut out, chunk[i], Ghost(done + chunk@.take(i as int)));
            assert((done + chunk@.take(i as int)).push(chunk@[i as int]) =~= done + chunk@.take(
                i + 1,
            ));
            i += 1;
        }
        proof {
            assert(chunk@.take(chunk.len() as int) =~= chunk@);
            let next = chunks@.take(c + 1);
            assert(next.drop_last() =~= chunks@.take(c as int));
            assert(next.last() == chunks@[c as int]);
        }
        c += 1;
    }
    assert(chunks@.take(chunks.len() as int) =~= chunks@);
    out
}

/// The result of one fetch for one symbol and timeframe. A series is never
/// changed after it was built: a new fetch gives a new series.
#[derive(Debug)]
pub struct QuoteSeries {
    points: Vec<QuotePoint>,
    currency: String,
    fetched_at: u64,
}

/// What a series holds.
pub struct SeriesView {
    pub points: Seq<QuotePoint>,
    pub currency: Seq<char>,
    pub fetched_at: u64,
}

impl View for QuoteSeries {
    type V = SeriesView;

    closed spec fn view(&self) -> SeriesView {
        SeriesView { points: self.points@, currency: self.currency@, fetched_at: self.fetched_at }
    }
}

impl SeriesView {
    /// A series holds at least one point, and its points are ordered by time
    /// with no timestamp twice.
    pub open spec fn wf(self) -> bool {
        &&& self.points.len() > 0
        &&& strictly_increasing(self.points)
    }
}

/// The error of a fetch that gave no point at all.
pub open spec fn empty_error(timeframe: Timeframe) -> AppError {
    if timeframe == Timeframe::OneWeek {
        AppError::WeekDataError
    } else {
        AppError::NoQuotesFound
    }
}

impl QuoteSeries {
    /// A series holds at least one point, ordered by time.
    #[verifier::type_invariant]
    spec fn inv(&self) -> bool {
        self.points@.len() > 0 && strictly_increasing(self.points@)
    }

    /// Builds the series of a completed fetch from the pieces the provider
    /// returned, in the order they were asked for. A fetch without a single
    /// point is a failure, not an empty series.
    pub fn assemble(
        timeframe: Timeframe,
        chunks: &Vec<Vec<QuotePoint>>,
        currency: String,
        fetched_at: u64,
    ) -> (r: Result<QuoteSeries, AppError>)
        ensures
            match r {
                Ok(series) => {
                    &&& concat_chunks(chunks@).len() > 0
                    &&& series@.wf()
                    &&& is_merge_of(concat_chunks(chunks@), series@.points)
                    &&& series@.currency == currency@
                    &&& series@.fetched_at == fetched_at
                },
                Err(e) => concat_chunks(chunks@).len() == 0 && e == empty_error(timeframe),
            },
    {
        let points = merge_chunks(chunks);
        proof {
            lemma_merge_empty_iff(concat_chunks(chunks@), points@);
        }
        if points.len() == 0 {
            match timeframe {
                Timeframe::OneWeek => Err(AppError::WeekDataError),
                _ => Err(AppError::NoQuotesFound),
            }
        } else {
            Ok(QuoteSeries { points, currency, fetched_at })
        }
    }

    /// The points of the series, ordered by time.
    pub fn points(&self) -> (r: &Vec<QuotePoint>)
        ensures
            r@ == self@.points,
            self@.wf(),
    {
        proof {
            use_type_invariant(self);
        }
        &self.points
    }

    /// The code of the currency of the prices.
    pub fn currency(&self) -> (r: &str)
        ensures
            r@ == self@.currency,
    {
        self.currency.as_str()
    }

    /// When the fetch completed, in milliseconds of the host's clock.
    pub fn fetched_at(&self) -> (r: u64)
        ensures
            r == self@.fetched_at,
    {
        self.fetched_at
    }

    /// A copy of the series, point for point.
    pub fn duplicate(&self) -> (r: QuoteSeries)
        ensures
            r@ == self@,
    {
        proof {
            use_type_invariant(self);
        }
        QuoteSeries {
            points: self.points.clone(),
            currency: self.currency.clone(),
            fetched_at: self.fetched_at,
        }
    }
}

} // verus!
