//! The history of a reading: samples with the time at which they were taken.
//!
//! A time is a number of nanoseconds since the program started. A sample keeps
//! the text of its reading, which denotes a real number.

use std::collections::VecDeque;
use vstd::prelude::*;

verus! {

/// Nanoseconds in a second.
pub const NANOS: u128 = 1_000_000_000;

/// How much history the charts display, in seconds.
pub const HIST_SECS: u128 = 900;

/// How much history is kept: somewhat more than is displayed.
pub const KEPT_SECS: u128 = 960;

/// How far back the trend looks, in seconds.
pub const TREND_SECS: u128 = 300;

/// The time that the samples of a trend have to span, in seconds.
pub const TREND_SPAN_SECS: u128 = 60;

/// How many samples a trend needs.
pub const TREND_SAMPLES: usize = 5;

/// One reading.
pub struct Sample {
    /// When it was taken.
    pub at: u128,
    /// What it was.
    pub value: String,
}

/// A [`Sample`], its text taken by its characters.
#[verifier::ext_equal]
pub struct SampleModel {
    pub at: u128,
    pub value: Seq<char>,
}

impl View for Sample {
    type V = SampleModel;

    open spec fn view(&self) -> SampleModel {
        SampleModel { at: self.at, value: self.value@ }
    }
}

/// The samples of a series.
pub open spec fn samples_view(s: Seq<Sample>) -> Seq<SampleModel> {
    s.map_values(|x: Sample| x@)
}

/// How long before `now` a sample was taken; negative for one from later.
pub open spec fn age(x: SampleModel, now: u128) -> int {
    now as int - x.at as int
}

/// A series without the samples at its start that are older than is kept.
pub open spec fn pruned(s: Seq<SampleModel>, now: u128) -> Seq<SampleModel>
    decreases s.len(),
{
    if s.len() > 0 && age(s[0], now) > KEPT_SECS * NANOS {
        pruned(s.drop_first(), now)
    } else {
        s
    }
}

/// A series after a reading.
pub open spec fn recorded(s: Seq<SampleModel>, now: u128, value: Seq<char>) -> Seq<SampleModel> {
    pruned(s.push(SampleModel { at: now, value }), now)
}

/// The samples that are at most `secs` seconds old.
pub open spec fn recent(s: Seq<SampleModel>, now: u128, secs: int) -> Seq<SampleModel>
    decreases s.len(),
{
    if s.len() == 0 {
        Seq::empty()
    } else if age(s.last(), now) <= secs * NANOS {
        recent(s.drop_last(), now, secs).push(s.last())
    } else {
        recent(s.drop_last(), now, secs)
    }
}

/// Whether the samples are enough for a trend: in number, and in the time from
/// the first to the last.
pub open spec fn shows_trend(s: Seq<SampleModel>) -> bool {
    s.len() >= TREND_SAMPLES && s.last().at - s[0].at >= TREND_SPAN_SECS * NANOS
}

/// The samples that a chart displays.
pub open spec fn charted(s: Seq<SampleModel>, now: u128) -> Seq<SampleModel> {
    recent(s, now, HIST_SECS as int)
}

/// The samples that a trend is computed from, if they are enough for one.
pub open spec fn trend_basis(s: Seq<SampleModel>, now: u128) -> Option<Seq<SampleModel>> {
    let window = recent(s, now, TREND_SECS as int);
    if shows_trend(window) {
        Some(window)
    } else {
        None
    }
}

/// Records a reading, and forgets what is too old to be displayed.
pub fn push(series: &mut VecDeque<Sample>, now: u128, value: String)
    ensures
        samples_view(final(series)@) == recorded(samples_view(old(series)@), now, value@),
{
    let ghost was = samples_view(series@);
    let ghost new = SampleModel { at: now, value: value@ };
    series.push_back(Sample { at: now, value });
    assert(samples_view(series@) =~= was.push(new));
    while series.len() > 0 && series[0].at < now && now - series[0].at > KEPT_SECS * NANOS
        invariant
            pruned(samples_view(series@), now) == recorded(was, now, value@),
        ensures
            samples_view(series@) == recorded(was, now, value@),
        decreases series@.len(),
    {
        let ghost s = samples_view(series@);
        let _ = series.pop_front();
        assert(samples_view(series@) =~= s.drop_first());
    }
}

/// The samples that are at most `secs` seconds old, with `secs` at most a day.
fn latest(series: &VecDeque<Sample>, now: u128, secs: u128) -> (res: Vec<Sample>)
    requires
        secs <= 86_400,
    ensures
        samples_view(res@) == recent(samples_view(series@), now, secs as int),
{
    let ghost all = samples_view(series@);
    let mut out: Vec<Sample> = Vec::new();
    let mut i: usize = 0;
    assert(all.take(0) =~= Seq::empty());
    while i < series.len()
        invariant
            i <= series@.len(),
            secs <= 86_400,
            all == samples_view(series@),
            samples_view(out@) == recent(all.take(i as int), now, secs as int),
        decreases series@.len() - i,
    {
        let ghost before = samples_view(out@);
        proof {
            assert(all.take(i + 1).drop_last() =~= all.take(i as int));
            assert(all.take(i + 1).last() == series@[i as int]@);
        }
        let at: u128 = series[i].at;
        if at >= now || now - at <= secs * NANOS {
            out.push(Sample { at, value: series[i].value.clone() });
            assert(samples_view(out@) =~= before.push(series@[i as int]@));
        }
        i = i + 1;
    }
    assert(all.take(i as int) =~= all);
    out
}

/// The samples that a chart displays.
pub fn displayed(series: &VecDeque<Sample>, now: u128) -> (res: Vec<Sample>)
    ensures
        samples_view(res@) == recent(samples_view(series@), now, HIST_SECS as int),
        samples_view(res@) == charted(samples_view(series@), now),
{
    latest(series, now, HIST_SECS)
}

/// The samples that a trend is computed from, if they are enough for one.
pub fn trend_samples(series: &VecDeque<Sample>, now: u128) -> (res: Option<Vec<Sample>>)
    ensures
        ({
            let window = recent(samples_view(series@), now, TREND_SECS as int);
            match res {
                Some(v) => samples_view(v@) == window && shows_trend(window),
                None => !shows_trend(window),
            }
        }),
        match res {
            Some(v) => trend_basis(samples_view(series@), now) == Some(samples_view(v@)),
            None => trend_basis(samples_view(series@), now) is None,
        },
{
    let window: Vec<Sample> = latest(series, now, TREND_SECS);
    let n: usize = window.len();
    if n < TREND_SAMPLES {
        return None;
    }
    let first: u128 = window[0].at;
    let last: u128 = window[n - 1].at;
    assert(samples_view(window@)[0].at == first);
    assert(samples_view(window@).last().at == last);
    if last < first || last - first < TREND_SPAN_SECS * NANOS {
        return None;
    }
    Some(window)
}

// -------------------------------------------------------------------- laws

/// Whether the samples stand in the order in which they were taken.
pub open spec fn in_order(s: Seq<SampleModel>) -> bool {
    forall|i: int, j: int| 0 <= i <= j < s.len() ==> (#[trigger] s[i]).at <= (#[trigger] s[j]).at
}

/// Where the samples stand in the order in which they were taken and the new one
/// is the latest, recording it keeps that order, forgets exactly the samples that
/// are too old, and has the new one at the end.
pub proof fn record_keeps_the_recent(s: Seq<SampleModel>, now: u128, value: Seq<char>)
    requires
        in_order(s),
        s.len() > 0 ==> s.last().at <= now,
    ensures
        in_order(recorded(s, now, value)),
        recorded(s, now, value) == recent(
            s.push(SampleModel { at: now, value }),
            now,
            KEPT_SECS as int,
        ),
        recorded(s, now, value).len() > 0,
        recorded(s, now, value).last() == (SampleModel { at: now, value }),
{
    let all = s.push(SampleModel { at: now, value });
    assert(in_order(all));
    lemma_pruned(all, now);
    lemma_recent_last(all, now, KEPT_SECS as int);
}

proof fn lemma_recent_last(s: Seq<SampleModel>, now: u128, secs: int)
    requires
        s.len() > 0,
        age(s.last(), now) <= secs * NANOS,
    ensures
        recent(s, now, secs).len() > 0,
        recent(s, now, secs).last() == s.last(),
{
}

/// A suffix of ordered samples is what is recent of them.
proof fn lemma_pruned(s: Seq<SampleModel>, now: u128)
    requires
        in_order(s),
    ensures
        in_order(pruned(s, now)),
        pruned(s, now) == recent(s, now, KEPT_SECS as int),
    decreases s.len(),
{
    if s.len() > 0 && age(s[0], now) > KEPT_SECS * NANOS {
        let rest = s.drop_first();
        assert(in_order(rest)) by {
            assert forall|i: int, j: int| 0 <= i <= j < rest.len() implies (#[trigger] rest[i]).at <= (
            #[trigger] rest[j]).at by {
                assert(s[i + 1].at <= s[j + 1].at);
            }
        }
        lemma_pruned(rest, now);
        lemma_recent_drops_old(s, now);
    } else {
        lemma_all_recent(s, now);
    }
}

proof fn lemma_recent_drops_old(s: Seq<SampleModel>, now: u128)
    requires
        s.len() > 0,
        age(s[0], now) > KEPT_SECS * NANOS,
    ensures
        recent(s, now, KEPT_SECS as int) == recent(s.drop_first(), now, KEPT_SECS as int),
    decreases s.len(),
{
    if s.len() == 1 {
        assert(s.drop_last() =~= Seq::<SampleModel>::empty());
        assert(s.drop_first() =~= Seq::<SampleModel>::empty());
        assert(recent(s.drop_last(), now, KEPT_SECS as int) =~= Seq::<SampleModel>::empty());
    } else {
        lemma_recent_drops_old(s.drop_last(), now);
        assert(s.drop_last().drop_first() =~= s.drop_first().drop_last());
    }
}

proof fn lemma_all_recent(s: Seq<SampleModel>, now: u128)
    requires
        in_order(s),
        s.len() > 0 ==> age(s[0], now) <= KEPT_SECS * NANOS,
    ensures
        recent(s, now, KEPT_SECS as int) == s,
    decreases s.len(),
{
    if s.len() > 0 {
        let rest = s.drop_last();
        assert(s[0].at <= s[s.len() - 1].at);
        assert(in_order(rest)) by {
            assert forall|i: int, j: int| 0 <= i <= j < rest.len() implies (#[trigger] rest[i]).at <= (
            #[trigger] rest[j]).at by {
                assert(s[i].at <= s[j].at);
            }
        }
        lemma_all_recent(rest, now);
        assert(rest.push(s.last()) =~= s);
    } else {
        assert(s =~= Seq::<SampleModel>::empty());
    }
}

} // verus!
