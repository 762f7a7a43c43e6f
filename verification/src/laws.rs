use vstd::prelude::*;

use crate::aggregator::{observations, prior, record, tally};
use crate::point::DataPoint;
use crate::ratio::{lemma_mean_step, lemma_quotient_injective, lemma_weighted_step, quotient};
use crate::summary::{
    batch, buy_total, last_flat, notional_total, price_total, run, volume_total, Summary,
};

verus! {

/// A first observation with no volume leaves the total volume, the mean
/// volume and the volume-weighted mean price at zero.
pub proof fn lemma_first_point_without_volume(market: u64, point: DataPoint)
    requires
        point.volume == 0,
    ensures
        Summary::zero(market).absorb(point).total_volume == 0,
        Summary::zero(market).absorb(point).mean_volume == 0 as real,
        Summary::zero(market).absorb(point).volume_weighted_mean_price == 0 as real,
{
    lemma_mean_step(0, 0, 0);
    assert((0 as real) / (1 as real) == 0 as real) by (nonlinear_arith);
}

/// The first observation of a market gives its own price as the mean price,
/// its own volume as the mean volume, its own price as the volume-weighted
/// mean price unless it has no volume, and one or zero as the fraction of
/// buys.
pub proof fn lemma_first_point(market: u64, point: DataPoint)
    ensures
        Summary::zero(market).absorb(point).total_data_points == 1,
        Summary::zero(market).absorb(point).mean_price == point.price as real,
        Summary::zero(market).absorb(point).mean_volume == point.volume as real,
        Summary::zero(market).absorb(point).percent_buy == point.buy_indicator() as real,
        point.volume != 0 ==> Summary::zero(market).absorb(point).volume_weighted_mean_price
            == point.price as real,
{
    let p = point.price as real;
    let v = point.volume as real;
    lemma_mean_step(0, 0, point.price as int);
    lemma_mean_step(0, 0, point.volume as int);
    lemma_mean_step(0, 0, point.buy_indicator());
    assert(p / (1 as real) == p) by (nonlinear_arith);
    assert(v / (1 as real) == v) by (nonlinear_arith);
    assert((point.buy_indicator() as real) / (1 as real) == point.buy_indicator() as real)
        by (nonlinear_arith);
    if point.volume != 0 {
        lemma_weighted_step(0, 0, point.notional(), point.volume as int);
        assert(point.notional() as real == p * v) by (nonlinear_arith)
            requires
                point.notional() == point.price * point.volume,
                p == point.price as real,
                v == point.volume as real,
        ;
        assert((p * v) / v == p) by (nonlinear_arith)
            requires
                v != 0 as real,
        ;
    }
}

/// The weighted sum that the running volume-weighted mean is built on: it
/// starts again from zero whenever the running total volume stands at zero.
pub open spec fn settled(points: Seq<DataPoint>) -> int
    decreases points.len(),
{
    if points.len() == 0 || volume_total(points) == 0 {
        0
    } else {
        settled(points.drop_last()) + points.last().notional()
    }
}

/// The running statistics written out over the sums of the history.
pub proof fn lemma_run_closed_form(market: u64, points: Seq<DataPoint>)
    ensures
        run(market, points) == (Summary {
            market: batch(market, points).market,
            total_volume: volume_total(points),
            mean_price: quotient(price_total(points), points.len() as int),
            mean_volume: quotient(volume_total(points), points.len() as int),
            volume_weighted_mean_price: quotient(settled(points), volume_total(points)),
            percent_buy: quotient(buy_total(points), points.len() as int),
            total_data_points: points.len(),
        }),
    decreases points.len(),
{
    if points.len() > 0 {
        let rest = points.drop_last();
        let p = points.last();
        let n = rest.len();
        lemma_run_closed_form(market, rest);
        lemma_mean_step(price_total(rest), n, p.price as int);
        lemma_mean_step(volume_total(rest), n, p.volume as int);
        lemma_mean_step(buy_total(rest), n, p.buy_indicator());
        if volume_total(points) != 0 {
            lemma_weighted_step(settled(rest), volume_total(rest), p.notional(), volume_total(points));
        }
    }
}

/// The longest prefix with zero total volume is a prefix.
pub proof fn lemma_last_flat_bounded(points: Seq<DataPoint>)
    ensures
        last_flat(points) <= points.len(),
        volume_total(points.take(last_flat(points) as int)) == 0,
    decreases points.len(),
{
    if points.len() == 0 {
        assert(points.take(0) =~= points);
    } else if volume_total(points) == 0 {
        assert(points.take(points.len() as int) =~= points);
    } else {
        let rest = points.drop_last();
        lemma_last_flat_bounded(rest);
        assert(points.take(last_flat(rest) as int) =~= rest.take(last_flat(rest) as int));
    }
}

/// What the running weighted sum holds: the trades since the running total
/// volume last stood at zero.
pub proof fn lemma_settled(points: Seq<DataPoint>)
    ensures
        volume_total(points) == 0 ==> settled(points) == 0,
        volume_total(points) != 0 ==> settled(points) == notional_total(points) - notional_total(
            points.take(last_flat(points) as int),
        ),
    decreases points.len(),
{
    if points.len() > 0 && volume_total(points) != 0 {
        let rest = points.drop_last();
        lemma_settled(rest);
        lemma_last_flat_bounded(rest);
        let k = last_flat(rest) as int;
        assert(points.take(k) =~= rest.take(k));
        if volume_total(rest) == 0 {
            if rest.len() > 0 {
                assert(k == rest.len());
            }
            assert(rest.take(k) =~= rest);
        }
    }
}

/// Folding a history one observation at a time counts its observations.
pub proof fn lemma_run_counts(market: u64, points: Seq<DataPoint>)
    ensures
        run(market, points).total_data_points == points.len(),
{
    lemma_run_closed_form(market, points);
}

/// The number of buys in a history lies between zero and its length.
pub proof fn lemma_buy_total_bounded(points: Seq<DataPoint>)
    ensures
        0 <= buy_total(points) <= points.len(),
    decreases points.len(),
{
    if points.len() > 0 {
        lemma_buy_total_bounded(points.drop_last());
    }
}

/// The fraction of buys lies between zero and one after any history.
pub proof fn lemma_percent_buy_is_a_fraction(market: u64, points: Seq<DataPoint>)
    ensures
        0 as real <= run(market, points).percent_buy <= 1 as real,
{
    lemma_run_closed_form(market, points);
    lemma_buy_total_bounded(points);
    if points.len() > 0 {
        let b = buy_total(points) as real;
        let n = points.len() as real;
        assert(0 as real <= b / n <= 1 as real) by (nonlinear_arith)
            requires
                0 as real <= b <= n,
                n > 0 as real,
        ;
    }
}

/// Incremental and batch computation agree on the total volume, the mean
/// price, the mean volume, the fraction of buys and the count, for every
/// history.
pub proof fn lemma_means_match_batch(market: u64, points: Seq<DataPoint>)
    ensures
        run(market, points).market == batch(market, points).market,
        run(market, points).total_data_points == batch(market, points).total_data_points,
        run(market, points).total_volume == batch(market, points).total_volume,
        run(market, points).mean_price == batch(market, points).mean_price,
        run(market, points).mean_volume == batch(market, points).mean_volume,
        run(market, points).percent_buy == batch(market, points).percent_buy,
{
    lemma_run_closed_form(market, points);
}

/// Incremental and batch computation agree on the volume-weighted mean price
/// exactly when the total volume is zero or the trades up to the last moment
/// at which the running total volume stood at zero have a weighted sum of
/// zero.
pub proof fn lemma_weighted_mean_matches_batch(market: u64, points: Seq<DataPoint>)
    ensures
        run(market, points).volume_weighted_mean_price == batch(
            market,
            points,
        ).volume_weighted_mean_price <==> volume_total(points) == 0 || notional_total(
            points.take(last_flat(points) as int),
        ) == 0,
{
    lemma_run_closed_form(market, points);
    lemma_settled(points);
    if volume_total(points) != 0 {
        lemma_quotient_injective(settled(points), notional_total(points), volume_total(points));
    }
}

/// Where no volume is negative, a history with zero total volume has a
/// weighted sum of zero.
pub proof fn lemma_flat_history_weighs_nothing(points: Seq<DataPoint>)
    requires
        forall|i: int| 0 <= i < points.len() ==> #[trigger] points[i].volume >= 0,
    ensures
        volume_total(points) >= 0,
        volume_total(points) == 0 ==> notional_total(points) == 0,
    decreases points.len(),
{
    if points.len() > 0 {
        let rest = points.drop_last();
        assert(forall|i: int| 0 <= i < rest.len() ==> #[trigger] rest[i].volume == points[i].volume);
        lemma_flat_history_weighs_nothing(rest);
        let p = points.last();
        assert(p.volume >= 0);
        if volume_total(points) == 0 {
            assert(p.volume == 0);
            assert(p.price * p.volume == 0) by (nonlinear_arith)
                requires
                    p.volume == 0,
            ;
        }
    }
}

/// Incremental and batch computation agree on every statistic of a history
/// in which no volume is negative.
pub proof fn lemma_run_matches_batch(market: u64, points: Seq<DataPoint>)
    requires
        forall|i: int| 0 <= i < points.len() ==> #[trigger] points[i].volume >= 0,
    ensures
        run(market, points) == batch(market, points),
{
    lemma_means_match_batch(market, points);
    lemma_weighted_mean_matches_batch(market, points);
    lemma_last_flat_bounded(points);
    let prefix = points.take(last_flat(points) as int);
    assert(forall|i: int| 0 <= i < prefix.len() ==> #[trigger] prefix[i].volume == points[i].volume);
    lemma_flat_history_weighs_nothing(prefix);
}

/// The observations of `market` among `points`, in order.
pub open spec fn trades_of(points: Seq<DataPoint>, market: u64) -> Seq<DataPoint> {
    points.filter(|point: DataPoint| point.market == market)
}

/// Recording an observation changes nothing of any market but its own.
pub proof fn lemma_record_leaves_others(table: Map<u64, Summary>, point: DataPoint, other: u64)
    requires
        other != point.market,
    ensures
        record(table, point).contains_key(other) == table.contains_key(other),
        table.contains_key(other) ==> record(table, point)[other] == table[other],
{
}

/// What a table holds for a market is what folding that market's own
/// observations gives, whatever was recorded for other markets in between;
/// and it holds a market exactly when it has recorded an observation of it.
pub proof fn lemma_tally_per_market(points: Seq<DataPoint>, market: u64)
    ensures
        tally(points).contains_key(market) <==> trades_of(points, market).len() > 0,
        prior(tally(points), market) == run(market, trades_of(points, market)),
        tally(points).contains_key(market) ==> tally(points)[market].market == market,
    decreases points.len(),
{
    reveal(Seq::filter);
    if points.len() > 0 {
        let rest = points.drop_last();
        let p = points.last();
        lemma_tally_per_market(rest, market);
        if p.market == market {
            let mine = trades_of(points, market);
            assert(mine.drop_last() =~= trades_of(rest, market));
            assert(mine.last() == p);
        }
    }
}

/// After recording a history, the count held for a market is the number of
/// that market's observations in it.
pub proof fn lemma_tally_counts(points: Seq<DataPoint>, market: u64)
    ensures
        observations(tally(points), market) == trades_of(points, market).len(),
{
    lemma_tally_per_market(points, market);
    lemma_run_counts(market, trades_of(points, market));
}

} // verus!
