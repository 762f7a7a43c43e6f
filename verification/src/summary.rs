use vstd::prelude::*;

use crate::point::DataPoint;
use crate::ratio::quotient;

verus! {

/// The statistics of one market as mathematical values: what a
/// `MarketStats` record stands for.
pub struct Summary {
    /// The market the statistics belong to.
    pub market: u64,
    /// Sum of all volumes seen.
    pub total_volume: int,
    /// Arithmetic mean of all prices seen.
    pub mean_price: real,
    /// Arithmetic mean of all volumes seen.
    pub mean_volume: real,
    /// Sum of price times volume over the sum of volumes.
    pub volume_weighted_mean_price: real,
    /// Fraction of the observations that were buys.
    pub percent_buy: real,
    /// Number of observations folded in.
    pub total_data_points: nat,
}

impl Summary {
    /// The statistics of a market of which nothing has been seen yet.
    pub open spec fn zero(market: u64) -> Summary {
        Summary {
            market,
            total_volume: 0,
            mean_price: 0 as real,
            mean_volume: 0 as real,
            volume_weighted_mean_price: 0 as real,
            percent_buy: 0 as real,
            total_data_points: 0,
        }
    }

    /// The statistics after one more observation, computed from the previous
    /// statistics and the observation alone.
    pub open spec fn absorb(self, point: DataPoint) -> Summary {
        let n = self.total_data_points as real;
        let next_n = (self.total_data_points + 1) as real;
        let next_volume = self.total_volume + point.volume;
        Summary {
            market: point.market,
            total_volume: next_volume,
            mean_price: (self.mean_price * n + point.price as real) / next_n,
            mean_volume: (self.mean_volume * n + point.volume as real) / next_n,
            volume_weighted_mean_price: if next_volume == 0 {
                0 as real
            } else {
                (self.volume_weighted_mean_price * (self.total_volume as real)
                    + point.notional() as real) / (next_volume as real)
            },
            percent_buy: (self.percent_buy * n + point.buy_indicator() as real) / next_n,
            total_data_points: self.total_data_points + 1,
        }
    }
}

/// The statistics obtained by folding `points` one at a time, in order, into
/// the empty statistics of `market`.
pub open spec fn run(market: u64, points: Seq<DataPoint>) -> Summary
    decreases points.len(),
{
    if points.len() == 0 {
        Summary::zero(market)
    } else {
        run(market, points.drop_last()).absorb(points.last())
    }
}

/// Sum of the prices of `points`.
pub open spec fn price_total(points: Seq<DataPoint>) -> int
    decreases points.len(),
{
    if points.len() == 0 {
        0
    } else {
        price_total(points.drop_last()) + points.last().price
    }
}

/// Sum of the volumes of `points`.
pub open spec fn volume_total(points: Seq<DataPoint>) -> int
    decreases points.len(),
{
    if points.len() == 0 {
        0
    } else {
        volume_total(points.drop_last()) + points.last().volume
    }
}

/// Sum of price times volume over `points`.
pub open spec fn notional_total(points: Seq<DataPoint>) -> int
    decreases points.len(),
{
    if points.len() == 0 {
        0
    } else {
        notional_total(points.drop_last()) + points.last().notional()
    }
}

/// Number of buys among `points`.
pub open spec fn buy_total(points: Seq<DataPoint>) -> int
    decreases points.len(),
{
    if points.len() == 0 {
        0
    } else {
        buy_total(points.drop_last()) + points.last().buy_indicator()
    }
}

/// The statistics of `points` computed from the whole history at once.
/// `market` names the market when there is no observation to take it from.
pub open spec fn batch(market: u64, points: Seq<DataPoint>) -> Summary {
    let n = points.len() as int;
    Summary {
        market: if points.len() == 0 {
            market
        } else {
            points.last().market
        },
        total_volume: volume_total(points),
        mean_price: quotient(price_total(points), n),
        mean_volume: quotient(volume_total(points), n),
        volume_weighted_mean_price: quotient(notional_total(points), volume_total(points)),
        percent_buy: quotient(buy_total(points), n),
        total_data_points: points.len(),
    }
}

/// Length of the longest prefix of `points` whose volumes sum to zero.
pub open spec fn last_flat(points: Seq<DataPoint>) -> nat
    decreases points.len(),
{
    if points.len() == 0 {
        0
    } else if volume_total(points) == 0 {
        points.len()
    } else {
        last_flat(points.drop_last())
    }
}

} // verus!
