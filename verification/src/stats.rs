use vstd::prelude::*;

use crate::point::DataPoint;
use crate::ratio::{lemma_mean_step, lemma_weighted_step, quotient, Ratio};
use crate::summary::Summary;

verus! {

/// Largest magnitude of a price or a volume.
spec fn term_bound() -> int {
    0x8000_0000
}

/// Largest magnitude of one price times one volume.
spec fn notional_bound() -> int {
    0x4000_0000_0000_0000
}

/// The running statistics of one market.
///
/// A record is a value: an update leaves it as it is and returns the next
/// record. It holds the exact sums from which the means are quotients.
#[derive(Clone, Copy, Debug, PartialEq, Eq)]
pub struct MarketStats {
    market: u64,
    count: u64,
    buys: u64,
    volume: i128,
    prices: i128,
    weighted: i128,
}

impl View for MarketStats {
    type V = Summary;

    closed spec fn view(&self) -> Summary {
        Summary {
            market: self.market,
            total_volume: self.volume as int,
            mean_price: quotient(self.prices as int, self.count as int),
            mean_volume: quotient(self.volume as int, self.count as int),
            volume_weighted_mean_price: quotient(self.weighted as int, self.volume as int),
            percent_buy: quotient(self.buys as int, self.count as int),
            total_data_points: self.count as nat,
        }
    }
}

impl MarketStats {
    #[verifier::type_invariant]
    spec fn well_formed(self) -> bool {
        &&& self.buys <= self.count
        &&& -self.count * term_bound() <= self.prices <= self.count * term_bound()
        &&& -self.count * term_bound() <= self.volume <= self.count * term_bound()
        &&& -self.count * notional_bound() <= self.weighted <= self.count * notional_bound()
        &&& self.volume == 0 ==> self.weighted == 0
    }

    /// The record of a market of which nothing has been seen yet.
    pub fn empty(market: u64) -> (r: MarketStats)
        ensures
            r@ == Summary::zero(market),
    {
        MarketStats { market, count: 0, buys: 0, volume: 0, prices: 0, weighted: 0 }
    }

    /// The record after one more observation. The record takes the
    /// observation's market.
    pub fn update(self, point: &DataPoint) -> (r: MarketStats)
        requires
            self@.total_data_points < u64::MAX,
        ensures
            r@ == self@.absorb(*point),
    {
        proof {
            use_type_invariant(&self);
        }
        let price: i128 = point.price as i128;
        let volume: i128 = point.volume as i128;
        let bought: u64 = if point.is_buy {
            1
        } else {
            0
        };
        proof {
            let n = self.count as int;
            assert(-notional_bound() <= price * volume <= notional_bound()) by (nonlinear_arith)
                requires
                    -0x8000_0000 <= price <= 0x8000_0000,
                    -0x8000_0000 <= volume <= 0x8000_0000,
            ;
            assert((n + 1) * term_bound() == n * term_bound() + term_bound()) by (nonlinear_arith);
            assert((n + 1) * notional_bound() == n * notional_bound() + notional_bound())
                by (nonlinear_arith);
            assert(n * term_bound() <= 0xffff_ffff_ffff_ffff * term_bound()) by (nonlinear_arith)
                requires
                    0 <= n <= 0xffff_ffff_ffff_ffff,
            ;
            assert(n * notional_bound() <= 0xffff_ffff_ffff_ffff * notional_bound())
                by (nonlinear_arith)
                requires
                    0 <= n <= 0xffff_ffff_ffff_ffff,
            ;
        }
        let notional: i128 = price * volume;
        let next_volume: i128 = self.volume + volume;
        let carried: i128 = self.weighted + notional;
        let r = MarketStats {
            market: point.market,
            count: self.count + 1,
            buys: self.buys + bought,
            volume: next_volume,
            prices: self.prices + price,
            weighted: if next_volume == 0 {
                0
            } else {
                carried
            },
        };
        proof {
            let n = self.count as nat;
            lemma_mean_step(self.prices as int, n, point.price as int);
            lemma_mean_step(self.volume as int, n, point.volume as int);
            lemma_mean_step(self.buys as int, n, point.buy_indicator());
            if next_volume != 0 {
                lemma_weighted_step(
                    self.weighted as int,
                    self.volume as int,
                    point.notional(),
                    next_volume as int,
                );
            }
        }
        r
    }

    /// The market the record belongs to.
    pub fn market(&self) -> (r: u64)
        ensures
            r == self@.market,
    {
        self.market
    }

    /// Number of observations folded in.
    pub fn total_data_points(&self) -> (r: u64)
        ensures
            r == self@.total_data_points,
    {
        self.count
    }

    /// Sum of all volumes seen.
    pub fn total_volume(&self) -> (r: i128)
        ensures
            r == self@.total_volume,
    {
        self.volume
    }

    /// Arithmetic mean of all prices seen, over the number of observations;
    /// `0 / 1` before the first.
    pub fn mean_price(&self) -> (r: Ratio)
        ensures
            r.value() == self@.mean_price,
            r.denominator == if self@.total_data_points == 0 {
                1
            } else {
                self@.total_data_points as int
            },
    {
        Ratio::new(self.prices, self.count as i128)
    }

    /// Arithmetic mean of all volumes seen, over the number of observations;
    /// `0 / 1` before the first.
    pub fn mean_volume(&self) -> (r: Ratio)
        ensures
            r.value() == self@.mean_volume,
            r.denominator == if self@.total_data_points == 0 {
                1
            } else {
                self@.total_data_points as int
            },
    {
        Ratio::new(self.volume, self.count as i128)
    }

    /// Volume-weighted mean price, over the total volume; `0 / 1` while the
    /// total volume is zero.
    pub fn volume_weighted_mean_price(&self) -> (r: Ratio)
        ensures
            r.value() == self@.volume_weighted_mean_price,
            r.denominator == if self@.total_volume == 0 {
                1
            } else {
                self@.total_volume
            },
    {
        Ratio::new(self.weighted, self.volume)
    }

    /// Fraction of the observations that were buys, over the number of
    /// observations; `0 / 1` before the first. It lies between zero and one.
    pub fn percent_buy(&self) -> (r: Ratio)
        ensures
            r.value() == self@.percent_buy,
            r.denominator == if self@.total_data_points == 0 {
                1
            } else {
                self@.total_data_points as int
            },
            0 <= r.numerator <= r.denominator,
    {
        proof {
            use_type_invariant(self);
        }
        Ratio::new(self.buys as i128, self.count as i128)
    }
}

} // verus!
