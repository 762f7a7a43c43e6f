use std::collections::HashMap;
use vstd::prelude::*;
use vstd::std_specs::hash::spec_hash_map_iter;
use vstd::std_specs::iter::IteratorSpec;

use crate::point::DataPoint;
use crate::stats::MarketStats;
use crate::summary::Summary;

verus! {

/// The statistics a table holds for `market` before its next observation:
/// the recorded ones, or the empty statistics of a market not seen yet.
pub open spec fn prior(table: Map<u64, Summary>, market: u64) -> Summary {
    if table.contains_key(market) {
        table[market]
    } else {
        Summary::zero(market)
    }
}

/// The table after one more observation: the observation's market gets its
/// next statistics, and nothing else changes.
pub open spec fn record(table: Map<u64, Summary>, point: DataPoint) -> Map<u64, Summary> {
    table.insert(point.market, prior(table, point.market).absorb(point))
}

/// The table obtained by recording `points` one at a time, in order, starting
/// from the empty table.
pub open spec fn tally(points: Seq<DataPoint>) -> Map<u64, Summary>
    decreases points.len(),
{
    if points.len() == 0 {
        Map::empty()
    } else {
        record(tally(points.drop_last()), points.last())
    }
}

/// Number of observations a table holds for `market`.
pub open spec fn observations(table: Map<u64, Summary>, market: u64) -> nat {
    prior(table, market).total_data_points
}

/// The running statistics of every market seen so far.
pub struct Aggregator {
    markets: HashMap<u64, MarketStats>,
}

impl View for Aggregator {
    type V = Map<u64, Summary>;

    closed spec fn view(&self) -> Map<u64, Summary> {
        self.markets@.map_values(|stats: MarketStats| stats@)
    }
}

impl Aggregator {
    #[verifier::type_invariant]
    spec fn well_formed(self) -> bool {
        forall|market: u64| #[trigger]
            self.markets@.contains_key(market) ==> self.markets@[market]@.market == market
    }

    /// A table with no market in it.
    pub fn new() -> (r: Aggregator)
        ensures
            r@ == Map::<u64, Summary>::empty(),
    {
        let r = Aggregator { markets: HashMap::new() };
        assert(r@ =~= Map::<u64, Summary>::empty());
        r
    }

    /// The table that results from recording `points` in order, starting
    /// from an empty table.
    pub fn from_points(points: &[DataPoint]) -> (r: Aggregator)
        ensures
            r@ == tally(points@),
    {
        let mut table = Aggregator::new();
        let mut i: usize = 0;
        while i < points.len()
            invariant
                i <= points.len(),
                table@ == tally(points@.take(i as int)),
                forall|market: u64| #[trigger] observations(table@, market) <= i,
            decreases points.len() - i,
        {
            let ghost before = table@;
            table.update(&points[i]);
            proof {
                assert(points@.take(i + 1).drop_last() =~= points@.take(i as int));
                assert forall|market: u64| #[trigger] observations(table@, market) <= i + 1 by {
                    assert(observations(before, market) <= i);
                }
            }
            i += 1;
        }
        proof {
            assert(points@.take(points.len() as int) =~= points@);
        }
        table
    }

    /// Folds one observation into the statistics of its market, which start
    /// from zero if the market has not been seen before. No other market's
    /// statistics change.
    pub fn update(&mut self, point: &DataPoint)
        requires
            observations(old(self)@, point.market) < u64::MAX,
        ensures
            final(self)@ == record(old(self)@, *point),
    {
        proof {
            use_type_invariant(&*self);
        }
        let previous = match self.markets.get(&point.market) {
            Some(stats) => *stats,
            None => MarketStats::empty(point.market),
        };
        assert(previous@ == prior(self@, point.market));
        let next = previous.update(point);
        // The table is changed outside the record, which holds an empty one
        // meanwhile, so that the record is well formed at every moment.
        let mut table: HashMap<u64, MarketStats> = HashMap::new();
        core::mem::swap(&mut self.markets, &mut table);
        table.insert(point.market, next);
        core::mem::swap(&mut self.markets, &mut table);
        assert(self@ =~= record(old(self)@, *point));
    }

    /// The statistics recorded for `market`, if it has been seen.
    pub fn get(&self, market: u64) -> (r: Option<MarketStats>)
        ensures
            r is Some <==> self@.contains_key(market),
            r matches Some(stats) ==> stats@ == self@[market],
    {
        match self.markets.get(&market) {
            Some(stats) => Some(*stats),
            None => None,
        }
    }

    /// Number of markets seen.
    pub fn len(&self) -> (r: usize)
        ensures
            r == self@.dom().len(),
    {
        assert(self@.dom() =~= self.markets@.dom());
        self.markets.len()
    }

    /// The current record of every market seen, one per market, in no
    /// particular order.
    pub fn finalize(&self) -> (r: Vec<MarketStats>)
        ensures
            r@.len() == self@.dom().len(),
            forall|i: int|
                0 <= i < r@.len() ==> self@.contains_key(#[trigger] r@[i]@.market) && r@[i]@
                    == self@[r@[i]@.market],
            forall|i: int, j: int|
                0 <= i < j < r@.len() ==> (#[trigger] r@[i]@.market) != (#[trigger] r@[j]@.market),
            forall|market: u64| #[trigger]
                self@.contains_key(market) ==> exists|i: int|
                    0 <= i < r@.len() && (#[trigger] r@[i]@.market) == market,
    {
        proof {
            use_type_invariant(self);
        }
        assert(self@.dom() =~= self.markets@.dom());
        let ghost entries = spec_hash_map_iter(&self.markets).remaining();
        let mut out: Vec<MarketStats> = Vec::new();
        for entry in it: self.markets.iter()
            invariant
                it.seq() == entries,
                entries.no_duplicates(),
                out@.len() == it.index(),
                forall|j: int| 0 <= j < out@.len() ==> #[trigger] out@[j] == *entries[j].1,
        {
            out.push(*entry.1);
        }
        proof {
            assert forall|i: int| 0 <= i < out@.len() implies self@.contains_key(
                #[trigger] out@[i]@.market,
            ) && out@[i]@ == self@[out@[i]@.market] && out@[i]@.market == *entries[i].0 by {
                assert(self.markets@.contains_key(*entries[i].0));
            }
            assert forall|i: int, j: int| 0 <= i < j < out@.len() implies (#[trigger] out@[i]@.market)
                != (#[trigger] out@[j]@.market) by {
                if out@[i]@.market == out@[j]@.market {
                    assert(self.markets@.contains_key(*entries[i].0));
                    assert(self.markets@.contains_key(*entries[j].0));
                    assert(entries[i] == entries[j]);
                }
            }
            assert forall|market: u64| #[trigger] self@.contains_key(market) implies exists|i: int|
                0 <= i < out@.len() && (#[trigger] out@[i]@.market) == market by {
                assert(self.markets@.contains_key(market));
                let pair = (&market, &self.markets@[market]);
                assert(entries.contains(pair));
                let i = choose|i: int| 0 <= i < entries.len() && entries[i] == pair;
                assert(out@[i]@.market == market);
            }
        }
        out
    }

    /// Whether no market has been seen.
    pub fn is_empty(&self) -> (r: bool)
        ensures
            r == (self@ == Map::<u64, Summary>::empty()),
    {
        assert(self@.dom() =~= self.markets@.dom());
        assert(self.markets@.dom().len() == 0 <==> self@ =~= Map::<u64, Summary>::empty());
        self.markets.len() == 0
    }
}

} // verus!
