use vstd::prelude::*;

use crate::aggregator::{observations, record, Aggregator};
use crate::line::{classify, kind_of, LineKind};
use crate::point::DataPoint;
use crate::stats::MarketStats;
use crate::summary::Summary;

verus! {

/// Why a run was given up.
#[derive(Clone, Copy, Debug, PartialEq, Eq)]
pub enum Failure {
    /// A line was neither a marker nor the text of an observation.
    Decode,
    /// The input could not be read.
    Read,
}

/// How far a run has come.
#[derive(Clone, Copy, Debug, PartialEq, Eq)]
pub enum Phase {
    /// Lines are still being taken.
    Reading,
    /// The input ended, by its closing marker or by running out.
    Finished,
    /// The run was given up; it has no results.
    Failed(Failure),
}

/// What is to be done with a line that was offered to a run.
#[derive(Clone, Copy, Debug, PartialEq, Eq)]
pub enum Step {
    /// Nothing: go on to the next line.
    Skip,
    /// Decode it and hand the run the observation, or the failure.
    Decode,
    /// Nothing, and read no further: the run is over.
    Stop,
}

/// What a run in phase `phase` answers to `line`.
pub open spec fn step_for(phase: Phase, line: Seq<char>) -> Step {
    if phase != Phase::Reading {
        Step::Stop
    } else {
        match kind_of(line) {
            LineKind::Begin => Step::Skip,
            LineKind::End => Step::Stop,
            LineKind::Record => Step::Decode,
        }
    }
}

/// The phase of a run in phase `phase` after `line` was offered to it.
pub open spec fn phase_after_line(phase: Phase, line: Seq<char>) -> Phase {
    if phase == Phase::Reading && kind_of(line) == LineKind::End {
        Phase::Finished
    } else {
        phase
    }
}

/// One run over a stream of lines: the table of statistics together with the
/// phase the run is in.
///
/// The run decides; its caller reads the lines, decodes the observations and
/// writes the results.
pub struct Session {
    table: Aggregator,
    phase: Phase,
}

impl Session {
    /// The phase the run is in.
    pub closed spec fn phase(&self) -> Phase {
        self.phase
    }

    /// The statistics recorded so far.
    pub closed spec fn table(&self) -> Map<u64, Summary> {
        self.table@
    }

    /// A run that has read nothing yet.
    pub fn new() -> (r: Session)
        ensures
            r.phase() == Phase::Reading,
            r.table() == Map::<u64, Summary>::empty(),
    {
        Session { table: Aggregator::new(), phase: Phase::Reading }
    }

    /// The phase the run is in.
    pub fn current_phase(&self) -> (r: Phase)
        ensures
            r == self.phase(),
    {
        self.phase
    }

    /// Number of observations recorded for `market`.
    pub fn recorded(&self, market: u64) -> (r: u64)
        ensures
            r == observations(self.table(), market),
    {
        match self.table.get(market) {
            Some(stats) => stats.total_data_points(),
            None => 0,
        }
    }

    /// Offers the run the next line of input. The opening marker is passed
    /// over, the closing marker ends the run, and any other line is to be
    /// decoded. A run that is over takes no line.
    pub fn offer_line(&mut self, line: &str) -> (r: Step)
        ensures
            r == step_for(old(self).phase(), line@),
            final(self).phase() == phase_after_line(old(self).phase(), line@),
            final(self).table() == old(self).table(),
    {
        match self.phase {
            Phase::Reading => match classify(line) {
                LineKind::Begin => Step::Skip,
                LineKind::End => {
                    self.phase = Phase::Finished;
                    Step::Stop
                },
                LineKind::Record => Step::Decode,
            },
            _ => Step::Stop,
        }
    }

    /// Records a decoded observation. A run that is over records nothing.
    pub fn accept(&mut self, point: &DataPoint)
        requires
            old(self).phase() == Phase::Reading ==> observations(old(self).table(), point.market)
                < u64::MAX,
        ensures
            final(self).phase() == old(self).phase(),
            final(self).table() == if old(self).phase() == Phase::Reading {
                record(old(self).table(), *point)
            } else {
                old(self).table()
            },
    {
        match self.phase {
            Phase::Reading => {
                self.table.update(point);
            },
            _ => {},
        }
    }

    /// Ends the run because the input ran out. A run that is over stays as
    /// it is.
    pub fn end_of_input(&mut self)
        ensures
            final(self).phase() == if old(self).phase() == Phase::Reading {
                Phase::Finished
            } else {
                old(self).phase()
            },
            final(self).table() == old(self).table(),
    {
        match self.phase {
            Phase::Reading => {
                self.phase = Phase::Finished;
            },
            _ => {},
        }
    }

    /// Gives the run up. A run that is over stays as it is.
    pub fn fail(&mut self, failure: Failure)
        ensures
            final(self).phase() == if old(self).phase() == Phase::Reading {
                Phase::Failed(failure)
            } else {
                old(self).phase()
            },
            final(self).table() == old(self).table(),
    {
        match self.phase {
            Phase::Reading => {
                self.phase = Phase::Failed(failure);
            },
            _ => {},
        }
    }

    /// The results of a finished run: the current record of every market
    /// seen, one per market, in no particular order. A run that is still
    /// reading, or that was given up, has none.
    pub fn results(&self) -> (r: Option<Vec<MarketStats>>)
        ensures
            r is Some <==> self.phase() == Phase::Finished,
            r matches Some(records) ==> {
                &&& records@.len() == self.table().dom().len()
                &&& forall|i: int|
                    0 <= i < records@.len() ==> self.table().contains_key(
                        #[trigger] records@[i]@.market,
                    ) && records@[i]@ == self.table()[records@[i]@.market]
                &&& forall|i: int, j: int|
                    0 <= i < j < records@.len() ==> (#[trigger] records@[i]@.market) != (
                    #[trigger] records@[j]@.market)
                &&& forall|market: u64| #[trigger]
                    self.table().contains_key(market) ==> exists|i: int|
                        0 <= i < records@.len() && (#[trigger] records@[i]@.market) == market
            },
    {
        match self.phase {
            Phase::Finished => Some(self.table.finalize()),
            _ => None,
        }
    }
}

} // verus!
