use vstd::prelude::*;

verus! {

/// One observed trade.
///
/// `price` is a whole number of ticks and `volume` a whole number of lots;
/// either may be zero or negative.
#[derive(Clone, Copy, Debug, PartialEq, Eq)]
pub struct DataPoint {
    /// Identifier of the observation; the statistics do not depend on it.
    pub id: u64,
    /// The market whose statistics this observation updates.
    pub market: u64,
    pub price: i32,
    pub volume: i32,
    /// Whether the trade was a buy.
    pub is_buy: bool,
}

impl DataPoint {
    /// Price times volume.
    pub open spec fn notional(self) -> int {
        self.price * self.volume
    }

    /// One for a buy, zero otherwise.
    pub open spec fn buy_indicator(self) -> int {
        if self.is_buy {
            1
        } else {
            0
        }
    }
}

} // verus!
