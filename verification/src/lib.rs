//! Online descriptive statistics for a stream of trades, kept per market.
//!
//! Every observation is folded into a constant-size record for its market;
//! no observation is retained. Prices and volumes are exact integers (ticks
//! and lots), so the running means are exact rationals and the update rules
//! are proved equal to a computation over the whole history.

pub mod aggregator;
pub mod laws;
pub mod line;
pub mod point;
pub mod ratio;
pub mod session;
pub mod stats;
pub mod summary;
