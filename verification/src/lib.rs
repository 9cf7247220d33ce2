//! Governance voting rounds for proposals.
//!
//! The library keeps, for each proposal id, a voting window of logical
//! heights, a ledger of one vote per (proposal, voter) pair, and a running
//! tally. Three operations drive it: `start_voting` opens (or re-opens) a
//! window and zeroes the tally, `cast_vote` records one vote inside the
//! window, and `end_voting` reads the tally once the window has elapsed and
//! reports a majority outcome. The logical clock is supplied by the caller
//! with every operation; the library never advances it.

pub mod choice;
pub mod laws;
pub mod ledger;
pub mod model;
pub mod pallet;
pub mod store;
pub mod tally;
pub mod window;

pub use choice::{VoteChoice, VoteResult};
pub use pallet::{Error, Event, Pallet};
pub use tally::VoteTally;
pub use window::VotingPeriod;
