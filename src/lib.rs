//! A two-player dice wager: each player escrows a fixed stake with a private
//! secret, and once both have joined the combined secrets decide the winner.

pub mod outcome;
pub mod state;
pub mod contract;
