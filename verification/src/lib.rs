//! A quorum-based multi-party authorization engine.
//!
//! A group of identified parties (board members and proposers) authorizes
//! sensitive operations by proposing discrete actions, collecting signatures
//! from board members, and performing an action only once the number of
//! signatures reaches a configurable quorum. Actions can change the
//! authorization rules themselves (membership, quorum); every mutation is
//! validated so that the quorum never exceeds the number of sign-capable
//! parties, and failed operations leave the state untouched.
//!
//! External effects (fund transfers, contract calls, staking operations) are
//! not performed here: performing an action returns a list of effect
//! descriptions for the surrounding environment to carry out.

pub mod action;
pub mod state;
pub mod propose;
pub mod perform;
pub mod laws;
