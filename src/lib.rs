//! Consensus checks on a candidate block: where its coinbase transaction stands,
//! its Equihash proof of work, how far its time may run ahead of a reference
//! clock, and whether its coinbase pays what the subsidy schedule asks for.
//!
//! Each check is a pure function of its arguments, specified over the plain
//! block model of [`block`].

pub mod block;
pub mod check;
pub mod error;
pub mod pow;
pub mod schedule;
