//! A single-slot ascending auction with on-chain escrow.
//!
//! The library is the auction/escrow state machine: how a new bid supersedes
//! the previous leader, how escrowed funds move when a bid is accepted, and
//! how settlement empties the escrow. Fund transfers themselves are performed
//! by the host execution environment; each state-changing operation returns
//! the one outbound transfer the host must carry out.

pub mod auction;
pub mod state;
