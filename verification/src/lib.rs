//! Swap-setup core of a peer-to-peer atomic exchange between Bitcoin and Monero.
//!
//! The maker sells XMR and accepts setup requests; the taker buys with BTC and
//! initiates. This library holds the rules of that setup as verified functions
//! over plain values: the order validation, the error projection sent on the
//! wire, the maker's negotiation as a state machine from outcome to next action,
//! the per-connection handler and the behaviour that aggregates handlers, and
//! the routing decisions of the taker's event loop.

pub mod amount;
pub mod framing;
pub mod identity;
pub mod network;
pub mod error;
pub mod validation;
pub mod negotiation;
pub mod handler;
pub mod behaviour;
pub mod taker;
