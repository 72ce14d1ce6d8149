//! The chains a party runs on, and the spot-price messages of the wire protocol.

use vstd::prelude::*;
use crate::amount::{BitcoinAmount, MoneroAmount};

verus! {

/// The Bitcoin network a party runs on.
#[derive(Clone, Copy, Debug, PartialEq, Eq, Structural)]
pub enum BitcoinNetwork {
    Mainnet,
    Testnet,
    Signet,
    Regtest,
}

/// The Monero network a party runs on.
#[derive(Clone, Copy, Debug, PartialEq, Eq, Structural)]
pub enum MoneroNetwork {
    Mainnet,
    Stagenet,
    Testnet,
}

/// The pair of networks of one party. Two are equal only if both fields are.
#[derive(Clone, Copy, Debug, PartialEq, Eq, Structural)]
pub struct BlockchainNetwork {
    pub bitcoin: BitcoinNetwork,
    pub monero: MoneroNetwork,
}

/// The taker's opening message: how much BTC it wants to spend, and on which networks.
#[derive(Clone, Copy, Debug, PartialEq, Eq, Structural)]
pub struct SpotPriceRequest {
    pub btc: BitcoinAmount,
    pub blockchain_network: BlockchainNetwork,
}

/// Why the maker turned a request down, as the taker is told.
#[derive(Clone, Copy, Debug, PartialEq, Eq, Structural)]
pub enum SpotPriceError {
    NoSwapsAccepted,
    AmountBelowMinimum { min: BitcoinAmount, buy: BitcoinAmount },
    AmountAboveMaximum { max: BitcoinAmount, buy: BitcoinAmount },
    BalanceTooLow { buy: BitcoinAmount },
    BlockchainNetworkMismatch { cli: BlockchainNetwork, asb: BlockchainNetwork },
    /// Anything the maker keeps to itself.
    Other,
}

/// The maker's answer to a spot-price request.
#[derive(Clone, Copy, Debug, PartialEq, Eq, Structural)]
pub enum SpotPriceResponse {
    Xmr(MoneroAmount),
    Error(SpotPriceError),
}

} // verus!
