//! Why a setup failed, as the maker knows it, and what of that the taker is told.

use vstd::prelude::*;
use crate::amount::{BitcoinAmount, MoneroAmount};
use crate::network::{BlockchainNetwork, SpotPriceError};

verus! {

/// Why a setup failed, as the maker knows it.
///
/// The variants that carry a `String` hold the description of the underlying
/// failure; it never leaves the maker.
#[derive(Clone, Debug, PartialEq, Eq)]
pub enum Error {
    /// The maker only resumes swaps and accepts no new one.
    ResumeOnlyMode,
    AmountBelowMinimum { min: BitcoinAmount, buy: BitcoinAmount },
    AmountAboveMaximum { max: BitcoinAmount, buy: BitcoinAmount },
    /// The wallet's balance does not cover the quote and the lock fee.
    BalanceTooLow { balance: MoneroAmount, buy: BitcoinAmount },
    LatestRateFetchFailed(String),
    SellQuoteCalculationFailed(String),
    BlockchainNetworkMismatch { cli: BlockchainNetwork, asb: BlockchainNetwork },
    /// A read or write on the substream failed, or a message was rejected.
    Io(String),
    WalletSnapshotFailed(String),
    /// The setup did not complete within `seconds`.
    Timeout { seconds: u64 },
}

impl Error {
    /// What the taker is told of this error.
    pub open spec fn error_response(self) -> SpotPriceError {
        match self {
            Error::ResumeOnlyMode => SpotPriceError::NoSwapsAccepted,
            Error::AmountBelowMinimum { min, buy } => SpotPriceError::AmountBelowMinimum {
                min,
                buy,
            },
            Error::AmountAboveMaximum { max, buy } => SpotPriceError::AmountAboveMaximum {
                max,
                buy,
            },
            Error::BalanceTooLow { balance, buy } => SpotPriceError::BalanceTooLow { buy },
            Error::BlockchainNetworkMismatch { cli, asb } => {
                SpotPriceError::BlockchainNetworkMismatch { cli, asb }
            },
            Error::LatestRateFetchFailed(_) => SpotPriceError::Other,
            Error::SellQuoteCalculationFailed(_) => SpotPriceError::Other,
            Error::WalletSnapshotFailed(_) => SpotPriceError::Other,
            Error::Timeout { seconds } => SpotPriceError::Other,
            Error::Io(_) => SpotPriceError::Other,
        }
    }

    /// Whether the error arose inside the maker (rate source, quote, wallet,
    /// transport, clock) rather than from what the taker asked for.
    pub open spec fn is_internal(self) -> bool {
        self is LatestRateFetchFailed || self is SellQuoteCalculationFailed
            || self is WalletSnapshotFailed || self is Timeout || self is Io
    }

    /// Whether two errors agree on everything but the maker's private context:
    /// the wallet balance, the description of an underlying failure, the
    /// timeout's length.
    pub open spec fn same_but_private_context(self, other: Error) -> bool {
        match (self, other) {
            (Error::ResumeOnlyMode, Error::ResumeOnlyMode) => true,
            (
                Error::AmountBelowMinimum { min: m1, buy: b1 },
                Error::AmountBelowMinimum { min: m2, buy: b2 },
            ) => m1 == m2 && b1 == b2,
            (
                Error::AmountAboveMaximum { max: m1, buy: b1 },
                Error::AmountAboveMaximum { max: m2, buy: b2 },
            ) => m1 == m2 && b1 == b2,
            (
                Error::BalanceTooLow { balance: _, buy: b1 },
                Error::BalanceTooLow { balance: _, buy: b2 },
            ) => b1 == b2,
            (
                Error::BlockchainNetworkMismatch { cli: c1, asb: a1 },
                Error::BlockchainNetworkMismatch { cli: c2, asb: a2 },
            ) => c1 == c2 && a1 == a2,
            (Error::LatestRateFetchFailed(_), Error::LatestRateFetchFailed(_)) => true,
            (Error::SellQuoteCalculationFailed(_), Error::SellQuoteCalculationFailed(_)) => true,
            (Error::WalletSnapshotFailed(_), Error::WalletSnapshotFailed(_)) => true,
            (Error::Timeout { seconds: _ }, Error::Timeout { seconds: _ }) => true,
            (Error::Io(_), Error::Io(_)) => true,
            _ => false,
        }
    }

    /// What the taker is told of this error: refusals of the order keep their
    /// amounts and networks, a low balance is reported without the balance, and
    /// every internal failure becomes `Other`.
    pub fn to_error_response(&self) -> (response: SpotPriceError)
        ensures
            response == self.error_response(),
    {
        match self {
            Error::ResumeOnlyMode => SpotPriceError::NoSwapsAccepted,
            Error::AmountBelowMinimum { min, buy } => SpotPriceError::AmountBelowMinimum {
                min: *min,
                buy: *buy,
            },
            Error::AmountAboveMaximum { max, buy } => SpotPriceError::AmountAboveMaximum {
                max: *max,
                buy: *buy,
            },
            Error::BalanceTooLow { balance: _, buy } => SpotPriceError::BalanceTooLow { buy: *buy },
            Error::BlockchainNetworkMismatch { cli, asb } => {
                SpotPriceError::BlockchainNetworkMismatch { cli: *cli, asb: *asb }
            },
            Error::LatestRateFetchFailed(_) => SpotPriceError::Other,
            Error::SellQuoteCalculationFailed(_) => SpotPriceError::Other,
            Error::WalletSnapshotFailed(_) => SpotPriceError::Other,
            Error::Timeout { seconds: _ } => SpotPriceError::Other,
            Error::Io(_) => SpotPriceError::Other,
        }
    }
}

/// An internal failure is reported to the taker as `Other`, whatever it was.
pub proof fn lemma_internal_errors_are_opaque(error: Error)
    requires
        error.is_internal(),
    ensures
        error.error_response() == SpotPriceError::Other,
{
}

/// Two errors that differ only in the maker's private context (balance,
/// underlying failure, timeout length) look the same to the taker.
pub proof fn lemma_private_context_stays_private(a: Error, b: Error)
    requires
        a.same_but_private_context(b),
    ensures
        a.error_response() == b.error_response(),
{
}

/// Only an internal failure is reported as `Other`: a refusal of the order
/// always tells the taker which rule it broke.
pub proof fn lemma_refusals_are_told(error: Error)
    ensures
        error.error_response() == SpotPriceError::Other <==> error.is_internal(),
{
}

} // verus!
