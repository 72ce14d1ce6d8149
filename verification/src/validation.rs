//! The maker's rules for accepting an order.
//!
//! An order is checked against seven rules in a fixed order, and the first rule
//! that it breaks decides the error. Later rules are not looked at.

use vstd::prelude::*;
use crate::amount::{BitcoinAmount, MoneroAmount};
use crate::error::Error;
use crate::network::{BitcoinNetwork, BlockchainNetwork, MoneroNetwork, SpotPriceRequest};

verus! {

/// The part of the maker's environment that the setup reads.
#[derive(Clone, Copy, Debug, PartialEq, Eq, Structural)]
pub struct EnvConfig {
    pub bitcoin_network: BitcoinNetwork,
    pub monero_network: MoneroNetwork,
}

impl EnvConfig {
    /// The networks the maker runs on.
    pub open spec fn network(self) -> BlockchainNetwork {
        BlockchainNetwork { bitcoin: self.bitcoin_network, monero: self.monero_network }
    }

    /// The networks the maker runs on.
    pub fn blockchain_network(&self) -> (network: BlockchainNetwork)
        ensures
            network == self.network(),
    {
        BlockchainNetwork { bitcoin: self.bitcoin_network, monero: self.monero_network }
    }
}

/// What the maker is configured to accept.
#[derive(Clone, Copy, Debug, PartialEq, Eq, Structural)]
pub struct SetupConfig {
    pub min_buy: BitcoinAmount,
    pub max_buy: BitcoinAmount,
    pub env_config: EnvConfig,
    pub resume_only: bool,
}

/// The state of the maker's wallets, taken once when a setup starts and not
/// changed for the rest of it. Addresses are held in their textual form.
#[derive(Clone, Debug, PartialEq, Eq)]
pub struct WalletSnapshot {
    pub balance: MoneroAmount,
    pub lock_fee: MoneroAmount,
    pub redeem_address: String,
    pub punish_address: String,
    pub redeem_fee: BitcoinAmount,
    pub punish_fee: BitcoinAmount,
}

impl WalletSnapshot {
    /// A snapshot with the given balance, fees and addresses.
    pub fn new(
        balance: MoneroAmount,
        lock_fee: MoneroAmount,
        redeem_address: String,
        punish_address: String,
        redeem_fee: BitcoinAmount,
        punish_fee: BitcoinAmount,
    ) -> (snapshot: Self)
        ensures
            snapshot == (WalletSnapshot {
                balance,
                lock_fee,
                redeem_address,
                punish_address,
                redeem_fee,
                punish_fee,
            }),
    {
        WalletSnapshot { balance, lock_fee, redeem_address, punish_address, redeem_fee, punish_fee }
    }

    /// Whether the balance pays for `xmr` and the lock fee on top of it.
    pub open spec fn covers(self, xmr: MoneroAmount) -> bool {
        self.balance.piconero >= xmr.piconero + self.lock_fee.piconero
    }
}

/// What came of asking the rate source for the price of an order: the latest
/// rate could not be had, the rate gave no quote for the amount, or the quote.
#[derive(Clone, Debug, PartialEq, Eq)]
pub enum RateQuote {
    FetchFailed(String),
    QuoteFailed(String),
    Quoted(MoneroAmount),
}

/// The rules an order is held to, in the order in which they are applied.
#[derive(Clone, Copy, Debug, PartialEq, Eq, Structural)]
pub enum Check {
    ResumeOnly,
    NetworkMatch,
    Minimum,
    Maximum,
    RateFetch,
    Quote,
    Balance,
}

impl Check {
    /// The place of a rule in the order of application, from 0.
    pub open spec fn position(self) -> nat {
        match self {
            Check::ResumeOnly => 0,
            Check::NetworkMatch => 1,
            Check::Minimum => 2,
            Check::Maximum => 3,
            Check::RateFetch => 4,
            Check::Quote => 5,
            Check::Balance => 6,
        }
    }

    /// Whether the order breaks this rule, taken by itself.
    pub open spec fn fails(
        self,
        config: SetupConfig,
        request: SpotPriceRequest,
        snapshot: WalletSnapshot,
        quote: RateQuote,
    ) -> bool {
        match self {
            Check::ResumeOnly => config.resume_only,
            Check::NetworkMatch => request.blockchain_network != config.env_config.network(),
            Check::Minimum => request.btc.sat < config.min_buy.sat,
            Check::Maximum => request.btc.sat > config.max_buy.sat,
            Check::RateFetch => quote is FetchFailed,
            Check::Quote => quote is QuoteFailed,
            Check::Balance => quote is Quoted && !snapshot.covers(quote->Quoted_0),
        }
    }

    /// The error with which an order that breaks this rule is turned down.
    pub open spec fn error(
        self,
        config: SetupConfig,
        request: SpotPriceRequest,
        snapshot: WalletSnapshot,
        quote: RateQuote,
    ) -> Error {
        match self {
            Check::ResumeOnly => Error::ResumeOnlyMode,
            Check::NetworkMatch => Error::BlockchainNetworkMismatch {
                cli: request.blockchain_network,
                asb: config.env_config.network(),
            },
            Check::Minimum => Error::AmountBelowMinimum { min: config.min_buy, buy: request.btc },
            Check::Maximum => Error::AmountAboveMaximum { max: config.max_buy, buy: request.btc },
            Check::RateFetch => Error::LatestRateFetchFailed(quote->FetchFailed_0),
            Check::Quote => Error::SellQuoteCalculationFailed(quote->QuoteFailed_0),
            Check::Balance => Error::BalanceTooLow { balance: snapshot.balance, buy: request.btc },
        }
    }
}

/// The first of the four rules on the request alone that the order breaks.
pub open spec fn request_failure(config: SetupConfig, request: SpotPriceRequest) -> Option<Check> {
    if config.resume_only {
        Some(Check::ResumeOnly)
    } else if request.blockchain_network != config.env_config.network() {
        Some(Check::NetworkMatch)
    } else if request.btc.sat < config.min_buy.sat {
        Some(Check::Minimum)
    } else if request.btc.sat > config.max_buy.sat {
        Some(Check::Maximum)
    } else {
        None
    }
}

/// The first of the three rules on the price that the order breaks.
pub open spec fn quote_failure(snapshot: WalletSnapshot, quote: RateQuote) -> Option<Check> {
    match quote {
        RateQuote::FetchFailed(_) => Some(Check::RateFetch),
        RateQuote::QuoteFailed(_) => Some(Check::Quote),
        RateQuote::Quoted(xmr) => if snapshot.covers(xmr) {
            None
        } else {
            Some(Check::Balance)
        },
    }
}

/// The first rule that the order breaks, if it breaks any.
pub open spec fn first_failure(
    config: SetupConfig,
    request: SpotPriceRequest,
    snapshot: WalletSnapshot,
    quote: RateQuote,
) -> Option<Check> {
    match request_failure(config, request) {
        Some(check) => Some(check),
        None => quote_failure(snapshot, quote),
    }
}

/// What the maker decides on an order: the amount of XMR it sells for the BTC
/// asked, or the error of the first rule that the order breaks.
pub open spec fn validation_result(
    config: SetupConfig,
    request: SpotPriceRequest,
    snapshot: WalletSnapshot,
    quote: RateQuote,
) -> Result<MoneroAmount, Error> {
    match first_failure(config, request, snapshot, quote) {
        Some(check) => Err(check.error(config, request, snapshot, quote)),
        None => Ok(quote->Quoted_0),
    }
}

/// What the rules on the request alone decide.
pub open spec fn request_result(config: SetupConfig, request: SpotPriceRequest) -> Result<
    (),
    Error,
> {
    if config.resume_only {
        Err(Error::ResumeOnlyMode)
    } else if request.blockchain_network != config.env_config.network() {
        Err(
            Error::BlockchainNetworkMismatch {
                cli: request.blockchain_network,
                asb: config.env_config.network(),
            },
        )
    } else if request.btc.sat < config.min_buy.sat {
        Err(Error::AmountBelowMinimum { min: config.min_buy, buy: request.btc })
    } else if request.btc.sat > config.max_buy.sat {
        Err(Error::AmountAboveMaximum { max: config.max_buy, buy: request.btc })
    } else {
        Ok(())
    }
}

/// What the rules on the price decide, for an order of `buy`.
pub open spec fn quote_result(buy: BitcoinAmount, snapshot: WalletSnapshot, quote: RateQuote) -> Result<
    MoneroAmount,
    Error,
> {
    match quote {
        RateQuote::FetchFailed(source) => Err(Error::LatestRateFetchFailed(source)),
        RateQuote::QuoteFailed(source) => Err(Error::SellQuoteCalculationFailed(source)),
        RateQuote::Quoted(xmr) => if snapshot.covers(xmr) {
            Ok(xmr)
        } else {
            Err(Error::BalanceTooLow { balance: snapshot.balance, buy })
        },
    }
}

/// Holds the request to the rules that need neither wallet nor rate: the maker
/// accepts new swaps, both sides are on the same networks, and the amount lies
/// within the configured bounds.
pub fn check_request(config: &SetupConfig, request: &SpotPriceRequest) -> (result: Result<
    (),
    Error,
>)
    ensures
        result == request_result(*config, *request),
        result is Ok <==> request_failure(*config, *request) is None,
{
    if config.resume_only {
        return Err(Error::ResumeOnlyMode);
    }
    let network = config.env_config.blockchain_network();
    if request.blockchain_network != network {
        return Err(
            Error::BlockchainNetworkMismatch { cli: request.blockchain_network, asb: network },
        );
    }
    if request.btc.sat < config.min_buy.sat {
        return Err(Error::AmountBelowMinimum { min: config.min_buy, buy: request.btc });
    }
    if request.btc.sat > config.max_buy.sat {
        return Err(Error::AmountAboveMaximum { max: config.max_buy, buy: request.btc });
    }
    Ok(())
}

/// Holds the price of an order of `buy` to the rules on it: the rate was
/// fetched, it gave a quote, and the wallet's balance pays for the quote and
/// the lock fee.
pub fn check_quote(buy: BitcoinAmount, snapshot: &WalletSnapshot, quote: RateQuote) -> (result:
    Result<MoneroAmount, Error>)
    ensures
        result == quote_result(buy, *snapshot, quote),
        result is Ok <==> quote_failure(*snapshot, quote) is None,
{
    match quote {
        RateQuote::FetchFailed(source) => Err(Error::LatestRateFetchFailed(source)),
        RateQuote::QuoteFailed(source) => Err(Error::SellQuoteCalculationFailed(source)),
        RateQuote::Quoted(xmr) => {
            let covered = match xmr.checked_add(snapshot.lock_fee) {
                Some(needed) => snapshot.balance.piconero >= needed.piconero,
                None => false,
            };
            if covered {
                Ok(xmr)
            } else {
                Err(Error::BalanceTooLow { balance: snapshot.balance, buy })
            }
        },
    }
}

/// Decides on an order: `Ok` with the amount of XMR to sell exactly when the
/// order breaks no rule, else the error of the first rule it breaks.
pub fn validate(
    config: &SetupConfig,
    request: &SpotPriceRequest,
    snapshot: &WalletSnapshot,
    quote: RateQuote,
) -> (result: Result<MoneroAmount, Error>)
    ensures
        result == validation_result(*config, *request, *snapshot, quote),
        result is Ok <==> first_failure(*config, *request, *snapshot, quote) is None,
{
    match check_request(config, request) {
        Err(error) => Err(error),
        Ok(()) => check_quote(request.btc, snapshot, quote),
    }
}

/// The two stages of the decision, taken one after the other, decide what the
/// rules decide as a whole.
pub proof fn lemma_validation_in_stages(
    config: SetupConfig,
    request: SpotPriceRequest,
    snapshot: WalletSnapshot,
    quote: RateQuote,
)
    ensures
        validation_result(config, request, snapshot, quote) == (match request_result(
            config,
            request,
        ) {
            Err(error) => Err(error),
            Ok(_) => quote_result(request.btc, snapshot, quote),
        }),
{
}

/// An order is accepted exactly when it breaks none of the rules, and is then
/// sold the quoted amount.
pub proof fn lemma_accepted_iff_no_rule_broken(
    config: SetupConfig,
    request: SpotPriceRequest,
    snapshot: WalletSnapshot,
    quote: RateQuote,
)
    ensures
        validation_result(config, request, snapshot, quote) is Ok <==> (forall|check: Check|
            !check.fails(config, request, snapshot, quote)),
        validation_result(config, request, snapshot, quote) is Ok ==> quote is Quoted
            && validation_result(config, request, snapshot, quote) == Ok::<MoneroAmount, Error>(
            quote->Quoted_0,
        ),
{
    if validation_result(config, request, snapshot, quote) is Ok {
        assert forall|check: Check| !check.fails(config, request, snapshot, quote) by {}
    } else {
        let broken = first_failure(config, request, snapshot, quote)->Some_0;
        assert(broken.fails(config, request, snapshot, quote));
    }
}

/// The first failure wins: an order that is turned down is turned down with the
/// error of a rule that it breaks, and it breaks no rule that is applied
/// before that one.
pub proof fn lemma_first_failure_wins(
    config: SetupConfig,
    request: SpotPriceRequest,
    snapshot: WalletSnapshot,
    quote: RateQuote,
    check: Check,
)
    ensures
        first_failure(config, request, snapshot, quote) == Some(check) <==> (check.fails(
            config,
            request,
            snapshot,
            quote,
        ) && forall|earlier: Check|
            earlier.position() < check.position() ==> !earlier.fails(
                config,
                request,
                snapshot,
                quote,
            )),
        first_failure(config, request, snapshot, quote) == Some(check) ==> validation_result(
            config,
            request,
            snapshot,
            quote,
        ) == Err::<MoneroAmount, Error>(check.error(config, request, snapshot, quote)),
{
    let found = first_failure(config, request, snapshot, quote);
    if found == Some(check) {
        assert forall|earlier: Check| earlier.position() < check.position() implies !earlier.fails(
            config,
            request,
            snapshot,
            quote,
        ) by {}
    } else if check.fails(config, request, snapshot, quote) {
        // Some rule applied before `check` is broken too: the one that was found.
        assert(found is Some);
        let winner = found->Some_0;
        assert(winner.fails(config, request, snapshot, quote));
        assert(winner.position() < check.position());
    }
}

} // verus!
