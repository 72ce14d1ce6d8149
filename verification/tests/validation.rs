use swap_setup::amount::{BitcoinAmount, MoneroAmount};
use swap_setup::error::Error;
use swap_setup::network::{
    BitcoinNetwork, BlockchainNetwork, MoneroNetwork, SpotPriceError, SpotPriceRequest,
};
use swap_setup::validation::{
    check_quote, check_request, validate, EnvConfig, RateQuote, SetupConfig, WalletSnapshot,
};

const SAT_PER_BTC: u64 = 100_000_000;
const PICONERO_PER_XMR: u64 = 1_000_000_000_000;

fn testnet() -> BlockchainNetwork {
    BlockchainNetwork { bitcoin: BitcoinNetwork::Testnet, monero: MoneroNetwork::Stagenet }
}

fn config() -> SetupConfig {
    SetupConfig {
        min_buy: BitcoinAmount::from_sat(100_000),
        max_buy: BitcoinAmount::from_sat(SAT_PER_BTC),
        env_config: EnvConfig {
            bitcoin_network: BitcoinNetwork::Testnet,
            monero_network: MoneroNetwork::Stagenet,
        },
        resume_only: false,
    }
}

fn wallet(balance_xmr: u64) -> WalletSnapshot {
    WalletSnapshot::new(
        MoneroAmount::from_piconero(balance_xmr * PICONERO_PER_XMR),
        MoneroAmount::from_piconero(1_000_000_000),
        String::from("tb1qredeem"),
        String::from("tb1qpunish"),
        BitcoinAmount::from_sat(300),
        BitcoinAmount::from_sat(400),
    )
}

fn request(sat: u64) -> SpotPriceRequest {
    SpotPriceRequest { btc: BitcoinAmount::from_sat(sat), blockchain_network: testnet() }
}

/// What a rate of `xmr_per_btc` gives for `btc`.
fn quote_at(xmr_per_btc: u64, btc: BitcoinAmount) -> RateQuote {
    let piconero = (btc.as_sat() as u128) * (xmr_per_btc as u128) * (PICONERO_PER_XMR as u128)
        / (SAT_PER_BTC as u128);
    RateQuote::Quoted(MoneroAmount::from_piconero(piconero as u64))
}

#[test]
fn amounts_keep_their_base_units() {
    assert_eq!(BitcoinAmount::from_sat(50_000_000).as_sat(), 50_000_000);
    assert_eq!(MoneroAmount::from_piconero(7).as_piconero(), 7);
    assert_eq!(BitcoinAmount::from_sat(1), BitcoinAmount { sat: 1 });
    assert_ne!(MoneroAmount::from_piconero(1), MoneroAmount::from_piconero(2));
}

#[test]
fn checked_add_sums_or_fails() {
    let a = MoneroAmount::from_piconero(50 * PICONERO_PER_XMR);
    let fee = MoneroAmount::from_piconero(1_000_000_000);
    assert_eq!(a.checked_add(fee), Some(MoneroAmount::from_piconero(50_001_000_000_000)));
    assert_eq!(MoneroAmount::from_piconero(u64::MAX).checked_add(MoneroAmount::from_piconero(1)), None);
    assert_eq!(
        MoneroAmount::from_piconero(u64::MAX - 1).checked_add(MoneroAmount::from_piconero(1)),
        Some(MoneroAmount::from_piconero(u64::MAX))
    );
}

#[test]
fn env_config_gives_its_networks() {
    assert_eq!(config().env_config.blockchain_network(), testnet());
}

#[test]
fn order_within_all_rules_is_quoted() {
    let req = request(50_000_000);
    let result = validate(&config(), &req, &wallet(200), quote_at(100, req.btc));
    assert_eq!(result, Ok(MoneroAmount::from_piconero(50 * PICONERO_PER_XMR)));
}

#[test]
fn amount_below_minimum_is_refused() {
    let req = request(50_000);
    let result = validate(&config(), &req, &wallet(200), quote_at(100, req.btc));
    assert_eq!(
        result,
        Err(Error::AmountBelowMinimum {
            min: BitcoinAmount::from_sat(100_000),
            buy: BitcoinAmount::from_sat(50_000),
        })
    );
}

#[test]
fn amount_above_maximum_is_refused() {
    let req = request(SAT_PER_BTC + 1);
    let result = validate(&config(), &req, &wallet(200), quote_at(100, req.btc));
    assert_eq!(
        result,
        Err(Error::AmountAboveMaximum {
            max: BitcoinAmount::from_sat(SAT_PER_BTC),
            buy: BitcoinAmount::from_sat(SAT_PER_BTC + 1),
        })
    );
}

#[test]
fn bounds_are_inclusive() {
    let low = request(100_000);
    assert_eq!(check_request(&config(), &low), Ok(()));
    let high = request(SAT_PER_BTC);
    assert_eq!(check_request(&config(), &high), Ok(()));
    assert!(validate(&config(), &high, &wallet(200), quote_at(100, high.btc)).is_ok());
}

#[test]
fn network_mismatch_is_refused_on_either_chain() {
    let mut maker = config();
    maker.env_config =
        EnvConfig { bitcoin_network: BitcoinNetwork::Mainnet, monero_network: MoneroNetwork::Mainnet };
    let cli = BlockchainNetwork { bitcoin: BitcoinNetwork::Testnet, monero: MoneroNetwork::Mainnet };
    let asb = BlockchainNetwork { bitcoin: BitcoinNetwork::Mainnet, monero: MoneroNetwork::Mainnet };
    let req = SpotPriceRequest { btc: BitcoinAmount::from_sat(10_000_000), blockchain_network: cli };
    assert_eq!(check_request(&maker, &req), Err(Error::BlockchainNetworkMismatch { cli, asb }));

    let cli = BlockchainNetwork { bitcoin: BitcoinNetwork::Mainnet, monero: MoneroNetwork::Testnet };
    let req = SpotPriceRequest { btc: BitcoinAmount::from_sat(10_000_000), blockchain_network: cli };
    assert_eq!(check_request(&maker, &req), Err(Error::BlockchainNetworkMismatch { cli, asb }));
}

#[test]
fn resume_only_refuses_every_order() {
    let mut maker = config();
    maker.resume_only = true;
    let req = request(50_000_000);
    assert_eq!(check_request(&maker, &req), Err(Error::ResumeOnlyMode));
    assert_eq!(
        validate(&maker, &req, &wallet(200), quote_at(100, req.btc)),
        Err(Error::ResumeOnlyMode)
    );
}

#[test]
fn balance_must_cover_quote_and_lock_fee() {
    let buy = BitcoinAmount::from_sat(50_000_000);
    let xmr = MoneroAmount::from_piconero(50 * PICONERO_PER_XMR);
    let fee = MoneroAmount::from_piconero(1_000_000_000);
    let mut snapshot = wallet(0);

    snapshot.balance = MoneroAmount::from_piconero(50 * PICONERO_PER_XMR + 1_000_000_000);
    assert_eq!(snapshot.lock_fee, fee);
    assert_eq!(check_quote(buy, &snapshot, RateQuote::Quoted(xmr)), Ok(xmr));

    snapshot.balance = MoneroAmount::from_piconero(50 * PICONERO_PER_XMR + 999_999_999);
    assert_eq!(
        check_quote(buy, &snapshot, RateQuote::Quoted(xmr)),
        Err(Error::BalanceTooLow { balance: snapshot.balance, buy })
    );

    snapshot.balance = xmr;
    assert_eq!(
        check_quote(buy, &snapshot, RateQuote::Quoted(xmr)),
        Err(Error::BalanceTooLow { balance: xmr, buy })
    );
}

#[test]
fn balance_too_low_keeps_balance_inside() {
    let req = request(50_000_000);
    let result = validate(&config(), &req, &wallet(10), quote_at(100, req.btc));
    let error = result.unwrap_err();
    assert_eq!(
        error,
        Error::BalanceTooLow {
            balance: MoneroAmount::from_piconero(10 * PICONERO_PER_XMR),
            buy: BitcoinAmount::from_sat(50_000_000),
        }
    );
    assert_eq!(
        error.to_error_response(),
        SpotPriceError::BalanceTooLow { buy: BitcoinAmount::from_sat(50_000_000) }
    );
}

#[test]
fn a_need_beyond_the_range_is_a_low_balance() {
    let buy = BitcoinAmount::from_sat(50_000_000);
    let mut snapshot = wallet(0);
    snapshot.balance = MoneroAmount::from_piconero(u64::MAX);
    snapshot.lock_fee = MoneroAmount::from_piconero(1);
    let xmr = MoneroAmount::from_piconero(u64::MAX);
    assert_eq!(
        check_quote(buy, &snapshot, RateQuote::Quoted(xmr)),
        Err(Error::BalanceTooLow { balance: snapshot.balance, buy })
    );
}

#[test]
fn rate_failures_keep_their_source() {
    let buy = BitcoinAmount::from_sat(50_000_000);
    assert_eq!(
        check_quote(buy, &wallet(200), RateQuote::FetchFailed(String::from("feed is down"))),
        Err(Error::LatestRateFetchFailed(String::from("feed is down")))
    );
    assert_eq!(
        check_quote(buy, &wallet(200), RateQuote::QuoteFailed(String::from("overflow"))),
        Err(Error::SellQuoteCalculationFailed(String::from("overflow")))
    );
}

#[test]
fn first_failure_wins() {
    // Every rule on the request is broken, and the rate is missing.
    let mut maker = config();
    maker.resume_only = true;
    maker.env_config =
        EnvConfig { bitcoin_network: BitcoinNetwork::Mainnet, monero_network: MoneroNetwork::Mainnet };
    let req = request(50_000);
    let down = || RateQuote::FetchFailed(String::from("down"));
    assert_eq!(validate(&maker, &req, &wallet(0), down()), Err(Error::ResumeOnlyMode));

    maker.resume_only = false;
    assert_eq!(
        validate(&maker, &req, &wallet(0), down()),
        Err(Error::BlockchainNetworkMismatch {
            cli: testnet(),
            asb: BlockchainNetwork { bitcoin: BitcoinNetwork::Mainnet, monero: MoneroNetwork::Mainnet },
        })
    );

    maker.env_config = config().env_config;
    assert_eq!(
        validate(&maker, &req, &wallet(0), down()),
        Err(Error::AmountBelowMinimum { min: maker.min_buy, buy: req.btc })
    );

    // Below the minimum and above the maximum at once: the minimum is applied first.
    maker.min_buy = BitcoinAmount::from_sat(100_000);
    maker.max_buy = BitcoinAmount::from_sat(10);
    assert_eq!(
        validate(&maker, &req, &wallet(0), down()),
        Err(Error::AmountBelowMinimum { min: maker.min_buy, buy: req.btc })
    );
    maker.min_buy = BitcoinAmount::from_sat(0);
    assert_eq!(
        validate(&maker, &req, &wallet(0), down()),
        Err(Error::AmountAboveMaximum { max: maker.max_buy, buy: req.btc })
    );

    maker.max_buy = BitcoinAmount::from_sat(SAT_PER_BTC);
    assert_eq!(
        validate(&maker, &req, &wallet(0), down()),
        Err(Error::LatestRateFetchFailed(String::from("down")))
    );
    assert_eq!(
        validate(&maker, &req, &wallet(0), RateQuote::QuoteFailed(String::from("no quote"))),
        Err(Error::SellQuoteCalculationFailed(String::from("no quote")))
    );
    assert_eq!(
        validate(&maker, &req, &wallet(0), quote_at(100, req.btc)),
        Err(Error::BalanceTooLow { balance: MoneroAmount::from_piconero(0), buy: req.btc })
    );
}

#[test]
fn every_error_has_its_response() {
    let min = BitcoinAmount::from_sat(100_000);
    let max = BitcoinAmount::from_sat(SAT_PER_BTC);
    let buy = BitcoinAmount::from_sat(5);
    let cli = testnet();
    let asb = BlockchainNetwork { bitcoin: BitcoinNetwork::Mainnet, monero: MoneroNetwork::Mainnet };
    assert_eq!(Error::ResumeOnlyMode.to_error_response(), SpotPriceError::NoSwapsAccepted);
    assert_eq!(
        Error::AmountBelowMinimum { min, buy }.to_error_response(),
        SpotPriceError::AmountBelowMinimum { min, buy }
    );
    assert_eq!(
        Error::AmountAboveMaximum { max, buy }.to_error_response(),
        SpotPriceError::AmountAboveMaximum { max, buy }
    );
    assert_eq!(
        Error::BalanceTooLow { balance: MoneroAmount::from_piconero(9), buy }.to_error_response(),
        SpotPriceError::BalanceTooLow { buy }
    );
    assert_eq!(
        Error::BlockchainNetworkMismatch { cli, asb }.to_error_response(),
        SpotPriceError::BlockchainNetworkMismatch { cli, asb }
    );
    assert_eq!(
        Error::LatestRateFetchFailed(String::from("a")).to_error_response(),
        SpotPriceError::Other
    );
    assert_eq!(
        Error::SellQuoteCalculationFailed(String::from("b")).to_error_response(),
        SpotPriceError::Other
    );
    assert_eq!(
        Error::WalletSnapshotFailed(String::from("c")).to_error_response(),
        SpotPriceError::Other
    );
    assert_eq!(Error::Io(String::from("d")).to_error_response(), SpotPriceError::Other);
    assert_eq!(Error::Timeout { seconds: 60 }.to_error_response(), SpotPriceError::Other);
}

#[test]
fn private_context_does_not_reach_the_wire() {
    let buy = BitcoinAmount::from_sat(5);
    assert_eq!(
        Error::BalanceTooLow { balance: MoneroAmount::from_piconero(1), buy }.to_error_response(),
        Error::BalanceTooLow { balance: MoneroAmount::from_piconero(2), buy }.to_error_response()
    );
    assert_eq!(
        Error::Timeout { seconds: 60 }.to_error_response(),
        Error::Timeout { seconds: 7 }.to_error_response()
    );
    assert_eq!(
        Error::Io(String::from("connection reset")).to_error_response(),
        Error::Io(String::from("unexpected end of stream")).to_error_response()
    );
}
