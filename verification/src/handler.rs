//! The maker's handler of one connection.
//!
//! A handler lives as long as its connection. It tells the swarm whether the
//! connection is to be kept, starts a setup when the taker's substream has
//! been negotiated, and queues what it has to report to the behaviour.

use std::collections::VecDeque;
use uuid::Uuid;
use vstd::prelude::*;
use crate::amount::BitcoinAmount;
use crate::error::Error;
use crate::negotiation::{SetupAction, SetupSession, SetupStage};
use crate::validation::{EnvConfig, SetupConfig};

verus! {

/// The time allowed for a whole setup, in seconds.
pub const SETUP_TIMEOUT_SECS: u64 = 60;

/// The time the application has to answer with a wallet snapshot, in seconds.
pub const WALLET_SNAPSHOT_TIMEOUT_SECS: u64 = 5;

/// How long a connection is kept on which no substream was opened, in
/// milliseconds.
pub const IDLE_CONNECTION_MS: u64 = 5000;

/// Whether the swarm may drop the connection when it is idle.
#[derive(Clone, Copy, Debug, PartialEq, Eq, Structural)]
pub enum KeepAlive {
    /// Keep it until the clock shows `deadline_ms`.
    Until { deadline_ms: u64 },
    Yes,
    No,
}

/// What a handler reports to the behaviour. `C` is the channel end on which
/// the application is asked for the wallet snapshot, `S` the last state of a
/// setup.
#[derive(Debug, PartialEq, Eq)]
pub enum HandlerOutEvent<C, S> {
    Initiated(C),
    Completed(Result<(Uuid, S), Error>),
}

/// The handler of one connection.
pub struct Handler<C, S> {
    events: VecDeque<HandlerOutEvent<C, S>>,
    config: SetupConfig,
    timeout_secs: u64,
    keep_alive: KeepAlive,
}

impl<C, S> Handler<C, S> {
    /// The events that wait to be reported, oldest first.
    pub closed spec fn pending(&self) -> Seq<HandlerOutEvent<C, S>> {
        self.events@
    }

    /// What the maker is configured to accept.
    pub closed spec fn config(&self) -> SetupConfig {
        self.config
    }

    /// The time allowed for a setup on this connection, in seconds.
    pub closed spec fn timeout_secs(&self) -> u64 {
        self.timeout_secs
    }

    /// Whether the connection is to be kept.
    pub closed spec fn keep_alive(&self) -> KeepAlive {
        self.keep_alive
    }

    /// A handler for a connection made at `now_ms` on the swarm's clock. The
    /// connection is kept for five seconds, so that a taker that opens no
    /// substream is dropped.
    pub fn new(
        min_buy: BitcoinAmount,
        max_buy: BitcoinAmount,
        env_config: EnvConfig,
        resume_only: bool,
        now_ms: u64,
    ) -> (handler: Self)
        requires
            now_ms + IDLE_CONNECTION_MS <= u64::MAX,
        ensures
            handler.pending() == Seq::<HandlerOutEvent<C, S>>::empty(),
            handler.config() == (SetupConfig { min_buy, max_buy, env_config, resume_only }),
            handler.timeout_secs() == SETUP_TIMEOUT_SECS,
            handler.keep_alive() == (KeepAlive::Until {
                deadline_ms: (now_ms + IDLE_CONNECTION_MS) as u64,
            }),
    {
        Handler {
            events: VecDeque::new(),
            config: SetupConfig { min_buy, max_buy, env_config, resume_only },
            timeout_secs: SETUP_TIMEOUT_SECS,
            keep_alive: KeepAlive::Until { deadline_ms: now_ms + IDLE_CONNECTION_MS },
        }
    }

    /// The taker's substream has been negotiated: the connection is kept from
    /// now on, the behaviour is handed the channel end on which the
    /// application will be asked for the wallet snapshot, and a setup starts.
    /// Returns the setup and its first action.
    pub fn inject_fully_negotiated_inbound(&mut self, send_wallet_snapshot: C) -> (started: (
        SetupSession,
        SetupAction,
    ))
        ensures
            final(self).keep_alive() == KeepAlive::Yes,
            final(self).pending() == old(self).pending().push(
                HandlerOutEvent::Initiated(send_wallet_snapshot),
            ),
            final(self).config() == old(self).config(),
            final(self).timeout_secs() == old(self).timeout_secs(),
            started.0 == (SetupSession {
                config: old(self).config(),
                timeout_secs: old(self).timeout_secs(),
                stage: SetupStage::AwaitingRequest,
            }),
            started.1 == SetupAction::ReadSpotPriceRequest,
    {
        self.keep_alive = KeepAlive::Yes;
        self.events.push_back(HandlerOutEvent::Initiated(send_wallet_snapshot));
        SetupSession::start(self.config, self.timeout_secs)
    }

    /// The setup has come to its end, well or badly: its result is queued for
    /// the behaviour, and the connection need not be kept any longer.
    pub fn inject_setup_result(&mut self, result: Result<(Uuid, S), Error>)
        ensures
            final(self).keep_alive() == KeepAlive::No,
            final(self).pending() == old(self).pending().push(HandlerOutEvent::Completed(result)),
            final(self).config() == old(self).config(),
            final(self).timeout_secs() == old(self).timeout_secs(),
    {
        self.keep_alive = KeepAlive::No;
        self.events.push_back(HandlerOutEvent::Completed(result));
    }

    /// Whether the connection is to be kept.
    pub fn connection_keep_alive(&self) -> (keep_alive: KeepAlive)
        ensures
            keep_alive == self.keep_alive(),
    {
        self.keep_alive
    }

    /// Takes the oldest event that waits to be reported, or `None` where none
    /// waits.
    pub fn poll(&mut self) -> (event: Option<HandlerOutEvent<C, S>>)
        ensures
            old(self).pending().len() == 0 ==> event.is_none() && final(self).pending() == old(self).pending(),
            old(self).pending().len() > 0 ==> event == Some(old(self).pending()[0]) && final(self).pending() == old(self).pending().skip(1),
            final(self).keep_alive() == old(self).keep_alive(),
            final(self).config() == old(self).config(),
            final(self).timeout_secs() == old(self).timeout_secs(),
    {
        let event = self.events.pop_front();
        proof {
            if event.is_some() {
                assert(old(self).events@.subrange(1, old(self).events@.len() as int) == old(self).events@.skip(1));
            }
        }
        event
    }
}

/// A setup that a handler started times out after a minute: it fails with
/// `Timeout` of sixty seconds, at whatever stage it stands.
pub proof fn lemma_setup_times_out_after_a_minute(session: SetupSession)
    requires
        session.timeout_secs == SETUP_TIMEOUT_SECS,
        !(session.stage is Done),
    ensures
        session.next(crate::negotiation::SetupEvent::TimedOut) == session.fails_with(
            Error::Timeout { seconds: 60 },
        ),
{
}

} // verus!
