//! The maker's setup behaviour: one per swarm, over all its connections.

use libp2p::{Multiaddr, PeerId};
use std::collections::VecDeque;
use uuid::Uuid;
use vstd::prelude::*;
use crate::amount::BitcoinAmount;
use crate::error::Error;
use crate::handler::{Handler, HandlerOutEvent, KeepAlive, IDLE_CONNECTION_MS, SETUP_TIMEOUT_SECS};
use crate::validation::{EnvConfig, SetupConfig};

verus! {

/// What the behaviour reports to the application. `C` is the channel end on which the application is asked for the wallet
/// snapshot, `S` the last state of a setup.
#[derive(Debug, PartialEq, Eq)]
pub enum OutEvent<C, S> {
    Initiated { send_wallet_snapshot: C },
    Completed { peer_id: PeerId, swap_id: Uuid, state3: S },
    Error { peer_id: PeerId, error: Error },
}

/// What the behaviour reports of a handler's event on the connection to
/// `peer_id`.
pub open spec fn reported<C, S>(peer_id: PeerId, event: HandlerOutEvent<C, S>) -> OutEvent<C, S> {
    match event {
        HandlerOutEvent::Initiated(send_wallet_snapshot) => OutEvent::Initiated {
            send_wallet_snapshot,
        },
        HandlerOutEvent::Completed(Ok((swap_id, state3))) => OutEvent::Completed {
            peer_id,
            swap_id,
            state3,
        },
        HandlerOutEvent::Completed(Err(error)) => OutEvent::Error { peer_id, error },
    }
}

/// The setup behaviour of a maker.
pub struct Behaviour<C, S> {
    events: VecDeque<OutEvent<C, S>>,
    config: SetupConfig,
}

impl<C, S> Behaviour<C, S> {
    /// The events that wait to be reported, oldest first.
    pub closed spec fn pending(&self) -> Seq<OutEvent<C, S>> {
        self.events@
    }

    /// What the maker is configured to accept.
    pub closed spec fn config(&self) -> SetupConfig {
        self.config
    }

    /// A behaviour with nothing to report yet.
    pub fn new(
        min_buy: BitcoinAmount,
        max_buy: BitcoinAmount,
        env_config: EnvConfig,
        resume_only: bool,
    ) -> (behaviour: Self)
        ensures
            behaviour.pending() == Seq::<OutEvent<C, S>>::empty(),
            behaviour.config() == (SetupConfig { min_buy, max_buy, env_config, resume_only }),
    {
        Behaviour {
            events: VecDeque::new(),
            config: SetupConfig { min_buy, max_buy, env_config, resume_only },
        }
    }

    /// The handler for a connection made at `now_ms` on the swarm's clock. It
    /// accepts what the behaviour accepts.
    pub fn new_handler(&self, now_ms: u64) -> (handler: Handler<C, S>)
        requires
            now_ms + IDLE_CONNECTION_MS <= u64::MAX,
        ensures
            handler.pending() == Seq::<HandlerOutEvent<C, S>>::empty(),
            handler.config() == self.config(),
            handler.timeout_secs() == SETUP_TIMEOUT_SECS,
            handler.keep_alive() == (KeepAlive::Until {
                deadline_ms: (now_ms + IDLE_CONNECTION_MS) as u64,
            }),
    {
        Handler::new(
            self.config.min_buy,
            self.config.max_buy,
            self.config.env_config,
            self.config.resume_only,
            now_ms,
        )
    }

    /// The addresses at which a peer may be dialled: none, as the maker only
    /// takes inbound connections.
    pub fn addresses_of_peer(&self, peer_id: &PeerId) -> (addresses: Vec<Multiaddr>)
        ensures
            addresses@.len() == 0,
    {
        Vec::new()
    }

    /// Queues what is to be reported of a handler's event on the connection to
    /// `peer_id`.
    pub fn inject_event(&mut self, peer_id: PeerId, event: HandlerOutEvent<C, S>)
        ensures
            final(self).pending() == old(self).pending().push(reported(peer_id, event)),
            final(self).config() == old(self).config(),
    {
        let out = match event {
            HandlerOutEvent::Initiated(send_wallet_snapshot) => OutEvent::Initiated {
                send_wallet_snapshot,
            },
            HandlerOutEvent::Completed(Ok((swap_id, state3))) => OutEvent::Completed {
                peer_id,
                swap_id,
                state3,
            },
            HandlerOutEvent::Completed(Err(error)) => OutEvent::Error { peer_id, error },
        };
        self.events.push_back(out);
    }

    /// Takes the oldest event that waits to be reported, or `None` where none
    /// waits.
    pub fn poll(&mut self) -> (event: Option<OutEvent<C, S>>)
        ensures
            old(self).pending().len() == 0 ==> event.is_none() && final(self).pending() == old(self).pending(),
            old(self).pending().len() > 0 ==> event == Some(old(self).pending()[0]) && final(self).pending() == old(self).pending().skip(1),
            final(self).config() == old(self).config(),
    {
        let event = self.events.pop_front();
        proof {
            if event.is_some() {
                assert(old(self).events@.subrange(1, old(self).events@.len() as int) == old(self).events@.skip(1));
            }
        }
        event
    }
}

} // verus!
