//! The decisions of the taker's event loop.
//!
//! One driver owns the swarm. The application talks to it through a handle
//! made of bounded channels: commands go to the driver, notices come back. The
//! driver waits for whichever comes first, an event of the swarm or a command,
//! and asks here what to do with it.
//!
//! `M0`, `M1`, `M2` are the maker's messages, `B0` to `B3` the taker's.

use libp2p::{Multiaddr, PeerId};
use vstd::prelude::*;
use crate::amount::BitcoinAmount;

verus! {

/// How many items each channel between the handle and the driver holds before
/// a sender has to wait.
pub const CHANNEL_CAPACITY: usize = 100;

/// What the swarm reports to the driver.
#[derive(Debug, PartialEq, Eq)]
pub enum SwarmEvent<M0, M1, M2> {
    ConnectionEstablished(PeerId),
    /// The maker answered with amounts.
    Amounts,
    Message0(M0),
    Message1(M1),
    Message2(M2),
    /// The maker acknowledged the taker's last message.
    Message3,
}

/// What the driver passes on to the handle.
#[derive(Debug, PartialEq, Eq)]
pub enum Notice<M0, M1, M2> {
    ConnectionEstablished(PeerId),
    Message0(M0),
    Message1(M1),
    Message2(M2),
}

/// What the application asks of the driver through the handle.
#[derive(Debug, PartialEq, Eq)]
pub enum Command<B0, B1, B2, B3> {
    Dial(PeerId),
    AddAddress(PeerId, Multiaddr),
    RequestAmounts(PeerId, BitcoinAmount),
    SendMessage0(PeerId, B0),
    SendMessage1(PeerId, B1),
    SendMessage2(PeerId, B2),
    SendMessage3(PeerId, B3),
}

/// What the driver asks of the swarm.
#[derive(Debug, PartialEq, Eq)]
pub enum SwarmCall<B0, B1, B2, B3> {
    Dial(PeerId),
    AddAddress(PeerId, Multiaddr),
    /// Ask the peer what it sells for this many satoshi.
    RequestAmounts(PeerId, u64),
    SendMessage0(PeerId, B0),
    SendMessage1(PeerId, B1),
    SendMessage2(PeerId, B2),
    SendMessage3(PeerId, B3),
}

/// What the driver does on a command.
#[derive(Debug, PartialEq, Eq)]
pub enum Reaction<B0, B1, B2, B3> {
    /// It calls the swarm.
    Call(SwarmCall<B0, B1, B2, B3>),
    /// It tells the handle that the connection to the peer is established,
    /// and leaves the swarm alone.
    AlreadyConnected(PeerId),
}

/// What the handle is told of an event of the swarm: an established
/// connection and the maker's three messages are passed on, the rest is only
/// taken note of.
pub open spec fn notice_of<M0, M1, M2>(event: SwarmEvent<M0, M1, M2>) -> Option<
    Notice<M0, M1, M2>,
> {
    match event {
        SwarmEvent::ConnectionEstablished(peer_id) => Some(Notice::ConnectionEstablished(peer_id)),
        SwarmEvent::Message0(message) => Some(Notice::Message0(message)),
        SwarmEvent::Message1(message) => Some(Notice::Message1(message)),
        SwarmEvent::Message2(message) => Some(Notice::Message2(message)),
        SwarmEvent::Amounts => None,
        SwarmEvent::Message3 => None,
    }
}

/// What the driver does on a command, given whether the swarm is connected to
/// the peer that the command names. Only a dial depends on that.
pub open spec fn reaction_to<B0, B1, B2, B3>(
    command: Command<B0, B1, B2, B3>,
    connected: bool,
) -> Reaction<B0, B1, B2, B3> {
    match command {
        Command::Dial(peer_id) => if connected {
            Reaction::AlreadyConnected(peer_id)
        } else {
            Reaction::Call(SwarmCall::Dial(peer_id))
        },
        Command::AddAddress(peer_id, address) => Reaction::Call(
            SwarmCall::AddAddress(peer_id, address),
        ),
        Command::RequestAmounts(peer_id, btc) => Reaction::Call(
            SwarmCall::RequestAmounts(peer_id, btc.sat),
        ),
        Command::SendMessage0(peer_id, message) => Reaction::Call(
            SwarmCall::SendMessage0(peer_id, message),
        ),
        Command::SendMessage1(peer_id, message) => Reaction::Call(
            SwarmCall::SendMessage1(peer_id, message),
        ),
        Command::SendMessage2(peer_id, message) => Reaction::Call(
            SwarmCall::SendMessage2(peer_id, message),
        ),
        Command::SendMessage3(peer_id, message) => Reaction::Call(
            SwarmCall::SendMessage3(peer_id, message),
        ),
    }
}

/// Decides what the handle is told of an event of the swarm, if anything.
pub fn route_swarm_event<M0, M1, M2>(event: SwarmEvent<M0, M1, M2>) -> (notice: Option<
    Notice<M0, M1, M2>,
>)
    ensures
        notice == notice_of(event),
{
    match event {
        SwarmEvent::ConnectionEstablished(peer_id) => Some(Notice::ConnectionEstablished(peer_id)),
        SwarmEvent::Message0(message) => Some(Notice::Message0(message)),
        SwarmEvent::Message1(message) => Some(Notice::Message1(message)),
        SwarmEvent::Message2(message) => Some(Notice::Message2(message)),
        SwarmEvent::Amounts => None,
        SwarmEvent::Message3 => None,
    }
}

/// Decides what the driver does on a command. `connected` says whether the
/// swarm is connected to the peer that the command names.
pub fn route_command<B0, B1, B2, B3>(
    command: Command<B0, B1, B2, B3>,
    connected: bool,
) -> (reaction: Reaction<B0, B1, B2, B3>)
    ensures
        reaction == reaction_to(command, connected),
{
    match command {
        Command::Dial(peer_id) => {
            if connected {
                Reaction::AlreadyConnected(peer_id)
            } else {
                Reaction::Call(SwarmCall::Dial(peer_id))
            }
        },
        Command::AddAddress(peer_id, address) => Reaction::Call(
            SwarmCall::AddAddress(peer_id, address),
        ),
        Command::RequestAmounts(peer_id, btc) => Reaction::Call(
            SwarmCall::RequestAmounts(peer_id, btc.as_sat()),
        ),
        Command::SendMessage0(peer_id, message) => Reaction::Call(
            SwarmCall::SendMessage0(peer_id, message),
        ),
        Command::SendMessage1(peer_id, message) => Reaction::Call(
            SwarmCall::SendMessage1(peer_id, message),
        ),
        Command::SendMessage2(peer_id, message) => Reaction::Call(
            SwarmCall::SendMessage2(peer_id, message),
        ),
        Command::SendMessage3(peer_id, message) => Reaction::Call(
            SwarmCall::SendMessage3(peer_id, message),
        ),
    }
}

/// Dialling is idempotent: on a dial of a peer to which the swarm is connected
/// the handle is told that the connection is established, and the swarm is
/// asked for nothing. The swarm is asked to dial exactly when it is not
/// connected.
pub proof fn lemma_dial_is_idempotent<B0, B1, B2, B3>(peer_id: PeerId, connected: bool)
    ensures
        connected ==> reaction_to::<B0, B1, B2, B3>(Command::Dial(peer_id), connected)
            == Reaction::<B0, B1, B2, B3>::AlreadyConnected(peer_id),
        !connected ==> reaction_to::<B0, B1, B2, B3>(Command::Dial(peer_id), connected)
            == Reaction::<B0, B1, B2, B3>::Call(SwarmCall::Dial(peer_id)),
{
}

/// Every command but a dial is passed on to the swarm as it is, whether the
/// swarm is connected to the peer or not.
pub proof fn lemma_commands_are_passed_on<B0, B1, B2, B3>(
    command: Command<B0, B1, B2, B3>,
    connected: bool,
)
    requires
        !(command is Dial),
    ensures
        reaction_to(command, connected) is Call,
        reaction_to(command, connected) == reaction_to(command, !connected),
{
}

} // verus!
