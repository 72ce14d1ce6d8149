use libp2p::{Multiaddr, PeerId};
use swap_setup::amount::BitcoinAmount;
use swap_setup::behaviour::{Behaviour, OutEvent};
use swap_setup::error::Error;
use swap_setup::handler::{
    Handler, HandlerOutEvent, KeepAlive, IDLE_CONNECTION_MS, SETUP_TIMEOUT_SECS,
    WALLET_SNAPSHOT_TIMEOUT_SECS,
};
use swap_setup::negotiation::{SetupAction, SetupEvent, SetupStage};
use swap_setup::network::{BitcoinNetwork, MoneroNetwork};
use swap_setup::taker::{
    route_command, route_swarm_event, Command, Notice, Reaction, SwarmCall, SwarmEvent,
    CHANNEL_CAPACITY,
};
use swap_setup::validation::{EnvConfig, SetupConfig};
use uuid::Uuid;

type Channel = &'static str;
type LastState = &'static str;

fn env() -> EnvConfig {
    EnvConfig { bitcoin_network: BitcoinNetwork::Testnet, monero_network: MoneroNetwork::Stagenet }
}

fn handler(now_ms: u64) -> Handler<Channel, LastState> {
    Handler::new(BitcoinAmount::from_sat(100_000), BitcoinAmount::from_sat(100_000_000), env(), false, now_ms)
}

fn behaviour() -> Behaviour<Channel, LastState> {
    Behaviour::new(BitcoinAmount::from_sat(100_000), BitcoinAmount::from_sat(100_000_000), env(), false)
}

#[test]
fn limits_are_as_agreed() {
    assert_eq!(SETUP_TIMEOUT_SECS, 60);
    assert_eq!(WALLET_SNAPSHOT_TIMEOUT_SECS, 5);
    assert_eq!(IDLE_CONNECTION_MS, 5_000);
    assert_eq!(CHANNEL_CAPACITY, 100);
}

#[test]
fn idle_connection_is_kept_for_five_seconds() {
    let mut h = handler(1_000);
    assert_eq!(h.connection_keep_alive(), KeepAlive::Until { deadline_ms: 6_000 });
    assert_eq!(h.poll(), None);
    assert_eq!(h.connection_keep_alive(), KeepAlive::Until { deadline_ms: 6_000 });
    let mut late = handler(u64::MAX - 5_000);
    assert_eq!(late.connection_keep_alive(), KeepAlive::Until { deadline_ms: u64::MAX });
    assert_eq!(late.poll(), None);
}

#[test]
fn negotiated_substream_starts_a_setup() {
    let mut h = handler(0);
    let (session, action) = h.inject_fully_negotiated_inbound("snapshot channel");
    assert_eq!(h.connection_keep_alive(), KeepAlive::Yes);
    assert_eq!(action, SetupAction::ReadSpotPriceRequest);
    assert_eq!(session.stage, SetupStage::AwaitingRequest);
    assert_eq!(session.timeout_secs, 60);
    assert_eq!(
        session.config,
        SetupConfig {
            min_buy: BitcoinAmount::from_sat(100_000),
            max_buy: BitcoinAmount::from_sat(100_000_000),
            env_config: env(),
            resume_only: false,
        }
    );
    assert_eq!(h.poll(), Some(HandlerOutEvent::Initiated("snapshot channel")));
    assert_eq!(h.poll(), None);
    assert_eq!(h.connection_keep_alive(), KeepAlive::Yes);
    let (_, failed) = session.step(SetupEvent::TimedOut).unwrap();
    assert_eq!(failed, SetupAction::Fail(Error::Timeout { seconds: 60 }));
}

#[test]
fn end_of_setup_releases_the_connection() {
    let mut h = handler(0);
    let _ = h.inject_fully_negotiated_inbound("snapshot channel");
    h.inject_setup_result(Ok((Uuid::from_u128(9), "state3")));
    assert_eq!(h.connection_keep_alive(), KeepAlive::No);
    assert_eq!(h.poll(), Some(HandlerOutEvent::Initiated("snapshot channel")));
    assert_eq!(h.poll(), Some(HandlerOutEvent::Completed(Ok((Uuid::from_u128(9), "state3")))));
    assert_eq!(h.poll(), None);

    let mut h = handler(0);
    let _ = h.inject_fully_negotiated_inbound("snapshot channel");
    h.inject_setup_result(Err(Error::Timeout { seconds: 60 }));
    assert_eq!(h.connection_keep_alive(), KeepAlive::No);
    assert_eq!(h.poll(), Some(HandlerOutEvent::Initiated("snapshot channel")));
    assert_eq!(h.poll(), Some(HandlerOutEvent::Completed(Err(Error::Timeout { seconds: 60 }))));
}

#[test]
fn behaviour_reports_in_the_order_of_arrival() {
    let mut b = behaviour();
    assert_eq!(b.poll(), None);
    let (first, second, third) = (PeerId::random(), PeerId::random(), PeerId::random());
    assert_ne!(second, third);
    b.inject_event(first, HandlerOutEvent::Initiated("channel of the first"));
    b.inject_event(second, HandlerOutEvent::Completed(Ok((Uuid::from_u128(42), "state3"))));
    b.inject_event(third, HandlerOutEvent::Completed(Err(Error::ResumeOnlyMode)));
    assert_eq!(b.poll(), Some(OutEvent::Initiated { send_wallet_snapshot: "channel of the first" }));
    assert_eq!(
        b.poll(),
        Some(OutEvent::Completed { peer_id: second, swap_id: Uuid::from_u128(42), state3: "state3" })
    );
    assert_eq!(b.poll(), Some(OutEvent::Error { peer_id: third, error: Error::ResumeOnlyMode }));
    assert_eq!(b.poll(), None);
}

#[test]
fn behaviour_hands_its_limits_to_each_handler() {
    let b: Behaviour<Channel, LastState> = Behaviour::new(
        BitcoinAmount::from_sat(1),
        BitcoinAmount::from_sat(2),
        env(),
        true,
    );
    let mut h = b.new_handler(10);
    assert_eq!(h.connection_keep_alive(), KeepAlive::Until { deadline_ms: 5_010 });
    let (session, _) = h.inject_fully_negotiated_inbound("c");
    assert_eq!(
        session.config,
        SetupConfig {
            min_buy: BitcoinAmount::from_sat(1),
            max_buy: BitcoinAmount::from_sat(2),
            env_config: env(),
            resume_only: true,
        }
    );
    assert!(b.addresses_of_peer(&PeerId::random()).is_empty());
}

#[test]
fn swarm_events_reach_the_handle() {
    type Event = SwarmEvent<&'static str, u8, bool>;
    let maker = PeerId::random();
    assert_eq!(
        route_swarm_event(Event::ConnectionEstablished(maker)),
        Some(Notice::ConnectionEstablished(maker))
    );
    assert_eq!(route_swarm_event(Event::Message0("m0")), Some(Notice::Message0("m0")));
    assert_eq!(route_swarm_event(Event::Message1(1)), Some(Notice::Message1(1)));
    assert_eq!(route_swarm_event(Event::Message2(true)), Some(Notice::Message2(true)));
    assert_eq!(route_swarm_event(Event::Amounts), None);
    assert_eq!(route_swarm_event(Event::Message3), None);
}

type Cmd = Command<u8, u16, u32, u64>;
type Call = SwarmCall<u8, u16, u32, u64>;

#[test]
fn dial_is_idempotent() {
    let maker = PeerId::random();
    assert_eq!(route_command(Cmd::Dial(maker), true), Reaction::AlreadyConnected(maker));
    assert_eq!(route_command(Cmd::Dial(maker), false), Reaction::Call(Call::Dial(maker)));
}

#[test]
fn commands_reach_the_swarm() {
    let maker = PeerId::random();
    let address: Multiaddr = "/ip4/127.0.0.1/tcp/9939".parse().unwrap();
    for connected in [false, true] {
        assert_eq!(
            route_command(Cmd::AddAddress(maker, address.clone()), connected),
            Reaction::Call(Call::AddAddress(maker, address.clone()))
        );
        assert_eq!(
            route_command(Cmd::RequestAmounts(maker, BitcoinAmount::from_sat(50_000_000)), connected),
            Reaction::Call(Call::RequestAmounts(maker, 50_000_000))
        );
        assert_eq!(
            route_command(Cmd::SendMessage0(maker, 10), connected),
            Reaction::Call(Call::SendMessage0(maker, 10))
        );
        assert_eq!(
            route_command(Cmd::SendMessage1(maker, 11), connected),
            Reaction::Call(Call::SendMessage1(maker, 11))
        );
        assert_eq!(
            route_command(Cmd::SendMessage2(maker, 12), connected),
            Reaction::Call(Call::SendMessage2(maker, 12))
        );
        assert_eq!(
            route_command(Cmd::SendMessage3(maker, 13), connected),
            Reaction::Call(Call::SendMessage3(maker, 13))
        );
    }
}
