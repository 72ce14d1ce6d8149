//! The maker's side of one setup, as a state machine.
//!
//! A setup is a strictly linear dialogue on one substream. The work on the
//! substream, on the wallets, on the rate source and on the cryptographic
//! states is done by the driver; what to do next is decided here. The driver
//! performs the action it is handed and reports what came of it as the next
//! event.

use uuid::Uuid;
use vstd::prelude::*;
use crate::amount::{BitcoinAmount, MoneroAmount};
use crate::error::Error;
use crate::network::{SpotPriceRequest, SpotPriceResponse};
use crate::validation::{
    check_quote, check_request, quote_result, request_failure, request_result, validation_result,
    EnvConfig, RateQuote, SetupConfig, WalletSnapshot,
};

verus! {

/// What the maker's first cryptographic state is made from.
#[derive(Clone, Debug, PartialEq, Eq)]
pub struct StateParameters {
    pub btc: BitcoinAmount,
    pub xmr: MoneroAmount,
    pub env_config: EnvConfig,
    pub redeem_address: String,
    pub punish_address: String,
    pub redeem_fee: BitcoinAmount,
    pub punish_fee: BitcoinAmount,
}

/// How far a setup has come.
#[derive(Debug, PartialEq, Eq)]
pub enum SetupStage {
    /// The taker's spot-price request is being read.
    AwaitingRequest,
    /// The application was asked for a wallet snapshot.
    AwaitingSnapshot { request: SpotPriceRequest },
    /// The rate source was asked for the price of the order.
    AwaitingQuote { request: SpotPriceRequest, snapshot: WalletSnapshot },
    /// The quote is being written to the taker.
    SendingQuote { request: SpotPriceRequest, snapshot: WalletSnapshot, xmr: MoneroAmount },
    /// The refusal is being written to the taker.
    SendingRefusal { error: Error },
    /// The taker's first message is being read and received.
    AwaitingMessage0,
    SendingMessage1 { swap_id: Uuid },
    AwaitingMessage2 { swap_id: Uuid },
    SendingMessage3 { swap_id: Uuid },
    AwaitingMessage4 { swap_id: Uuid },
    /// The setup has completed or failed. Nothing more happens.
    Done,
}

/// What the driver reports of the action it was handed.
#[derive(Debug, PartialEq, Eq)]
pub enum SetupEvent {
    /// The spot-price request was read.
    RequestRead(SpotPriceRequest),
    /// The application answered with a wallet snapshot.
    SnapshotReceived(WalletSnapshot),
    /// The application did not answer in time, or the channel to it broke.
    SnapshotFailed(String),
    /// The rate source answered.
    Quote(RateQuote),
    /// The message handed out was written.
    Written,
    /// The taker's first message was read and accepted; the swap has its id.
    Message0Accepted(Uuid),
    Message2Accepted,
    Message4Accepted,
    /// A read or a write failed, or the state at hand rejected the message.
    IoFailed(String),
    /// The time allowed for the whole setup has passed.
    TimedOut,
}

/// What the driver is to do next.
#[derive(Debug, PartialEq, Eq)]
pub enum SetupAction {
    ReadSpotPriceRequest,
    /// Ask the application for a wallet snapshot, for an order of `btc`.
    RequestWalletSnapshot { btc: BitcoinAmount },
    /// Ask the rate source what `btc` buys.
    FetchQuote { btc: BitcoinAmount },
    WriteResponse(SpotPriceResponse),
    /// Make the first state from the parameters, read the taker's first
    /// message and receive it.
    ReceiveMessage0(StateParameters),
    WriteMessage1,
    ReceiveMessage2,
    WriteMessage3,
    ReceiveMessage4,
    /// The setup is complete: hand out the last state under this id.
    Complete { swap_id: Uuid },
    /// The setup has failed: drop the substream and report the error.
    Fail(Error),
}

/// One setup on the maker's side.
#[derive(Debug, PartialEq, Eq)]
pub struct SetupSession {
    pub config: SetupConfig,
    /// The time allowed for the whole setup, in seconds.
    pub timeout_secs: u64,
    pub stage: SetupStage,
}

impl SetupStage {
    /// The place of a stage on the way of a setup that succeeds, from 0, or
    /// `None` for a stage that is not on that way.
    pub open spec fn position(self) -> Option<nat> {
        match self {
            SetupStage::AwaitingRequest => Some(0),
            SetupStage::AwaitingSnapshot { .. } => Some(1),
            SetupStage::AwaitingQuote { .. } => Some(2),
            SetupStage::SendingQuote { .. } => Some(3),
            SetupStage::AwaitingMessage0 => Some(4),
            SetupStage::SendingMessage1 { .. } => Some(5),
            SetupStage::AwaitingMessage2 { .. } => Some(6),
            SetupStage::SendingMessage3 { .. } => Some(7),
            SetupStage::AwaitingMessage4 { .. } => Some(8),
            SetupStage::SendingRefusal { .. } => None,
            SetupStage::Done => None,
        }
    }
}

impl SetupAction {
    /// Whether this is the action that a setup which succeeds takes as its
    /// step number `index`, counted from 0 after the request was asked for.
    pub open spec fn is_step(self, index: int) -> bool {
        match self {
            SetupAction::RequestWalletSnapshot { .. } => index == 0,
            SetupAction::FetchQuote { .. } => index == 1,
            SetupAction::WriteResponse(response) => index == 2 && response is Xmr,
            SetupAction::ReceiveMessage0(_) => index == 3,
            SetupAction::WriteMessage1 => index == 4,
            SetupAction::ReceiveMessage2 => index == 5,
            SetupAction::WriteMessage3 => index == 6,
            SetupAction::ReceiveMessage4 => index == 7,
            SetupAction::Complete { .. } => index == 8,
            SetupAction::ReadSpotPriceRequest => false,
            SetupAction::Fail(_) => false,
        }
    }
}

impl SetupSession {
    /// The same setup at another stage.
    pub open spec fn at(self, stage: SetupStage) -> SetupSession {
        SetupSession { config: self.config, timeout_secs: self.timeout_secs, stage }
    }

    /// The setup ends in failure.
    pub open spec fn fails_with(self, error: Error) -> Option<(SetupSession, SetupAction)> {
        Some((self.at(SetupStage::Done), SetupAction::Fail(error)))
    }

    /// The order is refused: the taker is told why, as far as it may know.
    pub open spec fn refuses_with(self, error: Error) -> Option<(SetupSession, SetupAction)> {
        Some(
            (
                self.at(SetupStage::SendingRefusal { error }),
                SetupAction::WriteResponse(SpotPriceResponse::Error(error.error_response())),
            ),
        )
    }

    /// The setup moves on to `stage`, and the driver is handed `action`.
    pub open spec fn moves_to(self, stage: SetupStage, action: SetupAction) -> Option<
        (SetupSession, SetupAction),
    > {
        Some((self.at(stage), action))
    }

    /// The transition: the setup after `event` and what the driver is to do
    /// next, or `None` where the event cannot follow the action that was
    /// handed out last.
    pub open spec fn next(self, event: SetupEvent) -> Option<(SetupSession, SetupAction)> {
        match (self.stage, event) {
            (SetupStage::Done, _) => None,
            (_, SetupEvent::TimedOut) => self.fails_with(
                Error::Timeout { seconds: self.timeout_secs },
            ),
            (SetupStage::AwaitingSnapshot { .. }, SetupEvent::IoFailed(_)) => None,
            (SetupStage::AwaitingQuote { .. }, SetupEvent::IoFailed(_)) => None,
            (_, SetupEvent::IoFailed(source)) => self.fails_with(Error::Io(source)),
            (SetupStage::AwaitingRequest, SetupEvent::RequestRead(request)) => self.moves_to(
                SetupStage::AwaitingSnapshot { request },
                SetupAction::RequestWalletSnapshot { btc: request.btc },
            ),
            (SetupStage::AwaitingSnapshot { request }, SetupEvent::SnapshotReceived(snapshot)) => {
                match request_result(self.config, request) {
                    Err(error) => self.refuses_with(error),
                    Ok(_) => self.moves_to(
                        SetupStage::AwaitingQuote { request, snapshot },
                        SetupAction::FetchQuote { btc: request.btc },
                    ),
                }
            },
            (SetupStage::AwaitingSnapshot { .. }, SetupEvent::SnapshotFailed(source)) => {
                self.fails_with(Error::WalletSnapshotFailed(source))
            },
            (SetupStage::AwaitingQuote { request, snapshot }, SetupEvent::Quote(quote)) => {
                match quote_result(request.btc, snapshot, quote) {
                    Err(error) => self.refuses_with(error),
                    Ok(xmr) => self.moves_to(
                        SetupStage::SendingQuote { request, snapshot, xmr },
                        SetupAction::WriteResponse(SpotPriceResponse::Xmr(xmr)),
                    ),
                }
            },
            (SetupStage::SendingQuote { request, snapshot, xmr }, SetupEvent::Written) => {
                self.moves_to(
                    SetupStage::AwaitingMessage0,
                    SetupAction::ReceiveMessage0(
                        StateParameters {
                            btc: request.btc,
                            xmr,
                            env_config: self.config.env_config,
                            redeem_address: snapshot.redeem_address,
                            punish_address: snapshot.punish_address,
                            redeem_fee: snapshot.redeem_fee,
                            punish_fee: snapshot.punish_fee,
                        },
                    ),
                )
            },
            (SetupStage::SendingRefusal { error }, SetupEvent::Written) => self.fails_with(error),
            (SetupStage::AwaitingMessage0, SetupEvent::Message0Accepted(swap_id)) => self.moves_to(
                SetupStage::SendingMessage1 { swap_id },
                SetupAction::WriteMessage1,
            ),
            (SetupStage::SendingMessage1 { swap_id }, SetupEvent::Written) => self.moves_to(
                SetupStage::AwaitingMessage2 { swap_id },
                SetupAction::ReceiveMessage2,
            ),
            (SetupStage::AwaitingMessage2 { swap_id }, SetupEvent::Message2Accepted) => {
                self.moves_to(SetupStage::SendingMessage3 { swap_id }, SetupAction::WriteMessage3)
            },
            (SetupStage::SendingMessage3 { swap_id }, SetupEvent::Written) => self.moves_to(
                SetupStage::AwaitingMessage4 { swap_id },
                SetupAction::ReceiveMessage4,
            ),
            (SetupStage::AwaitingMessage4 { swap_id }, SetupEvent::Message4Accepted) => {
                self.moves_to(SetupStage::Done, SetupAction::Complete { swap_id })
            },
            _ => None,
        }
    }

    /// The setup after a run of events, with the actions handed out on the
    /// way, or `None` where one of the events could not follow.
    pub open spec fn run(self, events: Seq<SetupEvent>) -> Option<(SetupSession, Seq<SetupAction>)>
        decreases events.len(),
    {
        if events.len() == 0 {
            Some((self, Seq::empty()))
        } else {
            match self.next(events[0]) {
                None => None,
                Some((after, action)) => match after.run(events.skip(1)) {
                    None => None,
                    Some((end, actions)) => Some((end, seq![action] + actions)),
                },
            }
        }
    }

    /// A new setup, and the first thing to do: read the taker's request.
    pub fn start(config: SetupConfig, timeout_secs: u64) -> (started: (SetupSession, SetupAction))
        ensures
            started.0 == (SetupSession { config, timeout_secs, stage: SetupStage::AwaitingRequest }),
            started.1 == SetupAction::ReadSpotPriceRequest,
    {
        (
            SetupSession { config, timeout_secs, stage: SetupStage::AwaitingRequest },
            SetupAction::ReadSpotPriceRequest,
        )
    }

    /// Whether the setup has completed or failed.
    pub fn is_done(&self) -> (done: bool)
        ensures
            done == (self.stage is Done),
    {
        match &self.stage {
            SetupStage::Done => true,
            _ => false,
        }
    }

    /// Takes the setup one step on: from the outcome of the last action to the
    /// next action. `None` exactly where the event cannot follow that action;
    /// the setup is then lost.
    pub fn step(self, event: SetupEvent) -> (result: Option<(SetupSession, SetupAction)>)
        ensures
            result == self.next(event),
    {
        let config = self.config;
        let timeout_secs = self.timeout_secs;
        let (stage, action) = match (self.stage, event) {
            (SetupStage::Done, _) => {
                return None;
            },
            (_, SetupEvent::TimedOut) => (
                SetupStage::Done,
                SetupAction::Fail(Error::Timeout { seconds: timeout_secs }),
            ),
            (SetupStage::AwaitingSnapshot { .. }, SetupEvent::IoFailed(_)) => {
                return None;
            },
            (SetupStage::AwaitingQuote { .. }, SetupEvent::IoFailed(_)) => {
                return None;
            },
            (_, SetupEvent::IoFailed(source)) => (
                SetupStage::Done,
                SetupAction::Fail(Error::Io(source)),
            ),
            (SetupStage::AwaitingRequest, SetupEvent::RequestRead(request)) => (
                SetupStage::AwaitingSnapshot { request },
                SetupAction::RequestWalletSnapshot { btc: request.btc },
            ),
            (SetupStage::AwaitingSnapshot { request }, SetupEvent::SnapshotReceived(snapshot)) => {
                match check_request(&config, &request) {
                    Err(error) => refusal(error),
                    Ok(()) => (
                        SetupStage::AwaitingQuote { request, snapshot },
                        SetupAction::FetchQuote { btc: request.btc },
                    ),
                }
            },
            (SetupStage::AwaitingSnapshot { .. }, SetupEvent::SnapshotFailed(source)) => (
                SetupStage::Done,
                SetupAction::Fail(Error::WalletSnapshotFailed(source)),
            ),
            (SetupStage::AwaitingQuote { request, snapshot }, SetupEvent::Quote(quote)) => {
                match check_quote(request.btc, &snapshot, quote) {
                    Err(error) => refusal(error),
                    Ok(xmr) => (
                        SetupStage::SendingQuote { request, snapshot, xmr },
                        SetupAction::WriteResponse(SpotPriceResponse::Xmr(xmr)),
                    ),
                }
            },
            (SetupStage::SendingQuote { request, snapshot, xmr }, SetupEvent::Written) => (
                SetupStage::AwaitingMessage0,
                SetupAction::ReceiveMessage0(
                    StateParameters {
                        btc: request.btc,
                        xmr,
                        env_config: config.env_config,
                        redeem_address: snapshot.redeem_address,
                        punish_address: snapshot.punish_address,
                        redeem_fee: snapshot.redeem_fee,
                        punish_fee: snapshot.punish_fee,
                    },
                ),
            ),
            (SetupStage::SendingRefusal { error }, SetupEvent::Written) => (
                SetupStage::Done,
                SetupAction::Fail(error),
            ),
            (SetupStage::AwaitingMessage0, SetupEvent::Message0Accepted(swap_id)) => (
                SetupStage::SendingMessage1 { swap_id },
                SetupAction::WriteMessage1,
            ),
            (SetupStage::SendingMessage1 { swap_id }, SetupEvent::Written) => (
                SetupStage::AwaitingMessage2 { swap_id },
                SetupAction::ReceiveMessage2,
            ),
            (SetupStage::AwaitingMessage2 { swap_id }, SetupEvent::Message2Accepted) => (
                SetupStage::SendingMessage3 { swap_id },
                SetupAction::WriteMessage3,
            ),
            (SetupStage::SendingMessage3 { swap_id }, SetupEvent::Written) => (
                SetupStage::AwaitingMessage4 { swap_id },
                SetupAction::ReceiveMessage4,
            ),
            (SetupStage::AwaitingMessage4 { swap_id }, SetupEvent::Message4Accepted) => (
                SetupStage::Done,
                SetupAction::Complete { swap_id },
            ),
            _ => {
                return None;
            },
        };
        Some((SetupSession { config, timeout_secs, stage }, action))
    }
}

/// The stage and the action of a refusal: the error is kept for the report, and
/// its projection is written to the taker.
fn refusal(error: Error) -> (result: (SetupStage, SetupAction))
    ensures
        result.0 == (SetupStage::SendingRefusal { error }),
        result.1 == SetupAction::WriteResponse(SpotPriceResponse::Error(error.error_response())),
{
    let response = error.to_error_response();
    (
        SetupStage::SendingRefusal { error },
        SetupAction::WriteResponse(SpotPriceResponse::Error(response)),
    )
}

/// A run hands out one action for each event.
pub proof fn lemma_one_action_per_event(session: SetupSession, events: Seq<SetupEvent>)
    requires
        session.run(events) is Some,
    ensures
        session.run(events)->Some_0.1.len() == events.len(),
    decreases events.len(),
{
    if events.len() > 0 {
        let after = session.next(events[0])->Some_0.0;
        lemma_one_action_per_event(after, events.skip(1));
    }
}

/// From any stage, a run that ends by completing the setup starts on the way
/// of a setup that succeeds, takes exactly the steps that are left of it, and
/// takes them in their order.
pub proof fn lemma_completion_takes_the_remaining_steps(
    session: SetupSession,
    events: Seq<SetupEvent>,
)
    requires
        session.run(events) is Some,
        session.run(events)->Some_0.1.len() > 0,
        session.run(events)->Some_0.1.last() is Complete,
    ensures
        session.stage.position() is Some,
        events.len() == 9 - session.stage.position()->Some_0,
        session.run(events)->Some_0.1.len() == events.len(),
        forall|i: int|
            0 <= i < events.len() ==> (#[trigger] session.run(events)->Some_0.1[i]).is_step(
                session.stage.position()->Some_0 + i,
            ),
    decreases events.len(),
{
    lemma_one_action_per_event(session, events);
    let actions = session.run(events)->Some_0.1;
    let (after, action) = session.next(events[0])->Some_0;
    let rest = events.skip(1);
    let tail = after.run(rest)->Some_0.1;
    assert(actions == seq![action] + tail);
    lemma_one_action_per_event(after, rest);
    if tail.len() == 0 {
        assert(actions[0] == action);
        assert(action is Complete);
    } else {
        assert(actions.last() == tail.last());
        lemma_completion_takes_the_remaining_steps(after, rest);
        let place = session.stage.position()->Some_0;
        assert(after.stage.position() == Some(place + 1));
        assert(action.is_step(place as int));
        assert forall|i: int| 0 <= i < events.len() implies (#[trigger] actions[i]).is_step(
            place + i,
        ) by {
            if i > 0 {
                assert(actions[i] == tail[i - 1]);
            }
        }
    }
}

/// Linear progress: a setup that completes has asked for the wallet snapshot,
/// asked for the quote, written exactly one quote to the taker, received the
/// taker's first message, written its own, received the next, written its
/// second, received the last and completed, in that order and with nothing
/// else in between.
pub proof fn lemma_linear_progress(session: SetupSession, events: Seq<SetupEvent>)
    requires
        session.stage is AwaitingRequest,
        session.run(events) is Some,
        session.run(events)->Some_0.1.len() > 0,
        session.run(events)->Some_0.1.last() is Complete,
    ensures
        events.len() == 9,
        session.run(events)->Some_0.1.len() == 9,
        session.run(events)->Some_0.1[0] is RequestWalletSnapshot,
        session.run(events)->Some_0.1[1] is FetchQuote,
        session.run(events)->Some_0.1[2] is WriteResponse,
        session.run(events)->Some_0.1[2]->WriteResponse_0 is Xmr,
        session.run(events)->Some_0.1[3] is ReceiveMessage0,
        session.run(events)->Some_0.1[4] is WriteMessage1,
        session.run(events)->Some_0.1[5] is ReceiveMessage2,
        session.run(events)->Some_0.1[6] is WriteMessage3,
        session.run(events)->Some_0.1[7] is ReceiveMessage4,
        session.run(events)->Some_0.1[8] is Complete,
{
    lemma_completion_takes_the_remaining_steps(session, events);
    let actions = session.run(events)->Some_0.1;
    assert(actions[0].is_step(0));
    assert(actions[1].is_step(1));
    assert(actions[2].is_step(2));
    assert(actions[3].is_step(3));
    assert(actions[4].is_step(4));
    assert(actions[5].is_step(5));
    assert(actions[6].is_step(6));
    assert(actions[7].is_step(7));
    assert(actions[8].is_step(8));
}

/// Once a setup has completed or failed, no event is taken any more.
pub proof fn lemma_done_is_final(session: SetupSession, event: SetupEvent)
    requires
        session.stage is Done,
    ensures
        session.next(event) is None,
{
}

/// The decision on an order follows the rules: the request is held to the
/// rules on it before the rate source is asked, and what is written to the
/// taker is the quote exactly when the order breaks no rule, else the
/// projection of the error of the first rule that it breaks.
pub proof fn lemma_decision_follows_the_rules(
    session: SetupSession,
    request: SpotPriceRequest,
    snapshot: WalletSnapshot,
    quote: RateQuote,
)
    requires
        session.stage is AwaitingRequest,
    ensures
        ({
            let asked = session.at(SetupStage::AwaitingSnapshot { request });
            let priced = session.at(SetupStage::AwaitingQuote { request, snapshot });
            &&& session.next(SetupEvent::RequestRead(request)) == Some(
                (asked, SetupAction::RequestWalletSnapshot { btc: request.btc }),
            )
            &&& match validation_result(session.config, request, snapshot, quote) {
                Err(error) => if request_failure(session.config, request) is Some {
                    asked.next(SetupEvent::SnapshotReceived(snapshot)) == asked.refuses_with(error)
                } else {
                    &&& asked.next(SetupEvent::SnapshotReceived(snapshot)) == Some(
                        (priced, SetupAction::FetchQuote { btc: request.btc }),
                    )
                    &&& priced.next(SetupEvent::Quote(quote)) == priced.refuses_with(error)
                },
                Ok(xmr) => {
                    &&& asked.next(SetupEvent::SnapshotReceived(snapshot)) == Some(
                        (priced, SetupAction::FetchQuote { btc: request.btc }),
                    )
                    &&& priced.next(SetupEvent::Quote(quote)) == priced.moves_to(
                        SetupStage::SendingQuote { request, snapshot, xmr },
                        SetupAction::WriteResponse(SpotPriceResponse::Xmr(xmr)),
                    )
                },
            }
        }),
{
}

/// A refusal is reported as it was decided once the taker has been told, and
/// the taker was told no more than the error's projection.
pub proof fn lemma_refusal_is_reported(session: SetupSession, error: Error)
    requires
        session.stage == (SetupStage::SendingRefusal { error }),
    ensures
        session.next(SetupEvent::Written) == session.fails_with(error),
{
}

/// When the time allowed for the setup has passed, the setup fails with
/// `Timeout` of that many seconds, at whatever stage it stands, and nothing is
/// written to the taker.
pub proof fn lemma_timeout_fails_the_setup(session: SetupSession)
    requires
        !(session.stage is Done),
    ensures
        session.next(SetupEvent::TimedOut) == session.fails_with(
            Error::Timeout { seconds: session.timeout_secs },
        ),
{
}

/// When the wallet snapshot does not arrive, the setup fails with
/// `WalletSnapshotFailed`, and nothing is written to the taker.
pub proof fn lemma_missing_snapshot_fails_the_setup(session: SetupSession, source: String)
    requires
        session.stage is AwaitingSnapshot,
    ensures
        session.next(SetupEvent::SnapshotFailed(source)) == session.fails_with(
            Error::WalletSnapshotFailed(source),
        ),
{
}

/// Only a refusal of the order is written to the taker as an error: it is
/// decided when the wallet snapshot or the quote has arrived, and what is
/// written is the projection of the error that is reported later. Once the
/// quote has been sent, a failure ends the setup and nothing is written of it.
pub proof fn lemma_only_refusals_reach_the_wire(session: SetupSession, event: SetupEvent)
    requires
        session.next(event) is Some,
    ensures
        ({
            let (after, action) = session.next(event)->Some_0;
            &&& (action is WriteResponse && action->WriteResponse_0 is Error)
                <==> after.stage is SendingRefusal
            &&& after.stage is SendingRefusal ==> {
                &&& session.stage is AwaitingSnapshot || session.stage is AwaitingQuote
                &&& action == SetupAction::WriteResponse(
                    SpotPriceResponse::Error(after.stage->SendingRefusal_error.error_response()),
                )
            }
            &&& action is Fail <==> after.stage is Done && !(action is Complete)
            &&& after.config == session.config
            &&& after.timeout_secs == session.timeout_secs
        }),
{
}

} // verus!
