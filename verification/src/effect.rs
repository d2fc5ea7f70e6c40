//! The outside work of a session, as values: a step of the session returns the
//! effects to perform, in order, and the reply to the last one drives the next
//! step.
use crate::error::{CloseReason, Error, ErrorView};
use crate::broker::BrokerEvent;
use crate::listener::EpicboxPublisher;
use crate::protocol::{
    ProtocolRequest, ProtocolRequestV2, ProtocolResponseV2, RequestV2View, RequestView,
};
use crate::subscribe::EpicboxClient;
use crate::text::opt_text;
use crate::wallet::{EpicboxAddress, Slate};
use uuid::Uuid;
use vstd::prelude::*;

verus! {

/// Outside work. Where no reply is named, none is expected.
#[derive(Debug, PartialEq, Eq)]
pub enum Effect {
    /// Ask whether the node is synced: `Reply::NodeSynced`.
    CheckNode,
    /// Pause for so many seconds.
    Sleep(u64),
    /// Read one message from the relay: `Reply::Read`.
    Read,
    /// Send a request: `Reply::Sent`.
    Send(ProtocolRequestV2),
    /// Send a request of the first protocol version: `Reply::Sent`.
    Post(ProtocolRequest),
    /// Close the relay connection; whether that succeeds does not matter.
    CloseSocket,
    /// Report that the session closes.
    OnClose(CloseReason),
    /// Report a failure that the session goes on after.
    Report(Error),
    /// Tell whoever waits on the session.
    Emit(BrokerEvent),
    /// Sign the text with the wallet's key, in hexadecimal: `Reply::Signed`.
    Sign(String),
    /// Serialise the Slate in the given version and encrypt it for `to`:
    /// `Reply::Sealed`.
    Seal { slate: Slate, to: EpicboxAddress, version: u16 },
    /// Check and decrypt a delivered Slate: `Reply::Decoded`.
    Decode { from: String, str: String, signature: String },
    /// Receive the Slate as a new transaction, from the address:
    /// `Reply::Received`.
    ReceiveTx { slate: Slate, address: Option<String> },
    /// Finalize the Slate: `Reply::Finalized`.
    FinalizeTx(Slate),
    /// Post the finalized transaction to a node over Tor: `Reply::Posted`.
    PostTxTor { slate: Slate, url: String },
    /// Post the finalized transaction to the wallet's node: `Reply::Posted`.
    PostTx { slate: Slate, fluff: bool },
    /// Wait for the transaction to reach the mempool: `Reply::InMempool`.
    WaitForTxInMempool { slate_id: Uuid, interval_secs: u64, attempts: u64 },
    /// Mark the finalized transaction as seen in the mempool:
    /// `Reply::MempoolUpdated`.
    UpdateMempoolStatus(Slate),
    /// Store the candidate as the transaction's stable identifier unless it has
    /// one, and report the identifier that holds: `Reply::Stored`.
    StoreTxId { slate_id: Uuid, candidate: String },
    /// Cancel the transaction in the wallet: `Reply::CancelledLocally`.
    CancelLocally { epicboxtxid: String, slate_id: Option<Uuid> },
    /// Derive the wallet's address of the given index: `Reply::Address`.
    DeriveAddress { index: u32, domain: Option<String>, port: Option<u16> },
    /// Read the text as an address: `Reply::Address`.
    ParseAddress(String),
    /// Connect to the relay, and let reads give up after so many seconds where a
    /// time is given: `Reply::Connected`.
    Connect { url: String, read_timeout_secs: Option<u64> },
    /// Run the subscriber's loop beside the session, on the session's own broker.
    RunSubscriber(EpicboxClient<EpicboxPublisher>),
    /// Set the deadline so many seconds from now.
    SetDeadline(u64),
    /// Ask for the time up to the deadline, in nanoseconds: `Reply::Remaining`.
    Clock,
    /// Wait for an event for so many nanoseconds: `Reply::Event`.
    Receive(u128),
    /// Wait for the stopped listener to end.
    JoinListener,
    /// Hand the Slate back to the caller, in the given version.
    HandBack { slate: Slate, version: u16 },
}

/// What an `Effect` carries, with its text as characters.
pub enum EffectView {
    CheckNode,
    Sleep(u64),
    Read,
    Send(RequestV2View),
    Post(RequestView),
    CloseSocket,
    OnClose(CloseReason),
    Report(ErrorView),
    Emit(BrokerEvent),
    Sign(Seq<char>),
    Seal { slate: Slate, to: EpicboxAddress, version: u16 },
    Decode { from: Seq<char>, str: Seq<char>, signature: Seq<char> },
    ReceiveTx { slate: Slate, address: Option<Seq<char>> },
    FinalizeTx(Slate),
    PostTxTor { slate: Slate, url: Seq<char> },
    PostTx { slate: Slate, fluff: bool },
    WaitForTxInMempool { slate_id: Uuid, interval_secs: u64, attempts: u64 },
    UpdateMempoolStatus(Slate),
    StoreTxId { slate_id: Uuid, candidate: Seq<char> },
    CancelLocally { epicboxtxid: Seq<char>, slate_id: Option<Uuid> },
    DeriveAddress { index: u32, domain: Option<Seq<char>>, port: Option<u16> },
    ParseAddress(Seq<char>),
    Connect { url: Seq<char>, read_timeout_secs: Option<u64> },
    RunSubscriber(EpicboxClient<EpicboxPublisher>),
    SetDeadline(u64),
    Clock,
    Receive(u128),
    JoinListener,
    HandBack { slate: Slate, version: u16 },
}

impl View for Effect {
    type V = EffectView;

    open spec fn view(&self) -> EffectView {
        match self {
            Effect::CheckNode => EffectView::CheckNode,
            Effect::Sleep(secs) => EffectView::Sleep(*secs),
            Effect::Read => EffectView::Read,
            Effect::Send(request) => EffectView::Send(request@),
            Effect::Post(request) => EffectView::Post(request@),
            Effect::CloseSocket => EffectView::CloseSocket,
            Effect::OnClose(reason) => EffectView::OnClose(*reason),
            Effect::Report(error) => EffectView::Report(error@),
            Effect::Emit(event) => EffectView::Emit(*event),
            Effect::Sign(text) => EffectView::Sign(text@),
            Effect::Seal { slate, to, version } => EffectView::Seal {
                slate: *slate,
                to: *to,
                version: *version,
            },
            Effect::Decode { from, str, signature } => EffectView::Decode {
                from: from@,
                str: str@,
                signature: signature@,
            },
            Effect::ReceiveTx { slate, address } => EffectView::ReceiveTx {
                slate: *slate,
                address: opt_text(*address),
            },
            Effect::FinalizeTx(slate) => EffectView::FinalizeTx(*slate),
            Effect::PostTxTor { slate, url } => EffectView::PostTxTor { slate: *slate, url: url@ },
            Effect::PostTx { slate, fluff } => EffectView::PostTx { slate: *slate, fluff: *fluff },
            Effect::WaitForTxInMempool { slate_id, interval_secs, attempts } =>
                EffectView::WaitForTxInMempool {
                    slate_id: *slate_id,
                    interval_secs: *interval_secs,
                    attempts: *attempts,
                },
            Effect::UpdateMempoolStatus(slate) => EffectView::UpdateMempoolStatus(*slate),
            Effect::StoreTxId { slate_id, candidate } => EffectView::StoreTxId {
                slate_id: *slate_id,
                candidate: candidate@,
            },
            Effect::CancelLocally { epicboxtxid, slate_id } => EffectView::CancelLocally {
                epicboxtxid: epicboxtxid@,
                slate_id: *slate_id,
            },
            Effect::DeriveAddress { index, domain, port } => EffectView::DeriveAddress {
                index: *index,
                domain: opt_text(*domain),
                port: *port,
            },
            Effect::ParseAddress(text) => EffectView::ParseAddress(text@),
            Effect::Connect { url, read_timeout_secs } => EffectView::Connect {
                url: url@,
                read_timeout_secs: *read_timeout_secs,
            },
            Effect::RunSubscriber(client) => EffectView::RunSubscriber(*client),
            Effect::SetDeadline(secs) => EffectView::SetDeadline(*secs),
            Effect::Clock => EffectView::Clock,
            Effect::Receive(nanos) => EffectView::Receive(*nanos),
            Effect::JoinListener => EffectView::JoinListener,
            Effect::HandBack { slate, version } => EffectView::HandBack {
                slate: *slate,
                version: *version,
            },
        }
    }
}

/// One message from the relay. Text that is no response of the protocol has no
/// response.
#[derive(Debug, PartialEq, Eq)]
pub enum Incoming {
    Text(Option<ProtocolResponseV2>),
    Binary(Option<ProtocolResponseV2>),
    Ping,
    Pong,
    Frame,
    Close,
}

/// How a read failed.
#[derive(Debug, PartialEq, Eq, Clone, Copy)]
pub enum ReadError {
    WouldBlock,
    TimedOut,
    Other,
}

/// A delivered Slate with the address that its proof names.
#[derive(Debug, PartialEq, Eq)]
pub struct DecodedSlate {
    pub from: EpicboxAddress,
    pub slate: Slate,
}

/// A finalized transaction.
#[derive(Debug, PartialEq, Eq)]
pub struct FinalizedSlate {
    pub slate: Slate,
    /// The Tor nodes known, if they could be asked for.
    pub onion_addresses: Option<Vec<String>>,
}

/// The answer to an effect. `Begin` starts a task. Sending and connecting fail
/// with the text of the transport's error, receiving with that of the wallet's.
#[derive(Debug)]
pub enum Reply {
    Begin,
    NodeSynced(bool),
    Read(Result<Incoming, ReadError>),
    Sent(Result<(), String>),
    Signed(Result<String, Error>),
    Sealed(Result<String, Error>),
    Decoded(Result<DecodedSlate, Error>),
    Received(Result<Slate, String>),
    Finalized(Result<FinalizedSlate, Error>),
    Posted(Result<(), Error>),
    InMempool(Result<bool, Error>),
    MempoolUpdated(Result<(), Error>),
    Stored(Result<String, Error>),
    CancelledLocally(Result<(), Error>),
    Address(Result<EpicboxAddress, Error>),
    Connected(Result<(), String>),
    Remaining(u128),
    Event(Option<BrokerEvent>),
}

/// What a step of a task gives: the effects to perform in order and, where the
/// task is over, its outcome.
#[derive(Debug, PartialEq, Eq)]
pub struct Step<T> {
    pub effects: Vec<Effect>,
    pub done: Option<Result<T, Error>>,
}

/// What a `Step` gives, with its text as characters.
#[verifier::ext_equal]
pub struct StepView<T> {
    pub effects: Seq<EffectView>,
    pub done: Option<Result<T, ErrorView>>,
}

impl<T> View for Step<T> {
    type V = StepView<T>;

    open spec fn view(&self) -> StepView<T> {
        StepView {
            effects: self.effects@.map_values(|e: Effect| e@),
            done: match self.done {
                Some(outcome) => Some(crate::error::outcome_view(outcome)),
                None => None,
            },
        }
    }
}

impl<T> StepView<T> {
    /// A reply that the task does not wait for: nothing to do.
    pub open spec fn idle() -> Self {
        StepView { effects: seq![], done: None }
    }

    /// One effect, and the task goes on with its reply.
    pub open spec fn ask(effect: EffectView) -> Self {
        StepView { effects: seq![effect], done: None }
    }

    /// An effect without a reply, then one with.
    pub open spec fn tell_and_ask(first: EffectView, second: EffectView) -> Self {
        StepView { effects: seq![first, second], done: None }
    }

    /// The task is over with nothing left to do.
    pub open spec fn over(outcome: Result<T, ErrorView>) -> Self {
        StepView { effects: seq![], done: Some(outcome) }
    }
}

impl<T> Step<T> {
    /// Nothing to do.
    pub fn idle() -> (step: Self)
        ensures
            step@ == StepView::<T>::idle(),
    {
        let step = Step { effects: Vec::new(), done: None };
        assert(step@.effects =~= seq![]);
        step
    }

    /// One effect.
    pub fn ask(effect: Effect) -> (step: Self)
        ensures
            step@ == StepView::<T>::ask(effect@),
    {
        let mut effects = Vec::new();
        effects.push(effect);
        let step = Step { effects, done: None };
        assert(step@.effects =~= seq![effect@]);
        step
    }

    /// Two effects.
    pub fn tell_and_ask(first: Effect, second: Effect) -> (step: Self)
        ensures
            step@ == StepView::<T>::tell_and_ask(first@, second@),
    {
        let mut effects = Vec::new();
        effects.push(first);
        effects.push(second);
        let step = Step { effects, done: None };
        assert(step@.effects =~= seq![first@, second@]);
        step
    }

    /// The step with other effects first.
    pub fn preceded_by(self, first: Vec<Effect>) -> (step: Self)
        ensures
            step@ == (StepView {
                effects: first@.map_values(|e: Effect| e@) + self@.effects,
                done: self@.done,
            }),
    {
        let mut effects = first;
        let mut rest = self.effects;
        effects.append(&mut rest);
        let step = Step { effects, done: self.done };
        assert(step@.effects =~= first@.map_values(|e: Effect| e@) + self@.effects);
        step
    }

    /// The outcome alone.
    pub fn over(outcome: Result<T, Error>) -> (step: Self)
        ensures
            step@ == StepView::<T>::over(crate::error::outcome_view(outcome)),
    {
        let step = Step { effects: Vec::new(), done: Some(outcome) };
        assert(step@.effects =~= seq![]);
        step
    }
}

} // verus!
