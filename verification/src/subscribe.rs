//! The subscriber's loop: what a session does with each message of the relay.
use crate::broker::{BrokerEvent, EpicboxBroker, PendingPost};
use crate::controller::{
    is_onion_order, known_onions, on_slate_next, EpicboxController, ExchangeNext, Publisher,
    SlateExchange, SubscriptionHandler,
};
use crate::effect::{Effect, EffectView, Incoming, ReadError, Reply, Step, StepView};
use crate::error::{CloseReason, Error, ErrorView};
use crate::protocol::{ProtocolRequestV2, ProtocolResponseV2, RequestV2View};
use crate::wallet::EpicboxAddress;
use uuid::Uuid;
use vstd::prelude::*;

verus! {

/// The protocol version that the wallet speaks.
pub const EPICBOX_PROTOCOL_VERSION: &'static str = "3.0.0";

/// How long the subscriber pauses while the node is not synced.
pub const SYNC_PAUSE_SECS: u64 = 5;

/// Why a Subscribe is sent.
#[derive(Debug, PartialEq, Eq)]
pub enum Renewal {
    /// To answer a challenge.
    Challenged,
    /// To renew the subscription after a Slate, before its Made.
    AfterSlate { epicboxmsgid: String },
    /// To renew the subscription after a cancellation.
    AfterCancel,
}

/// What the subscriber waits for.
#[derive(Debug, PartialEq, Eq)]
pub enum ClientPhase {
    Ready,
    CheckingNode,
    Reading,
    SendingDetails { challenge: String },
    Signing { renewal: Renewal },
    Subscribing { renewal: Renewal },
    Decoding { epicboxmsgid: String, epicboxtxid: Option<String> },
    HandlingSlate { epicboxmsgid: String, exchange: SlateExchange },
    SigningMade { epicboxmsgid: String },
    SendingMade,
    Cancelling { epicboxtxid: String },
    StoringId { slate_id: Uuid },
    Ended,
}

/// One subscriber: its side of the connection.
#[derive(Debug, PartialEq, Eq)]
pub struct EpicboxClient<P: Publisher> {
    pub handler: EpicboxController<P>,
    /// The relay's latest challenge.
    pub challenge: Option<String>,
    pub address: EpicboxAddress,
    pub wallet_mode: String,
    pub wallet_version: String,
    /// The client details are still to be sent.
    pub first_run: bool,
    pub phase: ClientPhase,
}

/// The broker and the subscriber after a step.
#[verifier::ext_equal]
pub struct SubscribeNext<P: Publisher> {
    pub broker: EpicboxBroker,
    pub client: EpicboxClient<P>,
    pub step: StepView<()>,
}

/// The first identifier that is there, in order of preference: the one that the
/// post carried, the relay's stable one, the relay's per-message one.
pub open spec fn preferred_id(
    carried: Option<String>,
    epicboxtxid: Option<String>,
    epicboxmsgid: Option<String>,
) -> Option<String> {
    if carried is Some {
        carried
    } else if epicboxtxid is Some {
        epicboxtxid
    } else {
        epicboxmsgid
    }
}

impl<P: Publisher> EpicboxClient<P> {
    /// The request that introduces the wallet.
    pub open spec fn details_request(&self) -> RequestV2View {
        RequestV2View::ClientDetails {
            wallet_version: self.wallet_version@,
            wallet_mode: self.wallet_mode@,
            protocol_version: EPICBOX_PROTOCOL_VERSION@,
        }
    }

    /// The request that subscribes the wallet, given its signature of a challenge.
    pub open spec fn subscribe_request(&self, signature: Seq<char>) -> RequestV2View {
        RequestV2View::Subscribe {
            address: self.address.public_key@,
            ver: EPICBOX_PROTOCOL_VERSION@,
            signature,
        }
    }

    /// The request that acknowledges a delivered message, given its signature.
    pub open spec fn made_request(
        &self,
        epicboxmsgid: Seq<char>,
        signature: Seq<char>,
    ) -> RequestV2View {
        RequestV2View::Made {
            address: self.address.public_key@,
            signature,
            ver: EPICBOX_PROTOCOL_VERSION@,
            epicboxmsgid,
        }
    }

    /// The client in another phase.
    pub open spec fn at(self, phase: ClientPhase) -> Self {
        EpicboxClient { phase, ..self }
    }
}

/// On to the next message: the node is checked first.
pub open spec fn next_message<P: Publisher>(
    broker: EpicboxBroker,
    client: EpicboxClient<P>,
) -> SubscribeNext<P> {
    SubscribeNext {
        broker,
        client: client.at(ClientPhase::CheckingNode),
        step: StepView::ask(EffectView::CheckNode),
    }
}

/// The same after something was told.
pub open spec fn tell_and_next_message<P: Publisher>(
    broker: EpicboxBroker,
    client: EpicboxClient<P>,
    told: EffectView,
) -> SubscribeNext<P> {
    SubscribeNext {
        broker,
        client: client.at(ClientPhase::CheckingNode),
        step: StepView::tell_and_ask(told, EffectView::CheckNode),
    }
}

/// The loop is over, after some effects.
pub open spec fn ended<P: Publisher>(
    broker: EpicboxBroker,
    client: EpicboxClient<P>,
    effects: Seq<EffectView>,
    outcome: Result<(), ErrorView>,
) -> SubscribeNext<P> {
    SubscribeNext {
        broker,
        client: client.at(ClientPhase::Ended),
        step: StepView { effects, done: Some(outcome) },
    }
}

/// What the session does with a response of the relay.
pub open spec fn respond_next<P: Publisher>(
    broker: EpicboxBroker,
    client: EpicboxClient<P>,
    response: ProtocolResponseV2,
) -> SubscribeNext<P> {
    let go = |client: EpicboxClient<P>, phase: ClientPhase, effect: EffectView|
        SubscribeNext { broker, client: client.at(phase), step: StepView::ask(effect) };
    match response {
        ProtocolResponseV2::Challenge { str } => {
            let challenged = EpicboxClient { challenge: Some(str), ..client };
            if client.first_run {
                go(
                    challenged,
                    ClientPhase::SendingDetails { challenge: str },
                    EffectView::Send(client.details_request()),
                )
            } else {
                go(
                    challenged,
                    ClientPhase::Signing { renewal: Renewal::Challenged },
                    EffectView::Sign(str@),
                )
            }
        },
        ProtocolResponseV2::Slate {
            from,
            str,
            challenge,
            signature,
            ver,
            epicboxmsgid,
            epicboxtxid,
        } => go(
            client,
            ClientPhase::Decoding { epicboxmsgid, epicboxtxid },
            EffectView::Decode { from: from@, str: str@, signature: signature@ },
        ),
        ProtocolResponseV2::TransactionCancelled { epicboxtxid } => go(
            client,
            ClientPhase::Cancelling { epicboxtxid },
            EffectView::CancelLocally { epicboxtxid: epicboxtxid@, slate_id: None },
        ),
        ProtocolResponseV2::GetVersion { str } => next_message(broker, client),
        ProtocolResponseV2::Error { kind, description } => next_message(broker, client),
        ProtocolResponseV2::Okay { epicboxmsgid, epicboxtxid } => match broker.pending_post {
            Some(pending) => match preferred_id(None, epicboxtxid, epicboxmsgid) {
                Some(_) => SubscribeNext {
                    broker: EpicboxBroker { pending_post: None, ..broker },
                    client: client.at(ClientPhase::StoringId { slate_id: pending.slate_id }),
                    step: StepView::ask(
                        EffectView::StoreTxId {
                            slate_id: pending.slate_id,
                            candidate: preferred_id(
                                pending.epicboxtxid,
                                epicboxtxid,
                                epicboxmsgid,
                            )->0@,
                        },
                    ),
                },
                None => next_message(broker, client),
            },
            None => next_message(broker, client),
        },
    }
}

/// What the session does with the result of a read. A session that is to stop
/// stops, whatever was read.
pub open spec fn read_next<P: Publisher>(
    broker: EpicboxBroker,
    client: EpicboxClient<P>,
    read: Result<Incoming, ReadError>,
) -> SubscribeNext<P> {
    if broker.stopping {
        ended(broker, client, seq![EffectView::OnClose(CloseReason::Normal)], Ok(()))
    } else {
        match read {
            Err(ReadError::WouldBlock) => next_message(broker, client),
            Err(ReadError::TimedOut) => next_message(broker, client),
            Err(ReadError::Other) => ended(
                broker,
                EpicboxClient {
                    handler: EpicboxController {
                        reconnections: (client.handler.reconnections + 1) as u32,
                        ..client.handler
                    },
                    ..client
                },
                seq![
                    EffectView::OnClose(
                        CloseReason::Abnormal(Error::EpicboxWebsocketAbnormalTermination),
                    ),
                    EffectView::CloseSocket,
                ],
                Err(ErrorView::EpicboxWebsocketAbnormalTermination),
            ),
            Ok(Incoming::Close) => ended(
                broker,
                client,
                seq![EffectView::OnClose(CloseReason::Normal), EffectView::CloseSocket],
                Ok(()),
            ),
            Ok(Incoming::Text(Some(response))) => respond_next(
                broker,
                answered(client),
                response,
            ),
            Ok(Incoming::Binary(Some(response))) => respond_next(
                broker,
                answered(client),
                response,
            ),
            _ => next_message(broker, client),
        }
    }
}

/// The read shows that the connection is lost, and nobody asked the session to
/// stop.
pub open spec fn read_fails(broker: EpicboxBroker, read: Result<Incoming, ReadError>) -> bool {
    !broker.stopping && read == Err::<Incoming, ReadError>(ReadError::Other)
}

/// The reply ends the session because the connection is lost, which counts as one
/// more reconnection.
pub open spec fn loses_connection<P: Publisher>(
    broker: EpicboxBroker,
    client: EpicboxClient<P>,
    reply: Reply,
) -> bool {
    client.phase is Reading && (reply matches Reply::Read(read) && read_fails(broker, read))
}

/// The client once the relay has answered: no reconnections count any more.
pub open spec fn answered<P: Publisher>(client: EpicboxClient<P>) -> EpicboxClient<P> {
    EpicboxClient {
        handler: EpicboxController { reconnections: 0, ..client.handler },
        ..client
    }
}

/// What the session does once a Subscribe was sent.
pub open spec fn subscribed_next<P: Publisher>(
    broker: EpicboxBroker,
    client: EpicboxClient<P>,
    renewal: Renewal,
) -> SubscribeNext<P> {
    match renewal {
        Renewal::Challenged => tell_and_next_message(
            EpicboxBroker { subscribed: true, ..broker },
            client,
            EffectView::Emit(BrokerEvent::Subscribed),
        ),
        Renewal::AfterSlate { epicboxmsgid } => SubscribeNext {
            broker,
            client: client.at(ClientPhase::SigningMade { epicboxmsgid }),
            step: StepView::ask(EffectView::Sign(epicboxmsgid@)),
        },
        Renewal::AfterCancel => next_message(broker, client),
    }
}

/// One step of handling a delivered Slate. Once it is handled, the subscription is
/// renewed and the message acknowledged, which takes a challenge. A Slate that
/// could not be handled is reported and not acknowledged.
#[verifier::opaque]
pub open spec fn handling_next<P: Publisher>(
    broker: EpicboxBroker,
    client: EpicboxClient<P>,
    epicboxmsgid: String,
    exchange: SlateExchange,
    order: Seq<String>,
    reply: Reply,
) -> SubscribeNext<P> {
    let next = on_slate_next(
        client.handler.tor_config,
        client.handler.publisher.sender(),
        broker,
        exchange,
        order,
        reply,
    );
    match next.step.done {
        None => SubscribeNext {
            broker: next.broker,
            client: client.at(
                ClientPhase::HandlingSlate { epicboxmsgid, exchange: next.exchange },
            ),
            step: next.step,
        },
        Some(Err(e)) => tell_and_next_message(next.broker, client, EffectView::Report(e)),
        Some(Ok(_)) => match client.challenge {
            Some(challenge) => SubscribeNext {
                broker: next.broker,
                client: client.at(
                    ClientPhase::Signing { renewal: Renewal::AfterSlate { epicboxmsgid } },
                ),
                step: StepView::ask(EffectView::Sign(challenge@)),
            },
            None => next_message(next.broker, client),
        },
    }
}

/// What is told of a cancellation: a failure of the wallet's own, then the event.
pub open spec fn cancellation_told(
    epicboxtxid: String,
    cancelled: Result<(), Error>,
) -> Seq<EffectView> {
    let told = EffectView::Emit(BrokerEvent::Cancelled { epicboxtxid });
    match cancelled {
        Ok(_) => seq![told],
        Err(e) => seq![EffectView::Report(e@), told],
    }
}

/// What the session does once the wallet was asked to cancel a transaction that the
/// relay has cancelled: the cancellation is told either way, for the transaction may
/// already be finalized or cancelled in the wallet. A session that does not merely
/// send renews its subscription.
pub open spec fn cancelled_next<P: Publisher>(
    broker: EpicboxBroker,
    client: EpicboxClient<P>,
    epicboxtxid: String,
    cancelled: Result<(), Error>,
) -> SubscribeNext<P> {
    let told = cancellation_told(epicboxtxid, cancelled);
    let renews = client.challenge is Some && client.wallet_mode@ != "send"@;
    SubscribeNext {
        broker,
        client: client.at(
            if renews {
                ClientPhase::Signing { renewal: Renewal::AfterCancel }
            } else {
                ClientPhase::CheckingNode
            },
        ),
        step: StepView {
            effects: told.push(
                if renews {
                    EffectView::Sign(client.challenge->0@)
                } else {
                    EffectView::CheckNode
                },
            ),
            done: None,
        },
    }
}

/// What is reported where a Made could not be sent.
pub open spec fn made_not_sent(text: Seq<char>) -> ErrorView {
    ErrorView::EpicboxTungstenite("Could not send 'Made' request! "@ + text)
}

/// One step of the subscriber's loop. `order` is the order in which the Tor nodes
/// stand that a reply names.
pub open spec fn subscribe_next<P: Publisher>(
    broker: EpicboxBroker,
    client: EpicboxClient<P>,
    order: Seq<String>,
    reply: Reply,
) -> SubscribeNext<P> {
    let go = |client: EpicboxClient<P>, phase: ClientPhase, effect: EffectView|
        SubscribeNext { broker, client: client.at(phase), step: StepView::ask(effect) };
    let report = |error: ErrorView|
        tell_and_next_message(broker, client, EffectView::Report(error));
    match (client.phase, reply) {
        (ClientPhase::Ready, Reply::Begin) => next_message(broker, client),
        (ClientPhase::CheckingNode, Reply::NodeSynced(true)) => go(
            client,
            ClientPhase::Reading,
            EffectView::Read,
        ),
        (ClientPhase::CheckingNode, Reply::NodeSynced(false)) => SubscribeNext {
            broker,
            client,
            step: StepView::tell_and_ask(
                EffectView::Sleep(SYNC_PAUSE_SECS),
                EffectView::CheckNode,
            ),
        },
        (ClientPhase::Reading, Reply::Read(read)) => read_next(broker, client, read),
        (ClientPhase::SendingDetails { challenge }, Reply::Sent(Ok(_))) => go(
            EpicboxClient { first_run: false, ..client },
            ClientPhase::Signing { renewal: Renewal::Challenged },
            EffectView::Sign(challenge@),
        ),
        (ClientPhase::SendingDetails { challenge }, Reply::Sent(Err(text))) => ended(
            broker,
            client,
            seq![],
            Err(
                ErrorView::EpicboxTungstenite(
                    "Could not send 'ClientDetails' request! "@ + text@,
                ),
            ),
        ),
        (ClientPhase::Signing { renewal }, Reply::Signed(Ok(signature))) => go(
            client,
            ClientPhase::Subscribing { renewal },
            EffectView::Send(client.subscribe_request(signature@)),
        ),
        (ClientPhase::Signing { renewal }, Reply::Signed(Err(e))) => ended(
            broker,
            client,
            seq![],
            Err(e@),
        ),
        (ClientPhase::Subscribing { renewal }, Reply::Sent(Ok(_))) => subscribed_next(
            broker,
            client,
            renewal,
        ),
        (ClientPhase::Subscribing { renewal }, Reply::Sent(Err(text))) => report(
            ErrorView::EpicboxTungstenite(text@),
        ),
        (ClientPhase::Decoding { epicboxmsgid, epicboxtxid }, Reply::Decoded(Ok(decoded))) =>
            handling_next(
                broker,
                client,
                epicboxmsgid,
                SlateExchange::fresh(
                    decoded.from,
                    decoded.slate,
                    preferred_id(None, epicboxtxid, Some(epicboxmsgid))->0,
                ),
                order,
                Reply::Begin,
            ),
        (ClientPhase::Decoding { epicboxmsgid, epicboxtxid }, Reply::Decoded(Err(e))) => report(e@),
        (ClientPhase::HandlingSlate { epicboxmsgid, exchange }, _) => handling_next(
            broker,
            client,
            epicboxmsgid,
            exchange,
            order,
            reply,
        ),
        (ClientPhase::SigningMade { epicboxmsgid }, Reply::Signed(Ok(signature))) => go(
            client,
            ClientPhase::SendingMade,
            EffectView::Send(client.made_request(epicboxmsgid@, signature@)),
        ),
        (ClientPhase::SigningMade { epicboxmsgid }, Reply::Signed(Err(e))) => report(e@),
        (ClientPhase::SendingMade, Reply::Sent(Ok(_))) => tell_and_next_message(
            broker,
            client,
            EffectView::Emit(BrokerEvent::Made),
        ),
        (ClientPhase::SendingMade, Reply::Sent(Err(text))) => report(made_not_sent(text@)),
        (ClientPhase::Cancelling { epicboxtxid }, Reply::CancelledLocally(cancelled)) =>
            cancelled_next(broker, client, epicboxtxid, cancelled),
        (ClientPhase::StoringId { slate_id }, Reply::Stored(Ok(epicboxtxid))) =>
            tell_and_next_message(
                broker,
                client,
                EffectView::Emit(BrokerEvent::PostAck { slate_id, epicboxtxid }),
            ),
        (ClientPhase::StoringId { slate_id }, Reply::Stored(Err(e))) => report(e@),
        _ => SubscribeNext { broker, client, step: StepView::idle() },
    }
}

impl<P: Publisher> EpicboxClient<P> {
    /// The client of a new session.
    pub open spec fn fresh(
        handler: EpicboxController<P>,
        address: EpicboxAddress,
        wallet_mode: String,
        wallet_version: String,
    ) -> Self {
        EpicboxClient {
            handler,
            challenge: None,
            address,
            wallet_mode,
            wallet_version,
            first_run: true,
            phase: ClientPhase::Ready,
        }
    }

    /// Creates the client of a new session.
    pub fn new(
        handler: EpicboxController<P>,
        address: EpicboxAddress,
        wallet_mode: String,
        wallet_version: String,
    ) -> (r: Self)
        ensures
            r == EpicboxClient::fresh(handler, address, wallet_mode, wallet_version),
    {
        EpicboxClient {
            handler,
            challenge: None,
            address,
            wallet_mode,
            wallet_version,
            first_run: true,
            phase: ClientPhase::Ready,
        }
    }

    /// Introduces the wallet.
    fn client_details(&self) -> (request: ProtocolRequestV2)
        ensures
            request@ == self.details_request(),
    {
        ProtocolRequestV2::ClientDetails {
            wallet_version: self.wallet_version.clone(),
            wallet_mode: self.wallet_mode.clone(),
            protocol_version: EPICBOX_PROTOCOL_VERSION.to_string(),
        }
    }

    /// Subscribes the wallet.
    fn subscribe_send(&self, signature: String) -> (request: ProtocolRequestV2)
        ensures
            request@ == self.subscribe_request(signature@),
    {
        ProtocolRequestV2::Subscribe {
            address: self.address.public_key.clone(),
            ver: EPICBOX_PROTOCOL_VERSION.to_string(),
            signature,
        }
    }

    /// Acknowledges a delivered message.
    fn made_send(&self, epicboxmsgid: String, signature: String) -> (request: ProtocolRequestV2)
        ensures
            request@ == self.made_request(epicboxmsgid@, signature@),
    {
        ProtocolRequestV2::Made {
            address: self.address.public_key.clone(),
            signature,
            ver: EPICBOX_PROTOCOL_VERSION.to_string(),
            epicboxmsgid,
        }
    }

    /// On to the next message.
    fn proceed(&mut self) -> (step: Step<()>)
        ensures
            *final(self) == old(self).at(ClientPhase::CheckingNode),
            step@ == StepView::<()>::ask(EffectView::CheckNode),
    {
        self.phase = ClientPhase::CheckingNode;
        Step::ask(Effect::CheckNode)
    }

    /// On to the next message after something was told.
    fn tell_and_proceed(&mut self, told: Effect) -> (step: Step<()>)
        ensures
            *final(self) == old(self).at(ClientPhase::CheckingNode),
            step@ == StepView::<()>::tell_and_ask(told@, EffectView::CheckNode),
    {
        self.phase = ClientPhase::CheckingNode;
        Step::tell_and_ask(told, Effect::CheckNode)
    }
}

impl EpicboxBroker {
    /// Reacts to a response of the relay.
    fn respond<P: Publisher>(&mut self, client: &mut EpicboxClient<P>, response: ProtocolResponseV2) -> (step:
        Step<()>)
        ensures
            respond_next(*old(self), *old(client), response) == (SubscribeNext {
                broker: *final(self),
                client: *final(client),
                step: step@,
            }),
    {
        match response {
            ProtocolResponseV2::Challenge { str } => {
                client.challenge = Some(str.clone());
                if client.first_run {
                    client.phase = ClientPhase::SendingDetails { challenge: str };
                    Step::ask(Effect::Send(client.client_details()))
                } else {
                    client.phase = ClientPhase::Signing { renewal: Renewal::Challenged };
                    Step::ask(Effect::Sign(str))
                }
            },
            ProtocolResponseV2::Slate {
                from,
                str,
                challenge: _,
                signature,
                ver: _,
                epicboxmsgid,
                epicboxtxid,
            } => {
                client.phase = ClientPhase::Decoding { epicboxmsgid, epicboxtxid };
                Step::ask(Effect::Decode { from, str, signature })
            },
            ProtocolResponseV2::TransactionCancelled { epicboxtxid } => {
                let effect = client.handler.on_tx_cancelled(&epicboxtxid);
                client.phase = ClientPhase::Cancelling { epicboxtxid };
                Step::ask(effect)
            },
            ProtocolResponseV2::GetVersion { str: _ } => client.proceed(),
            ProtocolResponseV2::Error { kind: _, description: _ } => client.proceed(),
            ProtocolResponseV2::Okay { epicboxmsgid, epicboxtxid } => {
                // A plain Ok answers ClientDetails, Subscribe and Made, and must not
                // consume a pending acknowledgement.
                if epicboxmsgid.is_none() && epicboxtxid.is_none() {
                    return client.proceed();
                }
                let PendingPost { slate_id, epicboxtxid: carried } = match self.pending_post.take() {
                    Some(pending) => pending,
                    None => {
                        return client.proceed();
                    },
                };
                let candidate = match (carried, epicboxtxid, epicboxmsgid) {
                    (Some(id), _, _) => id,
                    (None, Some(id), _) => id,
                    (None, None, Some(id)) => id,
                    (None, None, None) => {
                        return client.proceed();
                    },
                };
                let effect = client.handler.on_post_slate_ack(&slate_id, &candidate);
                client.phase = ClientPhase::StoringId { slate_id };
                Step::ask(effect)
            },
        }
    }

    /// Ends the loop after reporting why the session closes.
    fn close<P: Publisher>(
        client: &mut EpicboxClient<P>,
        reason: CloseReason,
        close_socket: bool,
        outcome: Result<(), Error>,
    ) -> (step: Step<()>)
        ensures
            *final(client) == old(client).at(ClientPhase::Ended),
            step@ == (StepView {
                effects: if close_socket {
                    seq![EffectView::OnClose(reason), EffectView::CloseSocket]
                } else {
                    seq![EffectView::OnClose(reason)]
                },
                done: Some(crate::error::outcome_view(outcome)),
            }),
    {
        client.phase = ClientPhase::Ended;
        let mut effects = Vec::new();
        effects.push(client.handler.on_close(reason));
        if close_socket {
            effects.push(Effect::CloseSocket);
        }
        let step = Step { effects, done: Some(outcome) };
        assert(step@.effects =~= if close_socket {
            seq![EffectView::OnClose(reason), EffectView::CloseSocket]
        } else {
            seq![EffectView::OnClose(reason)]
        });
        step
    }

    /// Reacts to the result of a read.
    fn after_read<P: Publisher>(
        &mut self,
        client: &mut EpicboxClient<P>,
        read: Result<Incoming, ReadError>,
    ) -> (step: Step<()>)
        requires
            read_fails(*old(self), read) ==> old(client).handler.reconnections < u32::MAX,
        ensures
            read_next(*old(self), *old(client), read) == (SubscribeNext {
                broker: *final(self),
                client: *final(client),
                step: step@,
            }),
    {
        if self.stopping {
            return Self::close(client, CloseReason::Normal, false, Ok(()));
        }
        match read {
            Err(ReadError::WouldBlock) => client.proceed(),
            Err(ReadError::TimedOut) => client.proceed(),
            Err(ReadError::Other) => {
                client.handler.reconnections = client.handler.reconnections + 1;
                Self::close(
                    client,
                    CloseReason::Abnormal(Error::EpicboxWebsocketAbnormalTermination),
                    true,
                    Err(Error::EpicboxWebsocketAbnormalTermination),
                )
            },
            Ok(Incoming::Close) => Self::close(client, CloseReason::Normal, true, Ok(())),
            Ok(Incoming::Text(Some(response))) => {
                client.handler.reconnections = 0;
                self.respond(client, response)
            },
            Ok(Incoming::Binary(Some(response))) => {
                client.handler.reconnections = 0;
                self.respond(client, response)
            },
            _ => client.proceed(),
        }
    }

    /// Tells of a cancellation and goes on.
    fn after_cancellation<P: Publisher>(
        &self,
        client: &mut EpicboxClient<P>,
        epicboxtxid: String,
        cancelled: Result<(), Error>,
    ) -> (step: Step<()>)
        ensures
            cancelled_next(*self, *old(client), epicboxtxid, cancelled) == (SubscribeNext {
                broker: *self,
                client: *final(client),
                step: step@,
            }),
    {
        let ghost told = cancellation_told(epicboxtxid, cancelled);
        let mut effects = Vec::new();
        match cancelled {
            Ok(_) => {},
            Err(e) => {
                effects.push(Effect::Report(e));
            },
        }
        effects.push(Effect::Emit(BrokerEvent::Cancelled { epicboxtxid }));
        assert(effects@.map_values(|e: Effect| e@) =~= told);
        if client.wallet_mode == "send".to_string() {
            return client.proceed().preceded_by(effects);
        }
        match &client.challenge {
            Some(challenge) => {
                let challenge = challenge.clone();
                client.phase = ClientPhase::Signing { renewal: Renewal::AfterCancel };
                Step::ask(Effect::Sign(challenge)).preceded_by(effects)
            },
            None => client.proceed().preceded_by(effects),
        }
    }

    /// Takes the handling of a delivered Slate one step further.
    fn handle_slate<P: Publisher>(
        &mut self,
        client: &mut EpicboxClient<P>,
        epicboxmsgid: String,
        exchange: SlateExchange,
        reply: Reply,
    ) -> (step: Step<()>)
        ensures
            exists|order: Seq<String>|
                {
                    &&& #[trigger] is_onion_order(reply, order)
                    &&& handling_next(
                        *old(self),
                        *old(client),
                        epicboxmsgid,
                        exchange,
                        order,
                        reply,
                    ) == (SubscribeNext {
                        broker: *final(self),
                        client: *final(client),
                        step: step@,
                    })
                },
    {
        let ghost asked = reply;
        let ghost first_broker = *self;
        let ghost first_client = *client;
        let ghost first_exchange = exchange;
        let mut exchange = exchange;
        let handled = client.handler.on_slate(self, &mut exchange, reply);
        let ghost order = choose|order: Seq<String>|
            {
                &&& #[trigger] is_onion_order(asked, order)
                &&& on_slate_next(
                    client.handler.tor(),
                    client.handler.responder(),
                    first_broker,
                    first_exchange,
                    order,
                    asked,
                ) == (ExchangeNext { broker: *self, exchange, step: handled@ })
            };
        let step = match handled.done {
            None => {
                client.phase = ClientPhase::HandlingSlate { epicboxmsgid, exchange };
                Step { effects: handled.effects, done: None }
            },
            // Without a Made the relay keeps the Slate and can deliver it again.
            Some(Err(e)) => client.tell_and_proceed(Effect::Report(e)),
            Some(Ok(_)) => match &client.challenge {
                Some(challenge) => {
                    let challenge = challenge.clone();
                    client.phase =
                    ClientPhase::Signing { renewal: Renewal::AfterSlate { epicboxmsgid } };
                    Step::ask(Effect::Sign(challenge))
                },
                None => client.proceed(),
            },
        };
        proof {
            reveal(handling_next);
            assert(is_onion_order(asked, order));
            assert(handling_next(
                first_broker,
                first_client,
                epicboxmsgid,
                first_exchange,
                order,
                asked,
            ) == (SubscribeNext { broker: *self, client: *client, step: step@ }));
        }
        step
    }

    /// Takes the subscriber's loop one step further. Start it with `Reply::Begin`.
    /// The order of the Tor nodes that a reply names is left to chance.
    pub fn subscribe<P: Publisher>(&mut self, client: &mut EpicboxClient<P>, reply: Reply) -> (step:
        Step<()>)
        requires
            loses_connection(*old(self), *old(client), reply)
                ==> old(client).handler.reconnections < u32::MAX,
        ensures
            exists|order: Seq<String>|
                {
                    &&& #[trigger] is_onion_order(reply, order)
                    &&& subscribe_next(*old(self), *old(client), order, reply) == (SubscribeNext {
                        broker: *final(self),
                        client: *final(client),
                        step: step@,
                    })
                },
    {
        let ghost asked = reply;
        let ghost first_broker = *self;
        let ghost first_client = *client;
        let ghost mut order: Seq<String> = known_onions(reply->Finalized_0->Ok_0);
        let mut phase = ClientPhase::Ended;
        std::mem::swap(&mut phase, &mut client.phase);
        let step = match (phase, reply) {
            (ClientPhase::Ready, Reply::Begin) => client.proceed(),
            (ClientPhase::CheckingNode, Reply::NodeSynced(true)) => {
                client.phase = ClientPhase::Reading;
                Step::ask(Effect::Read)
            },
            (ClientPhase::CheckingNode, Reply::NodeSynced(false)) => {
                client.phase = ClientPhase::CheckingNode;
                Step::tell_and_ask(Effect::Sleep(SYNC_PAUSE_SECS), Effect::CheckNode)
            },
            (ClientPhase::Reading, Reply::Read(read)) => self.after_read(client, read),
            (ClientPhase::SendingDetails { challenge }, Reply::Sent(Ok(_))) => {
                client.first_run = false;
                client.phase = ClientPhase::Signing { renewal: Renewal::Challenged };
                Step::ask(Effect::Sign(challenge))
            },
            (ClientPhase::SendingDetails { challenge: _ }, Reply::Sent(Err(text))) => Step::over(
                Err(
                    Error::EpicboxTungstenite(
                        "Could not send 'ClientDetails' request! ".to_string().concat(
                            text.as_str(),
                        ),
                    ),
                ),
            ),
            (ClientPhase::Signing { renewal }, Reply::Signed(Ok(signature))) => {
                client.phase = ClientPhase::Subscribing { renewal };
                Step::ask(Effect::Send(client.subscribe_send(signature)))
            },
            (ClientPhase::Signing { renewal: _ }, Reply::Signed(Err(e))) => Step::over(Err(e)),
            (ClientPhase::Subscribing { renewal }, Reply::Sent(Ok(_))) => match renewal {
                Renewal::Challenged => {
                    self.subscribed = true;
                    client.tell_and_proceed(Effect::Emit(BrokerEvent::Subscribed))
                },
                Renewal::AfterSlate { epicboxmsgid } => {
                    client.phase = ClientPhase::SigningMade { epicboxmsgid: epicboxmsgid.clone() };
                    Step::ask(Effect::Sign(epicboxmsgid))
                },
                Renewal::AfterCancel => client.proceed(),
            },
            (ClientPhase::Subscribing { renewal: _ }, Reply::Sent(Err(text))) =>
                client.tell_and_proceed(Effect::Report(Error::EpicboxTungstenite(text))),
            (
                ClientPhase::Decoding { epicboxmsgid, epicboxtxid },
                Reply::Decoded(Ok(decoded)),
            ) => {
                // An older relay names no stable identifier: the per-message one is
                // a candidate.
                let candidate_epicboxtxid = match epicboxtxid {
                    Some(txid) => txid,
                    None => epicboxmsgid.clone(),
                };
                let exchange = SlateExchange::new(
                    &decoded.from,
                    &decoded.slate,
                    &candidate_epicboxtxid,
                );
                self.handle_slate(client, epicboxmsgid, exchange, Reply::Begin)
            },
            (
                ClientPhase::Decoding { epicboxmsgid: _, epicboxtxid: _ },
                Reply::Decoded(Err(e)),
            ) => client.tell_and_proceed(Effect::Report(e)),
            (ClientPhase::HandlingSlate { epicboxmsgid, exchange }, reply) => {
                let step = self.handle_slate(client, epicboxmsgid, exchange, reply);
                proof {
                    order = choose|order: Seq<String>|
                        {
                            &&& #[trigger] is_onion_order(asked, order)
                            &&& handling_next(
                                first_broker,
                                first_client.at(ClientPhase::Ended),
                                epicboxmsgid,
                                exchange,
                                order,
                                asked,
                            ) == (SubscribeNext { broker: *self, client: *client, step: step@ })
                        };
                }
                step
            },
            (ClientPhase::SigningMade { epicboxmsgid }, Reply::Signed(Ok(signature))) => {
                client.phase = ClientPhase::SendingMade;
                Step::ask(Effect::Send(client.made_send(epicboxmsgid, signature)))
            },
            (ClientPhase::SigningMade { epicboxmsgid: _ }, Reply::Signed(Err(e))) =>
                client.tell_and_proceed(Effect::Report(e)),
            (ClientPhase::SendingMade, Reply::Sent(Ok(_))) => client.tell_and_proceed(
                Effect::Emit(BrokerEvent::Made),
            ),
            (ClientPhase::SendingMade, Reply::Sent(Err(text))) => client.tell_and_proceed(
                Effect::Report(
                    Error::EpicboxTungstenite(
                        "Could not send 'Made' request! ".to_string().concat(text.as_str()),
                    ),
                ),
            ),
            (ClientPhase::Cancelling { epicboxtxid }, Reply::CancelledLocally(cancelled)) =>
                self.after_cancellation(client, epicboxtxid, cancelled),
            (ClientPhase::StoringId { slate_id }, Reply::Stored(Ok(epicboxtxid))) =>
                client.tell_and_proceed(
                    Effect::Emit(BrokerEvent::PostAck { slate_id, epicboxtxid }),
                ),
            (ClientPhase::StoringId { slate_id: _ }, Reply::Stored(Err(e))) =>
                client.tell_and_proceed(Effect::Report(e)),
            (phase, _) => {
                client.phase = phase;
                Step::idle()
            },
        };
        proof {
            reveal(handling_next);
            assert(is_onion_order(asked, order));
            assert(subscribe_next(first_broker, first_client, order, asked) == (SubscribeNext {
                broker: *self,
                client: *client,
                step: step@,
            }));
        }
        step
    }
}

} // verus!
