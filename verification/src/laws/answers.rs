//! What the subscriber's loop does with each message of the relay, from the message to
//! the last request that answers it, for every broker that its steps may find in between.
use crate::broker::{BrokerEvent, EpicboxBroker};
use crate::controller::{on_slate_next, EpicboxController, Publisher};
use crate::effect::{DecodedSlate, EffectView, Incoming, ReadError, Reply};
use crate::error::{CloseReason, Error, ErrorView};
use crate::laws::client::{lemma_handles, response_of};
use crate::laws::progress::{asks, asks_both, is_over};
use crate::protocol::{ProtocolResponseV2, RequestV2View};
use crate::subscribe::{handling_next, subscribe_next, ClientPhase, EpicboxClient, Renewal};
use vstd::prelude::*;

verus! {

/// The loop reads a response: it is to read, it is not to stop, and the reply brings the
/// response.
pub open spec fn reads_response<P: Publisher>(
    broker: EpicboxBroker,
    client: EpicboxClient<P>,
    reply: Reply,
    response: ProtocolResponseV2,
) -> bool {
    client.phase is Reading && !broker.stopping && response_of(reply) == Some(response)
}

/// The loop is on its way to the next message.
pub open spec fn goes_on<P: Publisher>(client: EpicboxClient<P>) -> bool {
    client.phase is CheckingNode
}

/// Nothing that the loop does changes in whose name it acts, in which mode, with which
/// version and with which Tor settings. Its details are still to be sent until they have
/// been sent.
pub proof fn law_loop_keeps_its_identity<P: Publisher>(
    broker: EpicboxBroker,
    client: EpicboxClient<P>,
    order: Seq<String>,
    reply: Reply,
)
    ensures
        ({
            let next = subscribe_next(broker, client, order, reply);
            &&& next.client.address == client.address
            &&& next.client.wallet_mode == client.wallet_mode
            &&& next.client.wallet_version == client.wallet_version
            &&& next.client.handler.publisher == client.handler.publisher
            &&& next.client.handler.tor_config == client.handler.tor_config
            &&& next.client.first_run == (client.first_run && !(client.phase is SendingDetails && (
            reply matches Reply::Sent(Ok(_)))))
        }),
{
    lemma_handles(broker, client, order, reply);
}

/// A new client has everything before it: its details are to be sent, no challenge has
/// come, and it is who it was made to be.
pub proof fn law_new_client_is_fresh<P: Publisher>(
    handler: EpicboxController<P>,
    client: EpicboxClient<P>,
)
    ensures
        ({
            let fresh = EpicboxClient::fresh(
                handler,
                client.address,
                client.wallet_mode,
                client.wallet_version,
            );
            &&& fresh.first_run
            &&& fresh.challenge is None
            &&& fresh.phase is Ready
            &&& fresh.handler == handler
            &&& fresh.address == client.address
            &&& fresh.wallet_mode == client.wallet_mode
            &&& fresh.wallet_version == client.wallet_version
        }),
{
}

/// The node is asked before each read; while it is not synced the loop pauses five
/// seconds and asks again, as often as it takes.
pub proof fn law_node_is_asked_before_each_read<P: Publisher>(
    broker: EpicboxBroker,
    client: EpicboxClient<P>,
    order: Seq<String>,
)
    ensures
        ({
            let begun = subscribe_next(broker, client, order, Reply::Begin);
            let synced = subscribe_next(broker, client, order, Reply::NodeSynced(true));
            let unsynced = subscribe_next(broker, client, order, Reply::NodeSynced(false));
            &&& client.phase is Ready ==> asks(begun.step, EffectView::CheckNode) && goes_on(
                begun.client,
            ) && begun.broker == broker
            &&& client.phase is CheckingNode ==> {
                &&& asks(synced.step, EffectView::Read)
                &&& synced.client.phase is Reading
                &&& synced.broker == broker
                &&& asks_both(unsynced.step, EffectView::Sleep(5), EffectView::CheckNode)
                &&& unsynced.client == client
                &&& unsynced.broker == broker
            }
        }),
{
}

/// A challenge is answered, whatever the mode: the client's details go out first where
/// they have not yet, then the challenge is signed, the Subscribe goes out with that
/// signature, and once it is out the connection counts as subscribed, which is told.
pub proof fn law_challenge_is_answered<P: Publisher>(
    brokers: (EpicboxBroker, EpicboxBroker, EpicboxBroker, EpicboxBroker),
    client: EpicboxClient<P>,
    order: Seq<String>,
    reply: Reply,
    challenge: String,
    signature: String,
)
    requires
        reads_response(
            brokers.0,
            client,
            reply,
            ProtocolResponseV2::Challenge { str: challenge },
        ),
    ensures
        ({
            let read = subscribe_next(brokers.0, client, order, reply);
            let introduced = subscribe_next(brokers.1, read.client, order, Reply::Sent(Ok(())));
            let signing = if client.first_run {
                introduced
            } else {
                read
            };
            let signed = subscribe_next(
                brokers.2,
                signing.client,
                order,
                Reply::Signed(Ok(signature)),
            );
            let sent = subscribe_next(brokers.3, signed.client, order, Reply::Sent(Ok(())));
            &&& read.broker == brokers.0
            &&& read.client.challenge == Some(challenge)
            &&& client.first_run ==> asks(
                read.step,
                EffectView::Send(
                    RequestV2View::ClientDetails {
                        wallet_version: client.wallet_version@,
                        wallet_mode: client.wallet_mode@,
                        protocol_version: "3.0.0"@,
                    },
                ),
            ) && introduced.broker == brokers.1
            &&& asks(signing.step, EffectView::Sign(challenge@))
            &&& asks(
                signed.step,
                EffectView::Send(
                    RequestV2View::Subscribe {
                        address: client.address.public_key@,
                        ver: "3.0.0"@,
                        signature: signature@,
                    },
                ),
            )
            &&& signed.broker == brokers.2
            &&& asks_both(
                sent.step,
                EffectView::Emit(BrokerEvent::Subscribed),
                EffectView::CheckNode,
            )
            &&& sent.broker == EpicboxBroker { subscribed: true, ..brokers.3 }
            &&& sent.client.challenge == Some(challenge)
            &&& !sent.client.first_run
            &&& goes_on(sent.client)
        }),
{
}

/// Details that could not be sent and a challenge that could not be signed end the loop
/// with the failure; a Subscribe that could not be sent is reported and the loop goes on,
/// not subscribed by it.
pub proof fn law_unanswered_challenge_fails<P: Publisher>(
    broker: EpicboxBroker,
    client: EpicboxClient<P>,
    order: Seq<String>,
    error: Error,
    text: String,
)
    ensures
        ({
            let unsent = subscribe_next(broker, client, order, Reply::Sent(Err(text)));
            let unsigned = subscribe_next(broker, client, order, Reply::Signed(Err(error)));
            &&& client.phase is SendingDetails ==> is_over(
                unsent.step,
                Err(
                    ErrorView::EpicboxTungstenite(
                        "Could not send 'ClientDetails' request! "@ + text@,
                    ),
                ),
            ) && unsent.client.phase is Ended && unsent.broker == broker
            &&& client.phase is Signing ==> is_over(unsigned.step, Err(error@))
                && unsigned.client.phase is Ended && unsigned.broker == broker
            &&& client.phase is Subscribing ==> asks_both(
                unsent.step,
                EffectView::Report(ErrorView::EpicboxTungstenite(text@)),
                EffectView::CheckNode,
            ) && goes_on(unsent.client) && unsent.broker == broker
        }),
{
}

/// A delivered Slate is decoded from what the relay sent, and its handling begins with
/// what its state calls for: a complete Slate is finalized, one that lacks data is
/// received in the name of its sender, and one without inputs has its candidate stored
/// at once. The candidate is the relay's stable identifier, or else the message's. A
/// Slate that cannot be decoded is reported.
pub proof fn law_delivered_slate_is_decoded_and_handled<P: Publisher>(
    brokers: (EpicboxBroker, EpicboxBroker),
    client: EpicboxClient<P>,
    order: Seq<String>,
    reply: Reply,
    delivery: ProtocolResponseV2,
    decoded: DecodedSlate,
    error: Error,
)
    requires
        delivery is Slate,
        reads_response(brokers.0, client, reply, delivery),
    ensures
        ({
            let read = subscribe_next(brokers.0, client, order, reply);
            let begun = subscribe_next(
                brokers.1,
                read.client,
                order,
                Reply::Decoded(Ok(decoded)),
            );
            let unread = subscribe_next(
                brokers.1,
                read.client,
                order,
                Reply::Decoded(Err(error)),
            );
            let candidate = match delivery->Slate_epicboxtxid {
                Some(stable) => stable@,
                None => delivery->Slate_epicboxmsgid@,
            };
            let slate = decoded.slate;
            &&& asks(
                read.step,
                EffectView::Decode {
                    from: delivery->Slate_from@,
                    str: delivery->Slate_str@,
                    signature: delivery->Slate_signature@,
                },
            )
            &&& read.broker == brokers.0
            &&& read.client.challenge == client.challenge
            &&& asks_both(unread.step, EffectView::Report(error@), EffectView::CheckNode)
            &&& goes_on(unread.client)
            &&& unread.broker == brokers.1
            &&& asks(
                begun.step,
                if slate.num_participants <= slate.participant_data {
                    EffectView::FinalizeTx(slate)
                } else if slate.has_inputs {
                    EffectView::ReceiveTx { slate, address: Some(decoded.from.full@) }
                } else {
                    EffectView::StoreTxId { slate_id: slate.id, candidate }
                },
            )
            &&& begun.broker == brokers.1
            &&& begun.client.phase is HandlingSlate
            &&& begun.client.phase->HandlingSlate_epicboxmsgid == delivery->Slate_epicboxmsgid
            &&& begun.client.phase->HandlingSlate_exchange.from == decoded.from
            &&& begun.client.phase->HandlingSlate_exchange.version == slate.version
            &&& begun.client.phase->HandlingSlate_exchange.tx_slate_id == slate.id
            &&& begun.client.phase->HandlingSlate_exchange.candidate_epicboxtxid@ == candidate
        }),
{
    reveal(handling_next);
}

/// While a Slate is being handled, the loop does what the handling does, in the name of
/// the loop's publisher and with its Tor settings, and is still about the same message. A
/// handling that fails is reported, with nothing sent.
pub proof fn law_loop_follows_the_handling<P: Publisher>(
    broker: EpicboxBroker,
    client: EpicboxClient<P>,
    order: Seq<String>,
    reply: Reply,
)
    requires
        client.phase is HandlingSlate,
    ensures
        ({
            let handled = on_slate_next(
                client.handler.tor_config,
                client.handler.publisher.sender(),
                broker,
                client.phase->HandlingSlate_exchange,
                order,
                reply,
            );
            let next = subscribe_next(broker, client, order, reply);
            &&& next.broker == handled.broker
            &&& next.client.challenge == client.challenge
            &&& match handled.step.done {
                None => next.step.effects == handled.step.effects && next.step.done is None
                    && next.client.phase is HandlingSlate
                    && next.client.phase->HandlingSlate_exchange == handled.exchange
                    && next.client.phase->HandlingSlate_epicboxmsgid
                    == client.phase->HandlingSlate_epicboxmsgid,
                Some(Err(error)) => asks_both(
                    next.step,
                    EffectView::Report(error),
                    EffectView::CheckNode,
                ) && goes_on(next.client),
                Some(Ok(_)) => true,
            }
        }),
{
    reveal(handling_next);
}

/// Every handled Slate is acknowledged, whatever the mode: where a challenge is held, it
/// is signed anew, the subscription renewed with that signature, the message's identifier
/// signed, and the Made for that very message goes out and is told. Without a challenge
/// the loop just goes on.
pub proof fn law_handled_slate_is_acknowledged<P: Publisher>(
    brokers: (EpicboxBroker, EpicboxBroker, EpicboxBroker, EpicboxBroker, EpicboxBroker),
    client: EpicboxClient<P>,
    order: Seq<String>,
    reply: Reply,
    signature: String,
    made_signature: String,
)
    requires
        client.phase is HandlingSlate,
        on_slate_next(
            client.handler.tor_config,
            client.handler.publisher.sender(),
            brokers.0,
            client.phase->HandlingSlate_exchange,
            order,
            reply,
        ).step.done == Some(Ok::<(), ErrorView>(())),
    ensures
        ({
            let epicboxmsgid = client.phase->HandlingSlate_epicboxmsgid;
            let signing = subscribe_next(brokers.0, client, order, reply);
            let renewing = subscribe_next(
                brokers.1,
                signing.client,
                order,
                Reply::Signed(Ok(signature)),
            );
            let renewed = subscribe_next(brokers.2, renewing.client, order, Reply::Sent(Ok(())));
            let making = subscribe_next(
                brokers.3,
                renewed.client,
                order,
                Reply::Signed(Ok(made_signature)),
            );
            let made = subscribe_next(brokers.4, making.client, order, Reply::Sent(Ok(())));
            &&& client.challenge is None ==> asks(signing.step, EffectView::CheckNode) && goes_on(
                signing.client,
            )
            &&& client.challenge matches Some(challenge) ==> {
                &&& asks(signing.step, EffectView::Sign(challenge@))
                &&& signing.client.phase == (ClientPhase::Signing {
                    renewal: Renewal::AfterSlate { epicboxmsgid },
                })
                &&& asks(
                    renewing.step,
                    EffectView::Send(
                        RequestV2View::Subscribe {
                            address: client.address.public_key@,
                            ver: "3.0.0"@,
                            signature: signature@,
                        },
                    ),
                )
                &&& renewing.broker == brokers.1
                &&& asks(renewed.step, EffectView::Sign(epicboxmsgid@))
                &&& renewed.broker == brokers.2
                &&& asks(
                    making.step,
                    EffectView::Send(
                        RequestV2View::Made {
                            address: client.address.public_key@,
                            signature: made_signature@,
                            ver: "3.0.0"@,
                            epicboxmsgid: epicboxmsgid@,
                        },
                    ),
                )
                &&& making.broker == brokers.3
                &&& asks_both(
                    made.step,
                    EffectView::Emit(BrokerEvent::Made),
                    EffectView::CheckNode,
                )
                &&& made.broker == brokers.4
                &&& goes_on(made.client)
                &&& made.client.challenge == Some(challenge)
            }
        }),
{
    reveal(handling_next);
}

/// A Made that could not be signed or sent is reported, in these words where it could not
/// be sent, and the loop goes on.
pub proof fn law_unmade_message_is_reported<P: Publisher>(
    broker: EpicboxBroker,
    client: EpicboxClient<P>,
    order: Seq<String>,
    error: Error,
    text: String,
)
    ensures
        ({
            let unsigned = subscribe_next(broker, client, order, Reply::Signed(Err(error)));
            let unsent = subscribe_next(broker, client, order, Reply::Sent(Err(text)));
            &&& client.phase is SigningMade ==> asks_both(
                unsigned.step,
                EffectView::Report(error@),
                EffectView::CheckNode,
            ) && goes_on(unsigned.client) && unsigned.broker == broker
            &&& client.phase is SendingMade ==> asks_both(
                unsent.step,
                EffectView::Report(
                    ErrorView::EpicboxTungstenite("Could not send 'Made' request! "@ + text@),
                ),
                EffectView::CheckNode,
            ) && goes_on(unsent.client) && unsent.broker == broker
        }),
{
}

/// A cancellation that the relay confirms is made in the wallet by its stable identifier
/// alone and told, whatever the wallet answers; a failure of the wallet is reported first.
/// A loop that holds a challenge then renews its subscription, unless it runs for a
/// session that only sends; any other goes on to the next message.
pub proof fn law_confirmed_cancellation_is_told_and_renews<P: Publisher>(
    brokers: (EpicboxBroker, EpicboxBroker, EpicboxBroker, EpicboxBroker),
    client: EpicboxClient<P>,
    order: Seq<String>,
    reply: Reply,
    epicboxtxid: String,
    cancelled: Result<(), Error>,
    signature: String,
)
    requires
        reads_response(
            brokers.0,
            client,
            reply,
            ProtocolResponseV2::TransactionCancelled { epicboxtxid },
        ),
    ensures
        ({
            let read = subscribe_next(brokers.0, client, order, reply);
            let told = subscribe_next(
                brokers.1,
                read.client,
                order,
                Reply::CancelledLocally(cancelled),
            );
            let renewing = subscribe_next(
                brokers.2,
                told.client,
                order,
                Reply::Signed(Ok(signature)),
            );
            let renewed = subscribe_next(brokers.3, renewing.client, order, Reply::Sent(Ok(())));
            let event = EffectView::Emit(BrokerEvent::Cancelled { epicboxtxid });
            let renews = client.challenge is Some && client.wallet_mode@ != "send"@;
            let last = if renews {
                EffectView::Sign(client.challenge->0@)
            } else {
                EffectView::CheckNode
            };
            &&& asks(
                read.step,
                EffectView::CancelLocally { epicboxtxid: epicboxtxid@, slate_id: None },
            )
            &&& read.broker == brokers.0
            &&& told.broker == brokers.1
            &&& told.step.done is None
            &&& cancelled is Ok ==> told.step.effects =~= seq![event, last]
            &&& cancelled is Err ==> told.step.effects =~= seq![
                EffectView::Report(cancelled->Err_0@),
                event,
                last,
            ]
            &&& told.client.challenge == client.challenge
            &&& renews ==> {
                &&& told.client.phase == (ClientPhase::Signing { renewal: Renewal::AfterCancel })
                &&& asks(
                    renewing.step,
                    EffectView::Send(
                        RequestV2View::Subscribe {
                            address: client.address.public_key@,
                            ver: "3.0.0"@,
                            signature: signature@,
                        },
                    ),
                )
                &&& renewing.broker == brokers.2
                &&& asks(renewed.step, EffectView::CheckNode)
                &&& renewed.broker == brokers.3
                &&& goes_on(renewed.client)
            }
            &&& !renews ==> goes_on(told.client)
        }),
{
}

/// An Ok that names an identifier acknowledges the pending post: the identifier that the
/// post carried, or else the relay's stable one, or else the message's is stored for the
/// pending Slate, and the acknowledgement is told with what the wallet reports, or its
/// error is reported. An Ok that names none, or that finds nothing pending, is passed
/// over and leaves the pending post alone.
pub proof fn law_ok_acknowledges_the_pending_post<P: Publisher>(
    brokers: (EpicboxBroker, EpicboxBroker),
    client: EpicboxClient<P>,
    order: Seq<String>,
    reply: Reply,
    epicboxmsgid: Option<String>,
    epicboxtxid: Option<String>,
    stored: Result<String, Error>,
)
    requires
        reads_response(
            brokers.0,
            client,
            reply,
            ProtocolResponseV2::Okay { epicboxmsgid, epicboxtxid },
        ),
    ensures
        ({
            let read = subscribe_next(brokers.0, client, order, reply);
            let told = subscribe_next(brokers.1, read.client, order, Reply::Stored(stored));
            let named = epicboxmsgid is Some || epicboxtxid is Some;
            &&& !named || brokers.0.pending_post is None ==> asks(
                read.step,
                EffectView::CheckNode,
            ) && goes_on(read.client) && read.broker == brokers.0
            &&& named && brokers.0.pending_post is Some ==> {
                let pending = brokers.0.pending_post->0;
                let candidate = match (pending.epicboxtxid, epicboxtxid, epicboxmsgid) {
                    (Some(known), _, _) => known@,
                    (None, Some(stable), _) => stable@,
                    (None, None, Some(message)) => message@,
                    (None, None, None) => seq![],
                };
                &&& asks(
                    read.step,
                    EffectView::StoreTxId { slate_id: pending.slate_id, candidate },
                )
                &&& read.broker == EpicboxBroker { pending_post: None, ..brokers.0 }
                &&& asks_both(
                    told.step,
                    match stored {
                        Ok(stable) => EffectView::Emit(
                            BrokerEvent::PostAck {
                                slate_id: pending.slate_id,
                                epicboxtxid: stable,
                            },
                        ),
                        Err(error) => EffectView::Report(error@),
                    },
                    EffectView::CheckNode,
                )
                &&& told.broker == brokers.1
                &&& goes_on(told.client)
            }
        }),
{
}

/// Everything else that a read may give is passed over, with nothing changed: versions
/// and errors of the relay, text that is no response, other frames and quiet reads.
pub proof fn law_other_messages_are_passed_over<P: Publisher>(
    broker: EpicboxBroker,
    client: EpicboxClient<P>,
    order: Seq<String>,
    read: Result<Incoming, ReadError>,
)
    requires
        client.phase is Reading,
        !broker.stopping,
        match read {
            Ok(Incoming::Text(None)) => true,
            Ok(Incoming::Binary(None)) => true,
            Ok(Incoming::Ping) => true,
            Ok(Incoming::Pong) => true,
            Ok(Incoming::Frame) => true,
            Err(ReadError::WouldBlock) => true,
            Err(ReadError::TimedOut) => true,
            _ => response_of(Reply::Read(read)) matches Some(response) && (response is GetVersion
                || response is Error),
        },
    ensures
        ({
            let next = subscribe_next(broker, client, order, Reply::Read(read));
            &&& asks(next.step, EffectView::CheckNode)
            &&& next.broker == broker
            &&& goes_on(next.client)
            &&& next.client.challenge == client.challenge
            &&& response_of(Reply::Read(read)) is None ==> next.client == client.at(
                ClientPhase::CheckingNode,
            )
        }),
{
}

/// A connection that the relay closes ends the loop normally and a lost one abnormally;
/// either way the closing is reported and the websocket closed.
pub proof fn law_ended_connection_ends_the_loop<P: Publisher>(
    broker: EpicboxBroker,
    client: EpicboxClient<P>,
    order: Seq<String>,
)
    requires
        client.phase is Reading,
        !broker.stopping,
    ensures
        ({
            let closed = subscribe_next(broker, client, order, Reply::Read(Ok(Incoming::Close)));
            let lost = subscribe_next(broker, client, order, Reply::Read(Err(ReadError::Other)));
            &&& closed.step.effects == seq![
                EffectView::OnClose(CloseReason::Normal),
                EffectView::CloseSocket,
            ]
            &&& closed.step.done == Some(Ok::<(), ErrorView>(()))
            &&& closed.client.phase is Ended
            &&& closed.broker == broker
            &&& lost.step.effects == seq![
                EffectView::OnClose(
                    CloseReason::Abnormal(Error::EpicboxWebsocketAbnormalTermination),
                ),
                EffectView::CloseSocket,
            ]
            &&& lost.step.done == Some(
                Err::<(), ErrorView>(ErrorView::EpicboxWebsocketAbnormalTermination),
            )
            &&& lost.client.phase is Ended
            &&& lost.broker == broker
        }),
{
}

/// Text and binary messages with the same response are answered alike.
pub proof fn law_binary_is_read_like_text<P: Publisher>(
    broker: EpicboxBroker,
    client: EpicboxClient<P>,
    order: Seq<String>,
    response: Option<ProtocolResponseV2>,
)
    ensures
        client.phase is Reading ==> subscribe_next(
            broker,
            client,
            order,
            Reply::Read(Ok(Incoming::Binary(response))),
        ) == subscribe_next(broker, client, order, Reply::Read(Ok(Incoming::Text(response)))),
{
}

/// The reply is of the kind that the loop waits for in a phase.
pub open spec fn loop_awaits(phase: ClientPhase, reply: Reply) -> bool {
    match phase {
        ClientPhase::Ready => reply is Begin,
        ClientPhase::CheckingNode => reply is NodeSynced,
        ClientPhase::Reading => reply is Read,
        ClientPhase::SendingDetails { challenge } => reply is Sent,
        ClientPhase::Signing { renewal } => reply is Signed,
        ClientPhase::Subscribing { renewal } => reply is Sent,
        ClientPhase::Decoding { epicboxmsgid, epicboxtxid } => reply is Decoded,
        ClientPhase::HandlingSlate { epicboxmsgid, exchange } => true,
        ClientPhase::SigningMade { epicboxmsgid } => reply is Signed,
        ClientPhase::SendingMade => reply is Sent,
        ClientPhase::Cancelling { epicboxtxid } => reply is CancelledLocally,
        ClientPhase::StoringId { slate_id } => reply is Stored,
        ClientPhase::Ended => false,
    }
}

/// A reply that the loop does not wait for changes nothing.
pub proof fn law_loop_awaits_its_replies<P: Publisher>(
    broker: EpicboxBroker,
    client: EpicboxClient<P>,
    order: Seq<String>,
    reply: Reply,
)
    requires
        !loop_awaits(client.phase, reply),
    ensures
        ({
            let next = subscribe_next(broker, client, order, reply);
            &&& next.broker == broker
            &&& next.client == client
            &&& next.step.effects.len() == 0
            &&& next.step.done is None
        }),
{
}

} // verus!
