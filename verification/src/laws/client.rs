//! What holds of every run of the subscriber's loop, whatever the relay sends and
//! whatever others do to the broker in between.
use crate::broker::{BrokerEvent, EpicboxBroker, PostPhase};
use crate::controller::{on_slate_next, ExchangePhase, IncomingPhase, Publisher, SlateExchange};
use crate::effect::{EffectView, Incoming, ReadError, Reply, StepView};
use crate::error::{CloseReason, Error, ErrorView};
use crate::protocol::{ProtocolResponseV2, RequestV2View};
use crate::subscribe::{
    handling_next, loses_connection, preferred_id, subscribe_next, ClientPhase, EpicboxClient,
    Renewal, SubscribeNext,
};
use crate::text::opt_text;
use vstd::prelude::*;

verus! {

/// One input of the loop: the broker as the step finds it, the order in which the
/// Tor nodes happen to stand, and a reply.
pub type Input = (EpicboxBroker, Seq<String>, Reply);

/// The client after a run over `inputs`.
pub open spec fn client_after<P: Publisher>(
    client: EpicboxClient<P>,
    inputs: Seq<Input>,
) -> EpicboxClient<P>
    decreases inputs.len(),
{
    if inputs.len() == 0 {
        client
    } else {
        subscribe_next(
            inputs.last().0,
            client_after(client, inputs.drop_last()),
            inputs.last().1,
            inputs.last().2,
        ).client
    }
}

/// The client before step `i` of a run.
pub open spec fn client_before<P: Publisher>(
    client: EpicboxClient<P>,
    inputs: Seq<Input>,
    i: int,
) -> EpicboxClient<P> {
    client_after(client, inputs.take(i))
}

/// Step `i` of a run.
pub open spec fn client_step<P: Publisher>(
    client: EpicboxClient<P>,
    inputs: Seq<Input>,
    i: int,
) -> SubscribeNext<P> {
    subscribe_next(inputs[i].0, client_before(client, inputs, i), inputs[i].1, inputs[i].2)
}

/// The effect that a run asked for last.
pub open spec fn last_asked<P: Publisher>(
    client: EpicboxClient<P>,
    inputs: Seq<Input>,
) -> Option<EffectView>
    decreases inputs.len(),
{
    if inputs.len() == 0 {
        None
    } else {
        let effects = subscribe_next(
            inputs.last().0,
            client_after(client, inputs.drop_last()),
            inputs.last().1,
            inputs.last().2,
        ).step.effects;
        if effects.len() > 0 {
            Some(effects.last())
        } else {
            last_asked(client, inputs.drop_last())
        }
    }
}

/// The client waits for the reply to the effect that was asked for last.
pub open spec fn waits_for<P: Publisher>(
    client: EpicboxClient<P>,
    asked: Option<EffectView>,
) -> bool {
    match client.phase {
        ClientPhase::Ready => asked is None,
        ClientPhase::CheckingNode => asked == Some(EffectView::CheckNode),
        ClientPhase::Reading => asked == Some(EffectView::Read),
        ClientPhase::SendingDetails { challenge } => {
            &&& asked == Some(EffectView::Send(client.details_request()))
            &&& client.challenge == Some(challenge)
        },
        ClientPhase::Signing { renewal } => {
            &&& client.challenge is Some
            &&& asked == Some(EffectView::Sign(client.challenge->0@))
        },
        ClientPhase::Subscribing { renewal } => {
            &&& client.challenge is Some
            &&& asked matches Some(EffectView::Send(RequestV2View::Subscribe { .. }))
        },
        ClientPhase::Decoding { epicboxmsgid, epicboxtxid } =>
            asked matches Some(EffectView::Decode { .. }),
        ClientPhase::HandlingSlate { epicboxmsgid, exchange } => exchange_waits_for(exchange, asked),
        ClientPhase::SigningMade { epicboxmsgid } => asked == Some(
            EffectView::Sign(epicboxmsgid@),
        ),
        ClientPhase::SendingMade =>
            asked matches Some(EffectView::Send(RequestV2View::Made { .. })),
        ClientPhase::Cancelling { epicboxtxid } => asked == Some(
            EffectView::CancelLocally { epicboxtxid: epicboxtxid@, slate_id: None },
        ),
        ClientPhase::StoringId { slate_id } => asked matches Some(
            EffectView::StoreTxId { slate_id: asked_id, candidate },
        ) && asked_id == slate_id,
        ClientPhase::Ended => true,
    }
}

/// The handling of a delivered Slate waits for the reply to the effect that was
/// asked for last.
pub open spec fn exchange_waits_for(exchange: SlateExchange, asked: Option<EffectView>) -> bool {
    match exchange.phase {
        ExchangePhase::Processing(incoming) => match incoming.phase {
            IncomingPhase::Receiving => asked == Some(
                EffectView::ReceiveTx { slate: incoming.slate, address: opt_text(incoming.address) },
            ),
            IncomingPhase::Finalizing => asked == Some(EffectView::FinalizeTx(incoming.slate)),
            IncomingPhase::PostingTor { finalized } => asked matches Some(
                EffectView::PostTxTor { slate, url },
            ) && slate == finalized,
            IncomingPhase::Posting { finalized } => asked == Some(
                EffectView::PostTx { slate: finalized, fluff: false },
            ),
            IncomingPhase::Waiting { finalized } => asked matches Some(
                EffectView::WaitForTxInMempool { slate_id, interval_secs, attempts },
            ) && slate_id == finalized.id,
            IncomingPhase::Updating => asked matches Some(EffectView::UpdateMempoolStatus(_)),
            _ => false,
        },
        ExchangePhase::Storing { finalized, slate } => asked == Some(
            EffectView::StoreTxId {
                slate_id: exchange.tx_slate_id,
                candidate: exchange.candidate_epicboxtxid@,
            },
        ),
        ExchangePhase::Posting(post) => !post.close_connection && post.epicboxtxid is Some
            && match post.phase {
            PostPhase::Sealing => asked == Some(
                EffectView::Seal { slate: post.slate, to: post.to, version: post.version },
            ),
            PostPhase::SigningMessage { message } => asked == Some(EffectView::Sign(message@)),
            PostPhase::SigningId { message, signature } => asked == Some(
                EffectView::Sign(post.epicboxtxid->0@),
            ),
            PostPhase::Sending => asked matches Some(EffectView::Post(_)),
            _ => false,
        },
        ExchangePhase::Done => false,
    }
}

/// What the handling of a delivered Slate asks for: nothing that the loop itself
/// sends, tells or reads.
pub open spec fn is_handling_effect(effect: EffectView) -> bool {
    !(effect is Send || effect is Emit || effect is Read || effect is CheckNode || effect is Report)
}

/// `next` is a step of handling the Slate delivered under the identifier: the
/// handling goes on, or it is complete and the subscription is renewed, or the loop
/// goes on to the next message.
pub open spec fn is_handling_step<P: Publisher>(
    client: EpicboxClient<P>,
    epicboxmsgid: String,
    next: SubscribeNext<P>,
) -> bool {
    let effects = next.step.effects;
    &&& next.client == client.at(next.client.phase)
    &&& next.step.done is None
    &&& match next.client.phase {
        ClientPhase::HandlingSlate { epicboxmsgid: id, exchange } => id == epicboxmsgid
            && effects.len() <= 1 && (effects.len() > 0 ==> is_handling_effect(effects[0])),
        ClientPhase::Signing { renewal } => renewal == (Renewal::AfterSlate { epicboxmsgid })
            && client.challenge is Some && effects == seq![
            EffectView::Sign(client.challenge->0@),
        ],
        ClientPhase::CheckingNode => effects == seq![EffectView::CheckNode] || (effects.len() == 2
            && effects[0] is Report && effects[1] == EffectView::CheckNode),
        _ => false,
    }
}

/// What the handling waits for, before it has begun and after.
spec fn has_begun(exchange: SlateExchange, reply: Reply, asked: Option<EffectView>) -> bool {
    exchange_waits_for(exchange, asked) || (reply is Begin && exchange.phase is Processing
        && exchange.phase->Processing_0.phase is Ready)
}

/// A step of `handling_next` is one of handling.
proof fn lemma_handling_shape<P: Publisher>(
    broker: EpicboxBroker,
    client: EpicboxClient<P>,
    epicboxmsgid: String,
    exchange: SlateExchange,
    order: Seq<String>,
    reply: Reply,
)
    ensures
        is_handling_step(
            client,
            epicboxmsgid,
            handling_next(broker, client, epicboxmsgid, exchange, order, reply),
        ),
{
    reveal(handling_next);
}

/// A step of `handling_next` waits for what it asks.
proof fn lemma_handling_waits<P: Publisher>(
    broker: EpicboxBroker,
    client: EpicboxClient<P>,
    epicboxmsgid: String,
    exchange: SlateExchange,
    order: Seq<String>,
    reply: Reply,
    asked: Option<EffectView>,
)
    requires
        has_begun(exchange, reply, asked),
    ensures
        ({
            let next = handling_next(broker, client, epicboxmsgid, exchange, order, reply);
            next.client.phase matches ClientPhase::HandlingSlate { epicboxmsgid: id, exchange: now }
                ==> exchange_waits_for(
                now,
                if next.step.effects.len() > 0 {
                    Some(next.step.effects.last())
                } else {
                    asked
                },
            )
        }),
{
    reveal(handling_next);
}

/// The two steps of the loop that handle a Slate are steps of handling.
pub(crate) proof fn lemma_handles<P: Publisher>(
    broker: EpicboxBroker,
    client: EpicboxClient<P>,
    order: Seq<String>,
    reply: Reply,
)
    ensures
        client.phase matches ClientPhase::HandlingSlate { epicboxmsgid, exchange }
            ==> is_handling_step(
            client,
            epicboxmsgid,
            subscribe_next(broker, client, order, reply),
        ),
        (client.phase matches ClientPhase::Decoding { epicboxmsgid, epicboxtxid } ==> ((
        reply matches Reply::Decoded(Ok(_))) ==> is_handling_step(
            client,
            epicboxmsgid,
            subscribe_next(broker, client, order, reply),
        ))),
{
    match (client.phase, reply) {
        (ClientPhase::HandlingSlate { epicboxmsgid, exchange }, _) => {
            lemma_handling_shape(broker, client, epicboxmsgid, exchange, order, reply);
        },
        (ClientPhase::Decoding { epicboxmsgid, epicboxtxid }, Reply::Decoded(Ok(decoded))) => {
            lemma_handling_shape(
                broker,
                client,
                epicboxmsgid,
                SlateExchange::fresh(
                    decoded.from,
                    decoded.slate,
                    preferred_id(None, epicboxtxid, Some(epicboxmsgid))->0,
                ),
                order,
                Reply::Begin,
            );
        },
        _ => {},
    }
}

/// One step of the loop goes from waiting for what was asked to waiting for what is
/// asked.
proof fn lemma_waits_step<P: Publisher>(
    broker: EpicboxBroker,
    client: EpicboxClient<P>,
    order: Seq<String>,
    reply: Reply,
    asked: Option<EffectView>,
)
    requires
        waits_for(client, asked),
    ensures
        ({
            let next = subscribe_next(broker, client, order, reply);
            waits_for(
                next.client,
                if next.step.effects.len() > 0 {
                    Some(next.step.effects.last())
                } else {
                    asked
                },
            )
        }),
{
    lemma_handles(broker, client, order, reply);
    match (client.phase, reply) {
        (ClientPhase::HandlingSlate { epicboxmsgid, exchange }, _) => {
            lemma_handling_waits(broker, client, epicboxmsgid, exchange, order, reply, asked);
        },
        (ClientPhase::Decoding { epicboxmsgid, epicboxtxid }, Reply::Decoded(Ok(decoded))) => {
            lemma_handling_waits(
                broker,
                client,
                epicboxmsgid,
                SlateExchange::fresh(
                    decoded.from,
                    decoded.slate,
                    preferred_id(None, epicboxtxid, Some(epicboxmsgid))->0,
                ),
                order,
                Reply::Begin,
                asked,
            );
            lemma_handling_begins(broker, client, order, reply);
        },
        _ => {},
    }
}

/// The handling of a decoded Slate begins by asking for something.
proof fn lemma_handling_begins<P: Publisher>(
    broker: EpicboxBroker,
    client: EpicboxClient<P>,
    order: Seq<String>,
    reply: Reply,
)
    requires
        client.phase is Decoding,
        reply matches Reply::Decoded(Ok(_)),
    ensures
        ({
            let next = subscribe_next(broker, client, order, reply);
            &&& next.client.phase matches ClientPhase::HandlingSlate { epicboxmsgid, exchange }
            &&& epicboxmsgid == client.phase->Decoding_epicboxmsgid
            &&& !(exchange.phase is Posting)
            &&& next.step.effects.len() == 1
            &&& next.broker == broker
        }),
{
    reveal(handling_next);
}

/// Throughout every run of a new client, the client waits for the reply to the
/// effect that it asked for last.
#[verifier::rlimit(30)]
pub proof fn law_waits_for_last_effect<P: Publisher>(
    client: EpicboxClient<P>,
    inputs: Seq<Input>,
)
    requires
        client.phase is Ready,
    ensures
        waits_for(client_after(client, inputs), last_asked(client, inputs)),
    decreases inputs.len(),
{
    if inputs.len() > 0 {
        let shorter = inputs.drop_last();
        law_waits_for_last_effect(client, shorter);
        lemma_waits_step(
            inputs.last().0,
            client_after(client, shorter),
            inputs.last().1,
            inputs.last().2,
            last_asked(client, shorter),
        );
    }
}

/// The challenge that the relay sent last in a run.
pub open spec fn latest_challenge<P: Publisher>(
    client: EpicboxClient<P>,
    inputs: Seq<Input>,
) -> Option<String>
    decreases inputs.len(),
{
    if inputs.len() == 0 {
        None
    } else {
        let reads = client_after(client, inputs.drop_last()).phase is Reading
            && !inputs.last().0.stopping;
        match response_of(inputs.last().2) {
            Some(ProtocolResponseV2::Challenge { str }) if reads => Some(str),
            _ => latest_challenge(client, inputs.drop_last()),
        }
    }
}

/// The challenge that a new client holds is the one that the relay sent last.
pub proof fn law_challenge_is_the_latest<P: Publisher>(
    client: EpicboxClient<P>,
    inputs: Seq<Input>,
)
    requires
        client.phase is Ready,
        client.challenge is None,
    ensures
        client_after(client, inputs).challenge == latest_challenge(client, inputs),
    decreases inputs.len(),
{
    if inputs.len() > 0 {
        lemma_handles(
            inputs.last().0,
            client_after(client, inputs.drop_last()),
            inputs.last().1,
            inputs.last().2,
        );
        law_challenge_is_the_latest(client, inputs.drop_last());
    }
}

/// A Subscribe goes out only in reply to the signature of the challenge that the
/// relay sent last, and carries that signature.
pub proof fn law_subscribe_answers_latest_challenge<P: Publisher>(
    client: EpicboxClient<P>,
    inputs: Seq<Input>,
    i: int,
    address: Seq<char>,
    ver: Seq<char>,
    signature: Seq<char>,
)
    requires
        client.phase is Ready,
        client.challenge is None,
        0 <= i < inputs.len(),
        client_step(client, inputs, i).step.effects.contains(
            EffectView::Send(RequestV2View::Subscribe { address, ver, signature }),
        ),
    ensures
        inputs[i].2 matches Reply::Signed(Ok(signed)) && signed@ == signature,
        latest_challenge(client, inputs.take(i)) matches Some(challenge) && last_asked(
            client,
            inputs.take(i),
        ) == Some(EffectView::Sign(challenge@)),
{
    lemma_handles(inputs[i].0, client_before(client, inputs, i), inputs[i].1, inputs[i].2);
    law_waits_for_last_effect(client, inputs.take(i));
    law_challenge_is_the_latest(client, inputs.take(i));
}

/// The confirmation of a cancellation is told only once the wallet has been asked
/// to cancel that very transaction and has answered.
pub proof fn law_cancelled_is_told_after_local_cancel<P: Publisher>(
    client: EpicboxClient<P>,
    inputs: Seq<Input>,
    i: int,
    epicboxtxid: String,
)
    requires
        client.phase is Ready,
        0 <= i < inputs.len(),
        client_step(client, inputs, i).step.effects.contains(
            EffectView::Emit(BrokerEvent::Cancelled { epicboxtxid }),
        ),
    ensures
        inputs[i].2 is CancelledLocally,
        last_asked(client, inputs.take(i)) == Some(
            EffectView::CancelLocally { epicboxtxid: epicboxtxid@, slate_id: None },
        ),
{
    lemma_handles(inputs[i].0, client_before(client, inputs, i), inputs[i].1, inputs[i].2);
    law_waits_for_last_effect(client, inputs.take(i));
}

/// A cancellation that the relay confirmed is told whether or not the wallet could
/// cancel the transaction, which may already be finalized or cancelled there.
pub proof fn law_cancellation_is_told_either_way<P: Publisher>(
    broker: EpicboxBroker,
    client: EpicboxClient<P>,
    order: Seq<String>,
    cancelled: Result<(), Error>,
)
    requires
        client.phase is Cancelling,
    ensures
        ({
            let next = subscribe_next(broker, client, order, Reply::CancelledLocally(cancelled));
            let told = BrokerEvent::Cancelled { epicboxtxid: client.phase->Cancelling_epicboxtxid };
            &&& next.step.done is None
            &&& next.step.effects.contains(EffectView::Emit(told))
            &&& next.broker == broker
        }),
{
    let next = subscribe_next(broker, client, order, Reply::CancelledLocally(cancelled));
    let told = BrokerEvent::Cancelled { epicboxtxid: client.phase->Cancelling_epicboxtxid };
    let at: int = if cancelled is Ok {
        0
    } else {
        1
    };
    assert(next.step.effects[at] == EffectView::Emit(told));
}

/// Every response of the relay sets the count of reconnections back, a lost
/// connection adds one to it, and nothing else changes it.
pub proof fn law_reconnections_are_counted<P: Publisher>(
    broker: EpicboxBroker,
    client: EpicboxClient<P>,
    order: Seq<String>,
    reply: Reply,
)
    requires
        client.handler.reconnections < u32::MAX,
    ensures
        subscribe_next(broker, client, order, reply).client.handler.reconnections == (
        if loses_connection(broker, client, reply) {
            client.handler.reconnections + 1
        } else if client.phase is Reading && !broker.stopping && response_of(reply) is Some {
            0
        } else {
            client.handler.reconnections as int
        }),
{
    lemma_handles(broker, client, order, reply);
}

/// An acknowledged post is told only once the wallet has stored an identifier for
/// that very Slate, and with the identifier that the wallet reports.
pub proof fn law_post_ack_is_told_after_storing<P: Publisher>(
    client: EpicboxClient<P>,
    inputs: Seq<Input>,
    i: int,
    slate_id: uuid::Uuid,
    epicboxtxid: String,
)
    requires
        client.phase is Ready,
        0 <= i < inputs.len(),
        client_step(client, inputs, i).step.effects.contains(
            EffectView::Emit(BrokerEvent::PostAck { slate_id, epicboxtxid }),
        ),
    ensures
        inputs[i].2 matches Reply::Stored(Ok(stored)) && stored == epicboxtxid,
        last_asked(client, inputs.take(i)) matches Some(
            EffectView::StoreTxId { slate_id: asked_id, candidate },
        ) && asked_id == slate_id,
{
    lemma_handles(inputs[i].0, client_before(client, inputs, i), inputs[i].1, inputs[i].2);
    law_waits_for_last_effect(client, inputs.take(i));
}

/// Step `j` of a run reads the delivery of a Slate under a per-message identifier.
pub open spec fn delivers<P: Publisher>(
    client: EpicboxClient<P>,
    inputs: Seq<Input>,
    j: int,
    epicboxmsgid: Seq<char>,
) -> bool {
    client_before(client, inputs, j).phase is Reading && !inputs[j].0.stopping && (
    response_of(inputs[j].2) matches Some(ProtocolResponseV2::Slate { epicboxmsgid: id, .. })
        && id@ == epicboxmsgid)
}

/// The response that a reply brings, if any.
pub open spec fn response_of(reply: Reply) -> Option<ProtocolResponseV2> {
    match reply {
        Reply::Read(Ok(Incoming::Text(response))) => response,
        Reply::Read(Ok(Incoming::Binary(response))) => response,
        _ => None,
    }
}

/// Step `k` of a run completes the handling of the Slate that was delivered under
/// the identifier.
pub open spec fn completes_handling<P: Publisher>(
    client: EpicboxClient<P>,
    inputs: Seq<Input>,
    k: int,
    epicboxmsgid: Seq<char>,
) -> bool {
    let before = client_before(client, inputs, k);
    before.phase matches ClientPhase::HandlingSlate { epicboxmsgid: id, exchange } && id@
        == epicboxmsgid && on_slate_next(
        before.handler.tor_config,
        before.handler.publisher.sender(),
        inputs[k].0,
        exchange,
        inputs[k].1,
        inputs[k].2,
    ).step.done == Some(Ok::<(), ErrorView>(()))
}

/// In step `k` of a run the wallet reports the stable identifier that it holds for
/// the Slate that was delivered under the message's identifier.
pub open spec fn learns_stored<P: Publisher>(
    client: EpicboxClient<P>,
    inputs: Seq<Input>,
    k: int,
    epicboxmsgid: Seq<char>,
) -> bool {
    (client_before(client, inputs, k).phase matches ClientPhase::HandlingSlate {
        epicboxmsgid: id,
        exchange,
    } && id@ == epicboxmsgid && exchange.phase is Storing) && (
    inputs[k].2 matches Reply::Stored(Ok(_)))
}

/// The client does not read between step `j` and the end of a run.
pub open spec fn no_read_since<P: Publisher>(
    client: EpicboxClient<P>,
    inputs: Seq<Input>,
    j: int,
) -> bool {
    forall|l: int|
        j < l <= inputs.len() ==> !((#[trigger] client_before(client, inputs, l)).phase is Reading)
}

/// The per-message identifier of the delivered Slate that a phase is about.
spec fn delivered_id(phase: ClientPhase) -> Option<Seq<char>> {
    match phase {
        ClientPhase::Decoding { epicboxmsgid, epicboxtxid } => Some(epicboxmsgid@),
        ClientPhase::HandlingSlate { epicboxmsgid, exchange } => Some(epicboxmsgid@),
        _ => handled_id(phase),
    }
}

/// The same for the phases after the Slate was handled.
spec fn handled_id(phase: ClientPhase) -> Option<Seq<char>> {
    match phase {
        ClientPhase::Signing { renewal: Renewal::AfterSlate { epicboxmsgid } } => Some(
            epicboxmsgid@,
        ),
        ClientPhase::Subscribing { renewal: Renewal::AfterSlate { epicboxmsgid } } => Some(
            epicboxmsgid@,
        ),
        ClientPhase::SigningMade { epicboxmsgid } => Some(epicboxmsgid@),
        _ => None,
    }
}

/// A delivery at step `j` of a run, and nothing read since.
spec fn delivered_at<P: Publisher>(
    client: EpicboxClient<P>,
    inputs: Seq<Input>,
    j: int,
    epicboxmsgid: Seq<char>,
) -> bool {
    0 <= j < inputs.len() && delivers(client, inputs, j, epicboxmsgid) && no_read_since(
        client,
        inputs,
        j,
    )
}

/// What a run says of its earlier steps stands when it grows.
proof fn lemma_prefix<P: Publisher>(client: EpicboxClient<P>, inputs: Seq<Input>)
    requires
        inputs.len() > 0,
    ensures
        forall|i: int|
            0 <= i < inputs.len() ==> #[trigger] client_before(client, inputs.drop_last(), i)
                == client_before(client, inputs, i),
        client_before(client, inputs, inputs.len() as int) == client_after(client, inputs),
        client_before(client, inputs, inputs.len() - 1) == client_after(
            client,
            inputs.drop_last(),
        ),
{
    assert forall|i: int| 0 <= i < inputs.len() implies #[trigger] client_before(
        client,
        inputs.drop_last(),
        i,
    ) == client_before(client, inputs, i) by {
        assert(inputs.drop_last().take(i) =~= inputs.take(i));
    }
    assert(inputs.take(inputs.len() as int) =~= inputs);
    assert(inputs.take(inputs.len() - 1) =~= inputs.drop_last());
}

/// A phase about a delivered Slate goes back to its delivery.
#[verifier::rlimit(30)]
proof fn lemma_delivered<P: Publisher>(client: EpicboxClient<P>, inputs: Seq<Input>)
    requires
        client.phase is Ready,
    ensures
        delivered_id(client_after(client, inputs).phase) matches Some(id) ==> exists|j: int|
            #[trigger] delivered_at(client, inputs, j, id),
    decreases inputs.len(),
{
    if inputs.len() > 0 {
        lemma_handles(
            inputs.last().0,
            client_after(client, inputs.drop_last()),
            inputs.last().1,
            inputs.last().2,
        );
        let shorter = inputs.drop_last();
        lemma_delivered(client, shorter);
        lemma_prefix(client, inputs);
        let before = client_after(client, shorter);
        let after = client_after(client, inputs);
        if let Some(id) = delivered_id(after.phase) {
            if before.phase is Reading {
                assert(delivered_at(client, inputs, inputs.len() - 1, id));
            } else {
                assert(delivered_id(before.phase) == Some(id));
                let j = choose|j: int| #[trigger] delivered_at(client, shorter, j, id);
                assert forall|l: int| j < l <= inputs.len() implies !((#[trigger] client_before(
                    client,
                    inputs,
                    l,
                )).phase is Reading) by {
                    if l < inputs.len() {
                        assert(client_before(client, shorter, l) == client_before(
                            client,
                            inputs,
                            l,
                        ));
                    }
                }
                assert(client_before(client, shorter, j) == client_before(client, inputs, j));
                assert(delivered_at(client, inputs, j, id));
            }
        }
    }
}

/// A phase after the handling of a Slate was entered by completing it, or follows
/// another such phase.
proof fn lemma_handled_step<P: Publisher>(
    broker: EpicboxBroker,
    client: EpicboxClient<P>,
    order: Seq<String>,
    reply: Reply,
    id: Seq<char>,
)
    requires
        handled_id(subscribe_next(broker, client, order, reply).client.phase) == Some(id),
    ensures
        handled_id(client.phase) == Some(id) || (client.phase matches ClientPhase::HandlingSlate {
            epicboxmsgid,
            exchange,
        } && epicboxmsgid@ == id && on_slate_next(
            client.handler.tor_config,
            client.handler.publisher.sender(),
            broker,
            exchange,
            order,
            reply,
        ).step.done == Some(Ok::<(), ErrorView>(()))),
{
    reveal(handling_next);
}

/// A phase after the handling of a Slate goes back to its delivery and to the step
/// that completed it.
#[verifier::rlimit(30)]
proof fn lemma_handled<P: Publisher>(client: EpicboxClient<P>, inputs: Seq<Input>)
    requires
        client.phase is Ready,
    ensures
        handled_id(client_after(client, inputs).phase) matches Some(id) ==> exists|j: int, k: int|
            j < k < inputs.len() && #[trigger] delivered_at(client, inputs, j, id)
                && #[trigger] completes_handling(client, inputs, k, id),
    decreases inputs.len(),
{
    if inputs.len() > 0 {
        let shorter = inputs.drop_last();
        let last = inputs.len() - 1;
        if let Some(id) = handled_id(client_after(client, inputs).phase) {
            lemma_handled(client, shorter);
            lemma_delivered(client, inputs);
            lemma_prefix(client, inputs);
            lemma_handled_step(
                inputs[last].0,
                client_after(client, shorter),
                inputs[last].1,
                inputs[last].2,
                id,
            );
            let j = choose|j: int| #[trigger] delivered_at(client, inputs, j, id);
            assert(client_before(client, inputs, j).phase is Reading);
            if handled_id(client_after(client, shorter).phase) == Some(id) {
                let (j0, k0) = choose|j0: int, k0: int|
                    j0 < k0 < shorter.len() && #[trigger] delivered_at(client, shorter, j0, id)
                        && #[trigger] completes_handling(client, shorter, k0, id);
                assert(client_before(client, shorter, k0) == client_before(client, inputs, k0));
                assert(completes_handling(client, inputs, k0, id));
                // The client has not read since `j0`, so the last delivery is `j0`.
                if j > j0 {
                    assert(client_before(client, shorter, j) == client_before(client, inputs, j));
                    assert(false);
                }
            } else {
                assert(completes_handling(client, inputs, last, id));
                assert(j != last);
            }
        }
    }
}

/// A Made acknowledges exactly the per-message identifier of a Slate that was
/// delivered before it and handled since, with no other message read in between.
pub proof fn law_made_acknowledges_a_handled_slate<P: Publisher>(
    client: EpicboxClient<P>,
    inputs: Seq<Input>,
    i: int,
    address: Seq<char>,
    signature: Seq<char>,
    ver: Seq<char>,
    epicboxmsgid: Seq<char>,
)
    requires
        client.phase is Ready,
        0 <= i < inputs.len(),
        client_step(client, inputs, i).step.effects.contains(
            EffectView::Send(RequestV2View::Made { address, signature, ver, epicboxmsgid }),
        ),
    ensures
        exists|j: int, k: int|
            0 <= j < k < i && #[trigger] delivers(client, inputs, j, epicboxmsgid)
                && #[trigger] completes_handling(client, inputs, k, epicboxmsgid) && no_read_since(
                client,
                inputs.take(i),
                j,
            ),
{
    lemma_handles(inputs[i].0, client_before(client, inputs, i), inputs[i].1, inputs[i].2);
    let run = inputs.take(i);
    lemma_handled(client, run);
    let id = handled_id(client_after(client, run).phase)->0;
    assert(id == epicboxmsgid);
    let (j, k) = choose|j: int, k: int|
        j < k < run.len() && #[trigger] delivered_at(client, run, j, id)
            && #[trigger] completes_handling(client, run, k, id);
    assert(run.take(j) =~= inputs.take(j));
    assert(run.take(k) =~= inputs.take(k));
    assert(delivers(client, inputs, j, epicboxmsgid));
    assert(completes_handling(client, inputs, k, epicboxmsgid));
}

/// A phase past the storing of a Slate's identifier goes back to that storing.
#[verifier::rlimit(60)]
proof fn lemma_stored<P: Publisher>(client: EpicboxClient<P>, inputs: Seq<Input>)
    requires
        client.phase is Ready,
    ensures
        stored_id(client_after(client, inputs).phase) matches Some(id) ==> exists|k: int|
            0 <= k < inputs.len() && #[trigger] learns_stored(client, inputs, k, id),
    decreases inputs.len(),
{
    if inputs.len() > 0 {
        let shorter = inputs.drop_last();
        let last = inputs.len() - 1;
        if let Some(id) = stored_id(client_after(client, inputs).phase) {
            lemma_stored(client, shorter);
            lemma_prefix(client, inputs);
            law_waits_for_last_effect(client, shorter);
            lemma_stored_step(
                inputs[last].0,
                client_after(client, shorter),
                inputs[last].1,
                inputs[last].2,
                last_asked(client, shorter),
                id,
            );
            if stored_id(client_after(client, shorter).phase) == Some(id) {
                let k = choose|k: int|
                    0 <= k < shorter.len() && #[trigger] learns_stored(client, shorter, k, id);
                assert(client_before(client, shorter, k) == client_before(client, inputs, k));
                assert(learns_stored(client, inputs, k, id));
            } else {
                assert(learns_stored(client, inputs, last, id));
            }
        }
    }
}

/// The per-message identifier of the Slate whose identifier was stored, in the phases
/// after that.
spec fn stored_id(phase: ClientPhase) -> Option<Seq<char>> {
    match phase {
        ClientPhase::HandlingSlate { epicboxmsgid, exchange } => if exchange.phase is Posting {
            Some(epicboxmsgid@)
        } else {
            None
        },
        _ => handled_id(phase),
    }
}

/// A phase past the storing was entered by it, or follows another such phase.
proof fn lemma_stored_step<P: Publisher>(
    broker: EpicboxBroker,
    client: EpicboxClient<P>,
    order: Seq<String>,
    reply: Reply,
    asked: Option<EffectView>,
    id: Seq<char>,
)
    requires
        waits_for(client, asked),
        stored_id(subscribe_next(broker, client, order, reply).client.phase) == Some(id),
    ensures
        stored_id(client.phase) == Some(id) || ((client.phase matches ClientPhase::HandlingSlate {
            epicboxmsgid,
            exchange,
        } && epicboxmsgid@ == id && exchange.phase is Storing) && (
        reply matches Reply::Stored(Ok(_)))),
{
    reveal(handling_next);
}

/// A Made goes out only once the wallet has reported the stable identifier that it
/// holds for the Slate delivered under that message.
pub proof fn law_made_follows_a_stored_identifier<P: Publisher>(
    client: EpicboxClient<P>,
    inputs: Seq<Input>,
    i: int,
    address: Seq<char>,
    signature: Seq<char>,
    ver: Seq<char>,
    epicboxmsgid: Seq<char>,
)
    requires
        client.phase is Ready,
        0 <= i < inputs.len(),
        client_step(client, inputs, i).step.effects.contains(
            EffectView::Send(RequestV2View::Made { address, signature, ver, epicboxmsgid }),
        ),
    ensures
        exists|k: int| 0 <= k < i && #[trigger] learns_stored(client, inputs, k, epicboxmsgid),
{
    lemma_handles(inputs[i].0, client_before(client, inputs, i), inputs[i].1, inputs[i].2);
    let run = inputs.take(i);
    lemma_stored(client, run);
    assert(handled_id(client_after(client, run).phase) == Some(epicboxmsgid));
    let k = choose|k: int|
        0 <= k < run.len() && #[trigger] learns_stored(client, run, k, epicboxmsgid);
    assert(run.take(k) =~= inputs.take(k));
    assert(learns_stored(client, inputs, k, epicboxmsgid));
}

/// A client that is between two messages.
pub open spec fn between_messages<P: Publisher>(client: EpicboxClient<P>) -> bool {
    client.phase is CheckingNode || client.phase is Reading
}

/// A Slate that could not be decoded, processed or stored is not acknowledged: the
/// failure is reported and the client goes on to the next message, with nothing
/// sent.
pub proof fn law_failed_slate_is_dropped<P: Publisher>(
    broker: EpicboxBroker,
    client: EpicboxClient<P>,
    order: Seq<String>,
    reply: Reply,
    error: ErrorView,
)
    requires
        (client.phase matches ClientPhase::HandlingSlate { epicboxmsgid, exchange }
            && on_slate_next(
            client.handler.tor_config,
            client.handler.publisher.sender(),
            broker,
            exchange,
            order,
            reply,
        ).step.done == Some(Err::<(), ErrorView>(error))) || (client.phase is Decoding && (
        reply matches Reply::Decoded(Err(e)) && e@ == error)),
    ensures
        between_messages(subscribe_next(broker, client, order, reply).client),
        subscribe_next(broker, client, order, reply).step == StepView::<()>::tell_and_ask(
            EffectView::Report(error),
            EffectView::CheckNode,
        ),
{
    reveal(handling_next);
}

/// From between two messages on, no Made goes out before another Slate is
/// delivered.
pub proof fn law_no_made_without_another_slate<P: Publisher>(
    client: EpicboxClient<P>,
    inputs: Seq<Input>,
    i: int,
    address: Seq<char>,
    signature: Seq<char>,
    ver: Seq<char>,
    epicboxmsgid: Seq<char>,
)
    requires
        between_messages(client),
        0 <= i < inputs.len(),
        forall|l: int|
            0 <= l < i ==> !(response_of((#[trigger] inputs[l]).2) matches Some(
                ProtocolResponseV2::Slate { .. },
            )),
    ensures
        !client_step(client, inputs, i).step.effects.contains(
            EffectView::Send(RequestV2View::Made { address, signature, ver, epicboxmsgid }),
        ),
{
    lemma_handles(inputs[i].0, client_before(client, inputs, i), inputs[i].1, inputs[i].2);
    lemma_no_slate(client, inputs.take(i));
}

/// Without a delivery no phase is about a delivered Slate.
proof fn lemma_no_slate<P: Publisher>(client: EpicboxClient<P>, inputs: Seq<Input>)
    requires
        delivered_id(client.phase) is None,
        forall|l: int|
            0 <= l < inputs.len() ==> !(response_of((#[trigger] inputs[l]).2) matches Some(
                ProtocolResponseV2::Slate { .. },
            )),
    ensures
        delivered_id(client_after(client, inputs).phase) is None,
    decreases inputs.len(),
{
    if inputs.len() > 0 {
        lemma_handles(
            inputs.last().0,
            client_after(client, inputs.drop_last()),
            inputs.last().1,
            inputs.last().2,
        );
        assert forall|l: int| 0 <= l < inputs.drop_last().len() implies !(response_of(
            (#[trigger] inputs.drop_last()[l]).2,
        ) matches Some(ProtocolResponseV2::Slate { .. })) by {
            assert(inputs.drop_last()[l] == inputs[l]);
        }
        lemma_no_slate(client, inputs.drop_last());
        assert(inputs[inputs.len() - 1] == inputs.last());
    }
}

/// The wallet introduces itself before it subscribes: no Subscribe of a new
/// client goes out while its details are still to be sent.
pub proof fn law_details_precede_subscription<P: Publisher>(
    client: EpicboxClient<P>,
    inputs: Seq<Input>,
    i: int,
    address: Seq<char>,
    ver: Seq<char>,
    signature: Seq<char>,
)
    requires
        client.phase is Ready,
        client.challenge is None,
        0 <= i < inputs.len(),
        client_step(client, inputs, i).step.effects.contains(
            EffectView::Send(RequestV2View::Subscribe { address, ver, signature }),
        ),
    ensures
        !client_before(client, inputs, i).first_run,
{
    lemma_handles(inputs[i].0, client_before(client, inputs, i), inputs[i].1, inputs[i].2);
    lemma_introduced(client, inputs.take(i));
}

/// A client that has a challenge and is past sending its details has sent them.
proof fn lemma_introduced<P: Publisher>(client: EpicboxClient<P>, inputs: Seq<Input>)
    requires
        client.phase is Ready,
        client.challenge is None,
    ensures
        ({
            let after = client_after(client, inputs);
            &&& after.challenge is Some ==> !after.first_run || after.phase is SendingDetails
                || after.phase is Ended
            &&& after.phase is Signing ==> after.challenge is Some
            &&& after.phase is SendingDetails ==> after.challenge is Some
        }),
    decreases inputs.len(),
{
    if inputs.len() > 0 {
        lemma_handles(
            inputs.last().0,
            client_after(client, inputs.drop_last()),
            inputs.last().1,
            inputs.last().2,
        );
        lemma_introduced(client, inputs.drop_last());
    }
}

/// A plain Ok answers other requests: it consumes no pending acknowledgement and
/// has no effect but to go on.
pub proof fn law_plain_ok_keeps_pending_post<P: Publisher>(
    broker: EpicboxBroker,
    client: EpicboxClient<P>,
    order: Seq<String>,
    reply: Reply,
)
    requires
        client.phase is Reading,
        !broker.stopping,
        response_of(reply) == Some(
            ProtocolResponseV2::Okay { epicboxmsgid: None, epicboxtxid: None },
        ),
    ensures
        subscribe_next(broker, client, order, reply).broker == broker,
        subscribe_next(broker, client, order, reply).step == StepView::<()>::ask(EffectView::CheckNode),
{
}

/// An Ok with an identifier acknowledges the pending post, once: a transaction
/// that already has an identifier keeps it whatever the relay returns; a new one
/// takes the relay's stable identifier, or else the per-message one.
pub proof fn law_ack_prefers_known_identifier<P: Publisher>(
    broker: EpicboxBroker,
    client: EpicboxClient<P>,
    order: Seq<String>,
    reply: Reply,
    epicboxmsgid: Option<String>,
    epicboxtxid: Option<String>,
)
    requires
        client.phase is Reading,
        !broker.stopping,
        broker.pending_post is Some,
        epicboxmsgid is Some || epicboxtxid is Some,
        response_of(reply) == Some(ProtocolResponseV2::Okay { epicboxmsgid, epicboxtxid }),
    ensures
        ({
            let pending = broker.pending_post->0;
            let next = subscribe_next(broker, client, order, reply);
            let candidate = match (pending.epicboxtxid, epicboxtxid, epicboxmsgid) {
                (Some(known), _, _) => known@,
                (None, Some(stable), _) => stable@,
                (None, None, Some(message)) => message@,
                (None, None, None) => seq![],
            };
            &&& next.broker == EpicboxBroker { pending_post: None, ..broker }
            &&& next.step == StepView::<()>::ask(
                EffectView::StoreTxId { slate_id: pending.slate_id, candidate },
            )
        }),
{
}

/// A delivered Slate is handled under the relay's stable identifier, or else under
/// the message's own.
pub proof fn law_delivery_prefers_stable_identifier<P: Publisher>(
    broker: EpicboxBroker,
    client: EpicboxClient<P>,
    order: Seq<String>,
    reply: Reply,
    epicboxmsgid: String,
    epicboxtxid: Option<String>,
)
    requires
        client.phase == (ClientPhase::Decoding { epicboxmsgid, epicboxtxid }),
        reply matches Reply::Decoded(Ok(_)),
    ensures
        ({
            let next = subscribe_next(broker, client, order, reply);
            &&& next.client.phase matches ClientPhase::HandlingSlate { epicboxmsgid: id, exchange }
            &&& id == epicboxmsgid
            &&& exchange.from == reply->Decoded_0->Ok_0.from
            &&& exchange.tx_slate_id == reply->Decoded_0->Ok_0.slate.id
            &&& exchange.candidate_epicboxtxid == (match epicboxtxid {
                Some(stable) => stable,
                None => epicboxmsgid,
            })
        }),
{
    reveal(handling_next);
}

/// A Made that could not be sent is reported in these words, is not told, and the
/// client goes on; one that was sent is told.
pub proof fn law_unsent_made_is_reported<P: Publisher>(
    broker: EpicboxBroker,
    client: EpicboxClient<P>,
    order: Seq<String>,
    sent: Result<(), String>,
)
    requires
        client.phase is SendingMade,
    ensures
        subscribe_next(broker, client, order, Reply::Sent(sent)).step == StepView::<
            (),
        >::tell_and_ask(
            match sent {
                Ok(_) => EffectView::Emit(BrokerEvent::Made),
                Err(text) => EffectView::Report(
                    ErrorView::EpicboxTungstenite("Could not send 'Made' request! "@ + text@),
                ),
            },
            EffectView::CheckNode,
        ),
        between_messages(subscribe_next(broker, client, order, Reply::Sent(sent)).client),
{
}

/// The relay is read only once the node has been found to be synced, each time anew.
pub proof fn law_reads_only_while_synced<P: Publisher>(
    broker: EpicboxBroker,
    client: EpicboxClient<P>,
    order: Seq<String>,
    reply: Reply,
)
    requires
        subscribe_next(broker, client, order, reply).step.effects.contains(EffectView::Read),
    ensures
        client.phase is CheckingNode,
        reply == Reply::NodeSynced(true),
{
    lemma_handles(broker, client, order, reply);
}

/// A session that is to stop ends normally after its current read, whatever that
/// read gave, and leaves the broker as it is.
pub proof fn law_stop_ends_the_loop<P: Publisher>(
    broker: EpicboxBroker,
    client: EpicboxClient<P>,
    order: Seq<String>,
    read: Result<Incoming, ReadError>,
)
    requires
        client.phase is Reading,
        broker.stopping,
    ensures
        ({
            let next = subscribe_next(broker, client, order, Reply::Read(read));
            &&& next.broker == broker
            &&& next.client == client.at(ClientPhase::Ended)
            &&& next.step == (StepView {
                effects: seq![EffectView::OnClose(CloseReason::Normal)],
                done: Some(Ok::<(), ErrorView>(())),
            })
        }),
{
}

/// The loop ends exactly when it reports its outcome, and an ended loop does
/// nothing more.
pub proof fn law_ended_loop_stays_ended<P: Publisher>(
    broker: EpicboxBroker,
    client: EpicboxClient<P>,
    order: Seq<String>,
    reply: Reply,
)
    ensures
        client.phase is Ended ==> subscribe_next(broker, client, order, reply) == (SubscribeNext {
            broker,
            client,
            step: StepView::<()>::idle(),
        }),
        !(client.phase is Ended) ==> (subscribe_next(broker, client, order, reply).client.phase is Ended
            <==> subscribe_next(broker, client, order, reply).step.done is Some),
{
    lemma_handles(broker, client, order, reply);
}

/// The loop never takes a subscription back, and marks the connection as
/// subscribed only once a Subscribe that answers a challenge was sent, which it
/// then tells. Nor does it ever change whether the session is to stop.
pub proof fn law_subscription_is_told<P: Publisher>(
    client: EpicboxClient<P>,
    inputs: Seq<Input>,
    i: int,
)
    requires
        client.phase is Ready,
        0 <= i < inputs.len(),
    ensures
        ({
            let broker = inputs[i].0;
            let next = client_step(client, inputs, i);
            let sent = client_before(client, inputs, i).phase == (ClientPhase::Subscribing {
                renewal: Renewal::Challenged,
            }) && (inputs[i].2 matches Reply::Sent(Ok(_)));
            &&& next.broker.stopping == broker.stopping
            &&& next.broker.subscribed == (broker.subscribed || sent)
            &&& sent <==> next.step.effects.contains(EffectView::Emit(BrokerEvent::Subscribed))
        }),
{
    law_waits_for_last_effect(client, inputs.take(i));
    lemma_subscription_step(
        inputs[i].0,
        client_before(client, inputs, i),
        inputs[i].1,
        inputs[i].2,
    );
}

/// What one step does to the subscription and the stopping.
pub(crate) proof fn lemma_subscription_step<P: Publisher>(
    broker: EpicboxBroker,
    client: EpicboxClient<P>,
    order: Seq<String>,
    reply: Reply,
)
    requires
        keeps_open(client.phase),
    ensures
        ({
            let next = subscribe_next(broker, client, order, reply);
            let sent = client.phase == (ClientPhase::Subscribing { renewal: Renewal::Challenged })
                && (reply matches Reply::Sent(Ok(_)));
            &&& keeps_open(next.client.phase)
            &&& next.broker.stopping == broker.stopping
            &&& next.broker.subscribed == (broker.subscribed || sent)
            &&& sent <==> next.step.effects.contains(EffectView::Emit(BrokerEvent::Subscribed))
        }),
{
    reveal(handling_next);
    lemma_handles(broker, client, order, reply);
    let next = subscribe_next(broker, client, order, reply);
    if client.phase == (ClientPhase::Subscribing { renewal: Renewal::Challenged }) && (
    reply matches Reply::Sent(Ok(_))) {
        assert(next.step.effects[0] == EffectView::Emit(BrokerEvent::Subscribed));
    }
}

/// A response that the phase is posting leaves the connection open.
pub open spec fn keeps_open(phase: ClientPhase) -> bool {
    phase matches ClientPhase::HandlingSlate { epicboxmsgid, exchange } ==> (
    exchange.phase matches ExchangePhase::Posting(post) ==> !post.close_connection)
}

} // verus!
