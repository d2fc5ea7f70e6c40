//! What each task does, from its first effect to its outcome: the effects that go out,
//! in terms of what the task is about and of the replies, for every broker that its
//! steps may find in between.
use crate::broker::{
    post_cancel_tx_next, BrokerEvent, CancelPhase, CancelTx, EpicboxBroker, PendingPost, PostPhase,
    PostSlate,
};
use crate::channel::{wait_for_next, WaitPhase, Want};
use crate::controller::{
    incoming_next, on_slate_next, publish_next, ExchangePhase, IncomingPhase, IncomingSlate,
    SlateExchange,
};
use crate::effect::{EffectView, FinalizedSlate, Reply, StepView};
use crate::error::{Error, ErrorView};
use crate::listener::{publish_to_next, Publish, PublishPhase};
use crate::protocol::{RequestV2View, RequestView};
use crate::wallet::{EpicboxAddress, Slate, TorConfig};
use vstd::prelude::*;

verus! {

/// The step asks for one effect and the task goes on.
pub open spec fn asks<T>(step: StepView<T>, effect: EffectView) -> bool {
    step.effects == seq![effect] && step.done is None
}

/// The step asks for two effects and the task goes on.
pub open spec fn asks_both<T>(step: StepView<T>, first: EffectView, second: EffectView) -> bool {
    step.effects == seq![first, second] && step.done is None
}

/// The task is over with nothing left to do.
pub open spec fn is_over<T>(step: StepView<T>, outcome: Result<T, ErrorView>) -> bool {
    step.effects == Seq::<EffectView>::empty() && step.done == Some(outcome)
}

/// A post seals its Slate for its destination, signs the sealed message and, where the
/// transaction has an identifier, signs that too. Where no acknowledgement is pending it
/// then sends the request with exactly these and is itself pending. It succeeds once
/// sent, and stops the subscriber exactly where the connection was to close; it fails
/// with the transport's words otherwise, and is then not pending any more.
pub proof fn law_post_sends_the_sealed_slate(
    brokers: (EpicboxBroker, EpicboxBroker, EpicboxBroker, EpicboxBroker, EpicboxBroker),
    post: PostSlate,
    from: EpicboxAddress,
    message: String,
    signature: String,
    id_signature: String,
    text: String,
)
    requires
        post.phase is Ready,
        post.epicboxtxid is None ==> brokers.2.pending_post is None,
        post.epicboxtxid is Some ==> brokers.3.pending_post is None,
    ensures
        ({
            let sealing = publish_next(brokers.0, post, from, Reply::Begin);
            let signing = publish_next(
                brokers.1,
                sealing.post,
                from,
                Reply::Sealed(Ok(message)),
            );
            let signed = publish_next(
                brokers.2,
                signing.post,
                from,
                Reply::Signed(Ok(signature)),
            );
            let known = post.epicboxtxid is Some;
            let found = if known {
                brokers.3
            } else {
                brokers.2
            };
            let sent = if known {
                publish_next(brokers.3, signed.post, from, Reply::Signed(Ok(id_signature)))
            } else {
                signed
            };
            let done = publish_next(brokers.4, sent.post, from, Reply::Sent(Ok(())));
            let failed = publish_next(brokers.4, sent.post, from, Reply::Sent(Err(text)));
            &&& asks(
                sealing.step,
                EffectView::Seal { slate: post.slate, to: post.to, version: post.version },
            )
            &&& sealing.broker == brokers.0
            &&& asks(signing.step, EffectView::Sign(message@))
            &&& signing.broker == brokers.1
            &&& known ==> asks(signed.step, EffectView::Sign(post.epicboxtxid->0@))
                && signed.broker == brokers.2
            &&& asks(
                sent.step,
                EffectView::Post(
                    RequestView::PostSlate {
                        from: from.stripped@,
                        to: post.to.stripped@,
                        str: message@,
                        signature: signature@,
                        epicboxtxid: if known {
                            Some(post.epicboxtxid->0@)
                        } else {
                            None
                        },
                        epicboxtxidsig: if known {
                            Some(id_signature@)
                        } else {
                            None
                        },
                    },
                ),
            )
            &&& sent.broker == EpicboxBroker {
                pending_post: Some(
                    PendingPost { slate_id: post.slate.id, epicboxtxid: post.epicboxtxid },
                ),
                ..found
            }
            &&& is_over(done.step, Ok(()))
            &&& done.broker == EpicboxBroker {
                stopping: brokers.4.stopping || post.close_connection,
                ..brokers.4
            }
            &&& is_over(
                failed.step,
                Err(ErrorView::EpicboxTungstenite("Could not send PostSlate: "@ + text@)),
            )
            &&& failed.broker == EpicboxBroker { pending_post: None, ..brokers.4 }
        }),
{
}

/// A post that cannot seal or sign fails with the wallet's error, and one that finds an
/// acknowledgement pending is refused; the broker is then as it was. A reply that a post
/// does not wait for changes nothing.
pub proof fn law_post_fails_with_the_wallets_error(
    broker: EpicboxBroker,
    post: PostSlate,
    from: EpicboxAddress,
    reply: Reply,
    error: Error,
)
    ensures
        ({
            let next = publish_next(broker, post, from, reply);
            &&& post.phase is Sealing && reply == Reply::Sealed(Err(error)) ==> is_over(
                next.step,
                Err(error@),
            ) && next.broker == broker && next.post.phase is Done
            &&& (post.phase is SigningMessage || post.phase is SigningId) && reply == Reply::Signed(
                Err(error),
            ) ==> is_over(next.step, Err(error@)) && next.broker == broker && next.post.phase is Done
            &&& (post.phase is SigningId || (post.phase is SigningMessage && post.epicboxtxid is None))
                && (reply matches Reply::Signed(Ok(_))) && broker.pending_post is Some ==> is_over(
                next.step,
                Err(
                    ErrorView::EpicboxTungstenite(
                        "Cannot post a second Slate while a relay acknowledgement is pending"@,
                    ),
                ),
            ) && next.broker == broker && next.post.phase is Done
            &&& !post_awaits(post.phase, reply) ==> next.broker == broker && next.post == post
                && next.step.effects.len() == 0 && next.step.done is None
            &&& next.post == PostSlate { phase: next.post.phase, ..post }
        }),
{
}

/// The reply is of the kind that a post waits for.
pub open spec fn post_awaits(phase: PostPhase, reply: Reply) -> bool {
    match phase {
        PostPhase::Ready => reply is Begin,
        PostPhase::Sealing => reply is Sealed,
        PostPhase::SigningMessage { message } => reply is Signed,
        PostPhase::SigningId { message, signature } => reply is Signed,
        PostPhase::Sending => reply is Sent,
        PostPhase::Done => false,
    }
}

/// On a subscribed connection a cancellation signs the identifier, sends the request with
/// it and succeeds once sent, or fails with the wallet's error or the transport's words.
/// Without a subscription it is refused at once.
pub proof fn law_cancel_tx_sends_the_request(
    brokers: (EpicboxBroker, EpicboxBroker, EpicboxBroker),
    cancel: CancelTx,
    from: EpicboxAddress,
    signature: String,
    error: Error,
    text: String,
)
    requires
        cancel.phase is Ready,
    ensures
        ({
            let signing = post_cancel_tx_next(brokers.0, cancel, from, Reply::Begin);
            let sent = post_cancel_tx_next(
                brokers.1,
                signing.cancel,
                from,
                Reply::Signed(Ok(signature)),
            );
            let unsigned = post_cancel_tx_next(
                brokers.1,
                signing.cancel,
                from,
                Reply::Signed(Err(error)),
            );
            let done = post_cancel_tx_next(brokers.2, sent.cancel, from, Reply::Sent(Ok(())));
            let failed = post_cancel_tx_next(brokers.2, sent.cancel, from, Reply::Sent(Err(text)));
            &&& !brokers.0.subscribed ==> is_over(
                signing.step,
                Err(
                    ErrorView::EpicboxTungstenite(
                        "CancelTx requires an active Epicbox subscription on this connection"@,
                    ),
                ),
            ) && signing.cancel.phase is Done
            &&& brokers.0.subscribed ==> {
                &&& asks(signing.step, EffectView::Sign(cancel.epicboxtxid@))
                &&& asks(
                    sent.step,
                    EffectView::Send(
                        RequestV2View::CancelTx {
                            address: from.public_key@,
                            epicboxtxid: cancel.epicboxtxid@,
                            signature: signature@,
                        },
                    ),
                )
                &&& is_over(unsigned.step, Err(error@))
                &&& is_over(done.step, Ok(()))
                &&& is_over(
                    failed.step,
                    Err(ErrorView::EpicboxTungstenite("Could not send CancelTx: "@ + text@)),
                )
            }
        }),
{
}

/// A cancellation changes nothing on a reply that it does not wait for, and is always
/// about the same transaction.
pub proof fn law_cancel_tx_awaits_its_replies(
    broker: EpicboxBroker,
    cancel: CancelTx,
    from: EpicboxAddress,
    reply: Reply,
)
    ensures
        ({
            let next = post_cancel_tx_next(broker, cancel, from, reply);
            let awaited = match cancel.phase {
                CancelPhase::Ready => reply is Begin,
                CancelPhase::Signing => reply is Signed,
                CancelPhase::Sending => reply is Sent,
                CancelPhase::Done => false,
            };
            &&& next.cancel.epicboxtxid == cancel.epicboxtxid
            &&& !awaited ==> next.cancel == cancel && next.step.effects.len() == 0
                && next.step.done is None
        }),
{
}

/// A Slate that lacks a participant's data is received in the name of where it came
/// from, and the outcome is that it is not finalized; the Slate goes on as the wallet
/// gave it back. Where the wallet refuses, its words are the error. A Slate without
/// inputs is left as it is.
pub proof fn law_incomplete_slate_is_received(
    tor_config: TorConfig,
    incoming: IncomingSlate,
    order: Seq<String>,
    received: Slate,
    text: String,
)
    requires
        incoming.phase is Ready,
        incoming.slate.num_participants > incoming.slate.participant_data,
    ensures
        ({
            let asked = incoming_next(tor_config, incoming, order, Reply::Begin);
            let done = incoming_next(
                tor_config,
                asked.incoming,
                order,
                Reply::Received(Ok(received)),
            );
            let refused = incoming_next(
                tor_config,
                asked.incoming,
                order,
                Reply::Received(Err(text)),
            );
            &&& !incoming.slate.has_inputs ==> is_over(asked.step, Ok(false))
                && asked.incoming.slate == incoming.slate
            &&& incoming.slate.has_inputs ==> {
                &&& asks(
                    asked.step,
                    EffectView::ReceiveTx {
                        slate: incoming.slate,
                        address: match incoming.address {
                            Some(address) => Some(address@),
                            None => None,
                        },
                    },
                )
                &&& is_over(done.step, Ok(false))
                &&& done.incoming.slate == received
                &&& is_over(refused.step, Err(ErrorView::EpicboxReceiveTx(text@)))
            }
        }),
{
}

/// A complete Slate is finalized and posted: over Tor to the first node in order exactly
/// where the Tor listener is in use and a node is known, to the wallet's node otherwise
/// and where Tor fails. It is then awaited in the mempool, once a second up to 240 times,
/// and marked where it got there; it counts as finalized either way.
pub proof fn law_complete_slate_is_finalized_and_posted(
    tor_config: TorConfig,
    incoming: IncomingSlate,
    orders: (Seq<String>, Seq<String>),
    finalized: FinalizedSlate,
    found: Result<bool, Error>,
    error: Error,
)
    requires
        incoming.phase is Ready,
        incoming.slate.num_participants <= incoming.slate.participant_data,
    ensures
        ({
            let any = orders.1;
            let over_tor = tor_config.use_tor_listener && orders.0.len() > 0;
            let to_node = EffectView::PostTx { slate: finalized.slate, fluff: false };
            let asked = incoming_next(tor_config, incoming, any, Reply::Begin);
            let posting = incoming_next(
                tor_config,
                asked.incoming,
                orders.0,
                Reply::Finalized(Ok(finalized)),
            );
            let fallen_back = incoming_next(
                tor_config,
                posting.incoming,
                any,
                Reply::Posted(Err(error)),
            );
            let waiting = incoming_next(
                tor_config,
                posting.incoming,
                any,
                Reply::Posted(Ok(())),
            );
            let waiting_too = incoming_next(
                tor_config,
                fallen_back.incoming,
                any,
                Reply::Posted(Ok(())),
            );
            let not_posted = incoming_next(
                tor_config,
                fallen_back.incoming,
                any,
                Reply::Posted(Err(error)),
            );
            let seen = incoming_next(
                tor_config,
                waiting.incoming,
                any,
                Reply::InMempool(found),
            );
            let marked = incoming_next(
                tor_config,
                seen.incoming,
                any,
                Reply::MempoolUpdated(Ok(())),
            );
            let not_marked = incoming_next(
                tor_config,
                seen.incoming,
                any,
                Reply::MempoolUpdated(Err(error)),
            );
            let not_finalized = incoming_next(
                tor_config,
                asked.incoming,
                any,
                Reply::Finalized(Err(error)),
            );
            let await_it = EffectView::WaitForTxInMempool {
                slate_id: finalized.slate.id,
                interval_secs: 1,
                attempts: 240,
            };
            &&& asks(asked.step, EffectView::FinalizeTx(incoming.slate))
            &&& is_over(not_finalized.step, Err(error@))
            &&& over_tor ==> asks(
                posting.step,
                EffectView::PostTxTor { slate: finalized.slate, url: orders.0[0]@ },
            ) && asks(fallen_back.step, to_node) && asks(waiting_too.step, await_it) && is_over(
                not_posted.step,
                Err(error@),
            )
            &&& !over_tor ==> asks(posting.step, to_node) && is_over(fallen_back.step, Err(error@))
            &&& asks(waiting.step, await_it)
            &&& found == Ok::<bool, Error>(true) ==> asks(
                seen.step,
                EffectView::UpdateMempoolStatus(finalized.slate),
            ) && is_over(marked.step, Ok(true)) && is_over(not_marked.step, Err(error@))
            &&& found != Ok::<bool, Error>(true) ==> is_over(seen.step, Ok(true))
            &&& seen.incoming.slate == incoming.slate
            &&& marked.incoming.slate == incoming.slate
        }),
{
}

/// The fallen-back post reaches the same end as a direct one.
pub proof fn law_fallen_back_post_waits_alike(
    tor_config: TorConfig,
    incoming: IncomingSlate,
    order: Seq<String>,
    finalized: Slate,
    error: Error,
)
    requires
        incoming.phase == (IncomingPhase::PostingTor { finalized }),
    ensures
        ({
            let fallen_back = incoming_next(tor_config, incoming, order, Reply::Posted(Err(error)));
            incoming_next(tor_config, fallen_back.incoming, order, Reply::Posted(Ok(())))
                == incoming_next(tor_config, incoming, order, Reply::Posted(Ok(())))
        }),
{
}

/// The processing of a Slate changes nothing on a reply that it does not wait for.
pub proof fn law_incoming_awaits_its_replies(
    tor_config: TorConfig,
    incoming: IncomingSlate,
    order: Seq<String>,
    reply: Reply,
)
    ensures
        ({
            let next = incoming_next(tor_config, incoming, order, reply);
            let awaited = match incoming.phase {
                IncomingPhase::Ready => reply is Begin,
                IncomingPhase::Receiving => reply is Received,
                IncomingPhase::Finalizing => reply is Finalized,
                IncomingPhase::PostingTor { finalized } => reply is Posted,
                IncomingPhase::Posting { finalized } => reply is Posted,
                IncomingPhase::Waiting { finalized } => reply is InMempool,
                IncomingPhase::Updating => reply is MempoolUpdated,
                IncomingPhase::Done => false,
            };
            &&& next.incoming.address == incoming.address
            &&& !awaited ==> next.incoming == incoming && next.step.effects.len() == 0
                && next.step.done is None
        }),
{
}

/// The handling of a delivered Slate does with it what its processing does, as long as
/// that lasts, and touches no broker meanwhile. A failure of the processing is the
/// outcome; otherwise the candidate is stored for the delivered Slate.
pub proof fn law_handling_processes_then_stores(
    tor_config: TorConfig,
    sender: EpicboxAddress,
    broker: EpicboxBroker,
    exchange: SlateExchange,
    order: Seq<String>,
    reply: Reply,
)
    requires
        exchange.phase is Processing,
    ensures
        ({
            let processed = incoming_next(tor_config, exchange.phase->Processing_0, order, reply);
            let next = on_slate_next(tor_config, sender, broker, exchange, order, reply);
            &&& next.broker == broker
            &&& match processed.step.done {
                None => next.step.effects == processed.step.effects && next.step.done is None
                    && next.exchange.phase == ExchangePhase::Processing(processed.incoming),
                Some(Err(error)) => is_over(next.step, Err(error)) && next.exchange.phase is Done,
                Some(Ok(finalized)) => asks(
                    next.step,
                    EffectView::StoreTxId {
                        slate_id: exchange.tx_slate_id,
                        candidate: exchange.candidate_epicboxtxid@,
                    },
                ) && next.exchange.phase == (ExchangePhase::Storing {
                    finalized,
                    slate: processed.incoming.slate,
                }),
            }
        }),
{
}

/// Once the identifier is stored, a finalized transaction is done with; for any other the
/// Slate goes back to where it came from as a post of its own, in the version in which it
/// came, with the stored identifier and leaving the connection open, and the handling
/// ends as that post does. A failure to store is the outcome.
pub proof fn law_handling_responds_with_the_stored_identifier(
    tor_config: TorConfig,
    sender: EpicboxAddress,
    broker: EpicboxBroker,
    exchange: SlateExchange,
    order: Seq<String>,
    stored: Result<String, Error>,
)
    requires
        exchange.phase is Storing,
    ensures
        ({
            let slate = exchange.phase->Storing_slate;
            let next = on_slate_next(
                tor_config,
                sender,
                broker,
                exchange,
                order,
                Reply::Stored(stored),
            );
            &&& next.broker == broker
            &&& match stored {
                Err(error) => is_over(next.step, Err(error@)) && next.exchange.phase is Done,
                Ok(stable) => if exchange.phase->Storing_finalized {
                    is_over(next.step, Ok(())) && next.exchange.phase is Done
                } else {
                    &&& asks(
                        next.step,
                        EffectView::Seal { slate, to: exchange.from, version: exchange.version },
                    )
                    &&& next.exchange.phase == ExchangePhase::Posting(
                        PostSlate {
                            slate,
                            version: exchange.version,
                            to: exchange.from,
                            close_connection: false,
                            epicboxtxid: Some(stable),
                            phase: PostPhase::Sealing,
                        },
                    )
                },
            }
        }),
{
}

/// A response is posted as any publisher's post of the sender is, and what the handling
/// is about never changes.
pub proof fn law_response_is_a_post_of_the_sender(
    tor_config: TorConfig,
    sender: EpicboxAddress,
    broker: EpicboxBroker,
    exchange: SlateExchange,
    order: Seq<String>,
    reply: Reply,
)
    ensures
        ({
            let next = on_slate_next(tor_config, sender, broker, exchange, order, reply);
            &&& next.exchange == SlateExchange { phase: next.exchange.phase, ..exchange }
            &&& exchange.phase matches ExchangePhase::Posting(post) ==> {
                let posted = publish_next(broker, post, sender, reply);
                &&& next.broker == posted.broker
                &&& next.step == posted.step
                &&& next.exchange.phase == ExchangePhase::Posting(posted.post)
            }
            &&& (exchange.phase is Done || (exchange.phase is Storing && !(reply is Stored)))
                ==> next.exchange == exchange && next.broker == broker
                && next.step.effects.len() == 0 && next.step.done is None
        }),
{
}

/// Publishing reads the address first; the Slate then goes there as a post that leaves
/// the connection open, with the identifier that the publication was given.
pub proof fn law_publication_posts_to_the_parsed_address(
    brokers: (EpicboxBroker, EpicboxBroker),
    publish: Publish,
    sender: EpicboxAddress,
    to: EpicboxAddress,
    error: Error,
)
    requires
        publish.phase is Ready,
    ensures
        ({
            let parsing = publish_to_next(brokers.0, publish, sender, Reply::Begin);
            let posting = publish_to_next(
                brokers.1,
                parsing.publish,
                sender,
                Reply::Address(Ok(to)),
            );
            let unread = publish_to_next(
                brokers.1,
                parsing.publish,
                sender,
                Reply::Address(Err(error)),
            );
            &&& asks(parsing.step, EffectView::ParseAddress(publish.to@))
            &&& parsing.broker == brokers.0
            &&& is_over(unread.step, Err(error@))
            &&& unread.broker == brokers.1
            &&& unread.publish.phase is Done
            &&& asks(
                posting.step,
                EffectView::Seal { slate: publish.slate, to, version: publish.version },
            )
            &&& posting.broker == brokers.1
            &&& posting.publish.phase == PublishPhase::Posting(
                PostSlate {
                    slate: publish.slate,
                    version: publish.version,
                    to,
                    close_connection: false,
                    epicboxtxid: publish.epicboxtxid,
                    phase: PostPhase::Sealing,
                },
            )
        }),
{
}

/// From then on a publication does what its post does; what it is about never changes,
/// and a reply that it does not wait for changes nothing.
pub proof fn law_publication_follows_its_post(
    broker: EpicboxBroker,
    publish: Publish,
    sender: EpicboxAddress,
    reply: Reply,
)
    ensures
        ({
            let next = publish_to_next(broker, publish, sender, reply);
            &&& next.publish == Publish { phase: next.publish.phase, ..publish }
            &&& publish.phase matches PublishPhase::Posting(post) ==> {
                let posted = publish_next(broker, post, sender, reply);
                &&& next.broker == posted.broker
                &&& next.step == posted.step
                &&& next.publish.phase == PublishPhase::Posting(posted.post)
            }
            &&& (publish.phase is Done || (publish.phase is Ready && !(reply is Begin)) || (
            publish.phase is Parsing && !(reply is Address))) ==> next.publish == publish
                && next.broker == broker && next.step.effects.len() == 0 && next.step.done is None
        }),
{
}

/// A wait looks at the clock before each event: with time left it waits for exactly that
/// long, without it gives up. An unwanted event sends it back to the clock. It does
/// nothing on a reply that it does not wait for.
pub proof fn law_wait_watches_the_clock(met: bool, phase: WaitPhase, reply: Reply, nanos: u128)
    ensures
        ({
            let next = wait_for_next(met, phase, reply);
            &&& phase is Ready && reply is Begin ==> asks(next.step, EffectView::Clock)
                && next.phase is CheckingClock
            &&& phase is CheckingClock && reply == Reply::Remaining(nanos) ==> if nanos == 0 {
                is_over(next.step, Ok(false)) && next.phase is Done
            } else {
                asks(next.step, EffectView::Receive(nanos)) && next.phase is Receiving
            }
            &&& phase is Receiving && (reply matches Reply::Event(Some(_))) ==> if met {
                is_over(next.step, Ok(true)) && next.phase is Done
            } else {
                asks(next.step, EffectView::Clock) && next.phase is CheckingClock
            }
            &&& phase is Receiving && reply == Reply::Event(None) ==> is_over(next.step, Ok(false))
                && next.phase is Done
            &&& !(phase is Ready && reply is Begin) && !(phase is CheckingClock
                && reply is Remaining) && !(phase is Receiving && reply is Event) ==> next.phase
                == phase && next.step.effects.len() == 0 && next.step.done is None
        }),
{
}

/// What is wanted: each want is met by events of its own kind alone, and a wanted
/// cancellation only by that of the same transaction.
pub proof fn law_wants_are_met_by_their_events(want: Want, event: BrokerEvent)
    ensures
        want is PostAck ==> (want.accepts(event) <==> event is PostAck),
        want is Subscribed ==> (want.accepts(event) <==> event is Subscribed),
        want is Made ==> (want.accepts(event) <==> event is Made),
        want matches Want::Cancelled { epicboxtxid: wanted } ==> (want.accepts(event) <==> (
        event matches BrokerEvent::Cancelled { epicboxtxid } && epicboxtxid@ == wanted@)),
        want.met_by(Reply::Event(Some(event))) <==> want.accepts(event),
{
}

} // verus!
