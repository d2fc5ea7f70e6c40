//! The wallet's side of a session: what happens to a delivered Slate, to the
//! acknowledgement of a posted one and to a cancellation.
use crate::broker::{post_cancel_tx_next, CancelNext, CancelTx, EpicboxBroker};
use crate::broker::{post_slate_next, PostNext, PostPhase, PostSlate};
use crate::effect::{Effect, EffectView, FinalizedSlate, Reply, Step, StepView};
use crate::error::{CloseReason, Error, ErrorView};
use crate::listener::Container;
use crate::outside::shuffle_addresses;
use crate::text::opt_text;
use crate::wallet::{EpicboxAddress, Slate, TorConfig};
use uuid::Uuid;
use vstd::prelude::*;

verus! {

/// How often, in seconds, the mempool is asked for a posted transaction.
pub const MEMPOOL_INTERVAL_SECS: u64 = 1;

/// How many times it is asked.
pub const MEMPOOL_ATTEMPTS: u64 = 240;

/// One step of a PostSlate by a publisher: as the broker takes it, and where the
/// Slate is out and the connection was to close, the subscriber is stopped.
pub open spec fn publish_next(
    broker: EpicboxBroker,
    post: PostSlate,
    from: EpicboxAddress,
    reply: Reply,
) -> PostNext {
    let next = post_slate_next(broker, post, from, reply);
    if post.close_connection && next.step.done == Some(Ok::<(), ErrorView>(())) {
        PostNext { broker: EpicboxBroker { stopping: true, ..next.broker }, ..next }
    } else {
        next
    }
}

/// Sends Slates and cancellations in the name of one address.
pub trait Publisher {
    /// The address in whose name requests go out.
    spec fn sender(&self) -> EpicboxAddress;

    /// Takes a PostSlate one step further.
    fn post_slate(&self, broker: &mut EpicboxBroker, post: &mut PostSlate, reply: Reply) -> (step:
        Step<()>)
        ensures
            publish_next(*old(broker), *old(post), self.sender(), reply) == (PostNext {
                broker: *final(broker),
                post: *final(post),
                step: step@,
            }),
    ;

    /// Takes a CancelTx one step further.
    fn cancel_tx(&self, broker: &EpicboxBroker, cancel: &mut CancelTx, reply: Reply) -> (step: Step<
        (),
    >)
        ensures
            post_cancel_tx_next(*broker, *old(cancel), self.sender(), reply) == (CancelNext {
                cancel: *final(cancel),
                step: step@,
            }),
    ;
}

/// Reacts to what a session receives.
pub trait SubscriptionHandler {
    /// The Tor settings for posting finalized transactions.
    spec fn tor(&self) -> TorConfig;

    /// The address in whose name responses go out.
    spec fn responder(&self) -> EpicboxAddress;

    /// Takes the handling of a delivered Slate one step further. The order of the
    /// Tor nodes that a reply names is left to chance.
    fn on_slate(&self, broker: &mut EpicboxBroker, exchange: &mut SlateExchange, reply: Reply) -> (step:
        Step<()>)
        ensures
            exists|order: Seq<String>|
                {
                    &&& #[trigger] is_onion_order(reply, order)
                    &&& on_slate_next(
                        self.tor(),
                        self.responder(),
                        *old(broker),
                        *old(exchange),
                        order,
                        reply,
                    ) == (ExchangeNext {
                        broker: *final(broker),
                        exchange: *final(exchange),
                        step: step@,
                    })
                },
    ;

    /// What to store once the relay has acknowledged a posted Slate. The reply is
    /// the identifier that holds for the transaction.
    fn on_post_slate_ack(&self, tx_slate_id: &Uuid, candidate_epicboxtxid: &String) -> (effect:
        Effect)
        ensures
            effect@ == (EffectView::StoreTxId {
                slate_id: *tx_slate_id,
                candidate: candidate_epicboxtxid@,
            }),
    ;

    /// The cancellation to make in the wallet once the relay has confirmed it. It
    /// goes by the stable identifier and never falls back to a Slate's.
    fn on_tx_cancelled(&self, epicboxtxid: &String) -> (effect: Effect)
        ensures
            effect@ == (EffectView::CancelLocally { epicboxtxid: epicboxtxid@, slate_id: None }),
    ;

    /// What to report once the session closes.
    fn on_close(&self, reason: CloseReason) -> (effect: Effect)
        ensures
            effect@ == EffectView::OnClose(reason),
    ;
}

/// Handles what a session receives, for one wallet.
#[derive(Debug, PartialEq, Eq)]
pub struct EpicboxController<P: Publisher> {
    pub publisher: P,
    /// Connection failures since the relay last answered.
    pub reconnections: u32,
    pub tor_config: TorConfig,
}

/// How far an incoming Slate has come.
#[derive(Debug, PartialEq, Eq)]
pub enum IncomingPhase {
    Ready,
    Receiving,
    Finalizing,
    PostingTor { finalized: Slate },
    Posting { finalized: Slate },
    Waiting { finalized: Slate },
    Updating,
    Done,
}

/// Processing an incoming Slate: its outcome tells whether the transaction was
/// finalized.
#[derive(Debug, PartialEq, Eq)]
pub struct IncomingSlate {
    /// Where the Slate came from.
    pub address: Option<String>,
    pub slate: Slate,
    pub phase: IncomingPhase,
}

impl Clone for IncomingPhase {
    fn clone(&self) -> (r: Self)
        ensures
            r == *self,
    {
        match self {
            IncomingPhase::Ready => IncomingPhase::Ready,
            IncomingPhase::Receiving => IncomingPhase::Receiving,
            IncomingPhase::Finalizing => IncomingPhase::Finalizing,
            IncomingPhase::PostingTor { finalized } => IncomingPhase::PostingTor {
                finalized: finalized.clone(),
            },
            IncomingPhase::Posting { finalized } => IncomingPhase::Posting {
                finalized: finalized.clone(),
            },
            IncomingPhase::Waiting { finalized } => IncomingPhase::Waiting {
                finalized: finalized.clone(),
            },
            IncomingPhase::Updating => IncomingPhase::Updating,
            IncomingPhase::Done => IncomingPhase::Done,
        }
    }
}

/// The Tor nodes known after a transaction was finalized; none if they could not
/// be asked for.
pub open spec fn known_onions(finalized: FinalizedSlate) -> Seq<String> {
    match finalized.onion_addresses {
        Some(addresses) => addresses@,
        None => Seq::empty(),
    }
}

/// `order` lists the Tor nodes that a reply names, each as often as it does, in
/// whatever order.
pub open spec fn is_onion_order(reply: Reply, order: Seq<String>) -> bool {
    reply matches Reply::Finalized(Ok(finalized)) ==> order.to_multiset() == known_onions(
        finalized,
    ).to_multiset()
}

/// The Tor node to post to: the first in order, where Tor is in use.
pub open spec fn tor_node(tor_config: TorConfig, order: Seq<String>) -> Option<String> {
    if order.len() > 0 && tor_config.use_tor_listener {
        Some(order[0])
    } else {
        None
    }
}

/// An incoming Slate after a step.
#[verifier::ext_equal]
pub struct IncomingNext {
    pub incoming: IncomingSlate,
    pub step: StepView<bool>,
}

/// One step of an incoming Slate. A Slate that lacks a participant's data is
/// received, unless it has no inputs; any other one is finalized, posted (over
/// Tor first where a Tor node is to be used, to the wallet's node otherwise or
/// where Tor fails), awaited in the mempool and marked where it got there.
/// `order` is the order in which the Tor nodes stand.
pub open spec fn incoming_next(
    tor_config: TorConfig,
    incoming: IncomingSlate,
    order: Seq<String>,
    reply: Reply,
) -> IncomingNext {
    let at = |phase: IncomingPhase, step: StepView<bool>|
        IncomingNext { incoming: IncomingSlate { phase, ..incoming }, step };
    let wait_for_mempool = |finalized: Slate|
        at(
            IncomingPhase::Waiting { finalized },
            StepView::ask(
                EffectView::WaitForTxInMempool {
                    slate_id: finalized.id,
                    interval_secs: MEMPOOL_INTERVAL_SECS,
                    attempts: MEMPOOL_ATTEMPTS,
                },
            ),
        );
    let post = |finalized: Slate|
        at(
            IncomingPhase::Posting { finalized },
            StepView::ask(EffectView::PostTx { slate: finalized, fluff: false }),
        );
    match (incoming.phase, reply) {
        (IncomingPhase::Ready, Reply::Begin) => if !incoming.slate.is_incomplete() {
            at(
                IncomingPhase::Finalizing,
                StepView::ask(EffectView::FinalizeTx(incoming.slate)),
            )
        } else if incoming.slate.has_inputs {
            at(
                IncomingPhase::Receiving,
                StepView::ask(
                    EffectView::ReceiveTx {
                        slate: incoming.slate,
                        address: opt_text(incoming.address),
                    },
                ),
            )
        } else {
            at(IncomingPhase::Done, StepView::over(Ok(false)))
        },
        (IncomingPhase::Receiving, Reply::Received(Ok(slate))) => IncomingNext {
            incoming: IncomingSlate { slate, phase: IncomingPhase::Done, ..incoming },
            step: StepView::over(Ok(false)),
        },
        (IncomingPhase::Receiving, Reply::Received(Err(text))) => at(
            IncomingPhase::Done,
            StepView::over(Err(ErrorView::EpicboxReceiveTx(text@))),
        ),
        (IncomingPhase::Finalizing, Reply::Finalized(Ok(finalized))) => match tor_node(
            tor_config,
            order,
        ) {
            Some(url) => at(
                IncomingPhase::PostingTor { finalized: finalized.slate },
                StepView::ask(EffectView::PostTxTor { slate: finalized.slate, url: url@ }),
            ),
            None => post(finalized.slate),
        },
        (IncomingPhase::Finalizing, Reply::Finalized(Err(e))) => at(
            IncomingPhase::Done,
            StepView::over(Err(e@)),
        ),
        (IncomingPhase::PostingTor { finalized }, Reply::Posted(Ok(_))) => wait_for_mempool(
            finalized,
        ),
        (IncomingPhase::PostingTor { finalized }, Reply::Posted(Err(_))) => post(finalized),
        (IncomingPhase::Posting { finalized }, Reply::Posted(Ok(_))) => wait_for_mempool(finalized),
        (IncomingPhase::Posting { finalized }, Reply::Posted(Err(e))) => at(
            IncomingPhase::Done,
            StepView::over(Err(e@)),
        ),
        (IncomingPhase::Waiting { finalized }, Reply::InMempool(found)) => if found == Ok::<
            bool,
            Error,
        >(true) {
            at(
                IncomingPhase::Updating,
                StepView::ask(EffectView::UpdateMempoolStatus(finalized)),
            )
        } else {
            at(IncomingPhase::Done, StepView::over(Ok(true)))
        },
        (IncomingPhase::Updating, Reply::MempoolUpdated(Ok(_))) => at(
            IncomingPhase::Done,
            StepView::over(Ok(true)),
        ),
        (IncomingPhase::Updating, Reply::MempoolUpdated(Err(e))) => at(
            IncomingPhase::Done,
            StepView::over(Err(e@)),
        ),
        _ => at(incoming.phase, StepView::idle()),
    }
}

/// How far the handling of a delivered Slate has come.
#[derive(Debug, PartialEq, Eq)]
pub enum ExchangePhase {
    Processing(IncomingSlate),
    Storing { finalized: bool, slate: Slate },
    Posting(PostSlate),
    Done,
}

/// Handling a delivered Slate: process it, store the transaction's stable
/// identifier and, unless the transaction is finalized, post the response with
/// that identifier.
#[derive(Debug, PartialEq, Eq)]
pub struct SlateExchange {
    /// Where the Slate came from and the response goes.
    pub from: EpicboxAddress,
    pub tx_slate_id: Uuid,
    /// The version in which the Slate came.
    pub version: u16,
    pub candidate_epicboxtxid: String,
    pub phase: ExchangePhase,
}

/// The broker and the handling of a delivered Slate after a step.
#[verifier::ext_equal]
pub struct ExchangeNext {
    pub broker: EpicboxBroker,
    pub exchange: SlateExchange,
    pub step: StepView<()>,
}

/// The response to a delivered Slate: it goes back where the Slate came from, in
/// the version in which it came, and carries the stable identifier.
pub open spec fn response_post(exchange: SlateExchange, slate: Slate, stable: String) -> PostSlate {
    PostSlate {
        slate,
        version: exchange.version,
        to: exchange.from,
        close_connection: false,
        epicboxtxid: Some(stable),
        phase: PostPhase::Ready,
    }
}

/// One step of handling a delivered Slate.
pub open spec fn on_slate_next(
    tor_config: TorConfig,
    sender: EpicboxAddress,
    broker: EpicboxBroker,
    exchange: SlateExchange,
    order: Seq<String>,
    reply: Reply,
) -> ExchangeNext {
    let at = |phase: ExchangePhase, step: StepView<()>|
        ExchangeNext { broker, exchange: SlateExchange { phase, ..exchange }, step };
    let posting = |post: PostSlate, reply: Reply|
        {
            let next = publish_next(broker, post, sender, reply);
            ExchangeNext {
                broker: next.broker,
                exchange: SlateExchange { phase: ExchangePhase::Posting(next.post), ..exchange },
                step: next.step,
            }
        };
    match exchange.phase {
        ExchangePhase::Processing(incoming) => {
            let next = incoming_next(tor_config, incoming, order, reply);
            match next.step.done {
                None => at(
                    ExchangePhase::Processing(next.incoming),
                    StepView { effects: next.step.effects, done: None },
                ),
                Some(Err(e)) => at(ExchangePhase::Done, StepView::over(Err(e))),
                Some(Ok(finalized)) => at(
                    ExchangePhase::Storing { finalized, slate: next.incoming.slate },
                    StepView::ask(
                        EffectView::StoreTxId {
                            slate_id: exchange.tx_slate_id,
                            candidate: exchange.candidate_epicboxtxid@,
                        },
                    ),
                ),
            }
        },
        ExchangePhase::Storing { finalized, slate } => match reply {
            Reply::Stored(Ok(stable)) => if finalized {
                at(ExchangePhase::Done, StepView::over(Ok(())))
            } else {
                posting(response_post(exchange, slate, stable), Reply::Begin)
            },
            Reply::Stored(Err(e)) => at(ExchangePhase::Done, StepView::over(Err(e@))),
            _ => at(exchange.phase, StepView::idle()),
        },
        ExchangePhase::Posting(post) => posting(post, reply),
        ExchangePhase::Done => at(exchange.phase, StepView::idle()),
    }
}

impl IncomingSlate {
    /// Prepares to process an incoming Slate.
    pub fn new(address: Option<String>, slate: Slate) -> (r: Self)
        ensures
            r == (IncomingSlate { address, slate, phase: IncomingPhase::Ready }),
    {
        IncomingSlate { address, slate, phase: IncomingPhase::Ready }
    }
}

impl SlateExchange {
    /// The handling of a Slate that was just delivered.
    pub open spec fn fresh(
        from: EpicboxAddress,
        slate: Slate,
        candidate_epicboxtxid: String,
    ) -> Self {
        SlateExchange {
            from,
            tx_slate_id: slate.id,
            version: slate.version,
            candidate_epicboxtxid,
            phase: ExchangePhase::Processing(
                IncomingSlate { address: Some(from.full), slate, phase: IncomingPhase::Ready },
            ),
        }
    }

    /// Prepares to handle a delivered Slate.
    pub fn new(from: &EpicboxAddress, slate: &Slate, candidate_epicboxtxid: &String) -> (r: Self)
        ensures
            r == SlateExchange::fresh(*from, *slate, *candidate_epicboxtxid),
    {
        SlateExchange {
            from: from.clone(),
            tx_slate_id: slate.id.clone(),
            version: slate.version,
            candidate_epicboxtxid: candidate_epicboxtxid.clone(),
            phase: ExchangePhase::Processing(
                IncomingSlate::new(Some(from.full.clone()), slate.clone()),
            ),
        }
    }
}

/// The Tor nodes in an order left to chance.
pub fn onion_order(onion_addresses: Option<Vec<String>>) -> (order: Vec<String>)
    ensures
        order@.to_multiset() == (match onion_addresses {
            Some(addresses) => addresses@,
            None => Seq::empty(),
        }).to_multiset(),
{
    let mut order = match onion_addresses {
        Some(addresses) => addresses,
        None => Vec::new(),
    };
    shuffle_addresses(&mut order);
    order
}

impl<P: Publisher> EpicboxController<P> {
    /// Sets up the handling for one session.
    pub fn new(
        _container: &Container,
        publisher: P,
        reconnections: u32,
        tor_config: TorConfig,
    ) -> (r: Result<Self, Error>)
        ensures
            r == Ok::<Self, Error>(EpicboxController { publisher, reconnections, tor_config }),
    {
        Ok(EpicboxController { publisher, reconnections, tor_config })
    }

    /// Cancels a transaction whose cancellation the relay has confirmed, by its
    /// stable identifier alone.
    pub fn process_tx_cancelled(&self, epicboxtxid: &String) -> (effect: Effect)
        ensures
            effect@ == (EffectView::CancelLocally { epicboxtxid: epicboxtxid@, slate_id: None }),
    {
        Effect::CancelLocally { epicboxtxid: epicboxtxid.clone(), slate_id: None }
    }

    /// Posts a finalized transaction, given the order of the Tor nodes.
    pub fn post_finalized(
        &self,
        incoming: &mut IncomingSlate,
        finalized: Slate,
        order: &Vec<String>,
    ) -> (step: Step<bool>)
        ensures
            match tor_node(self.tor_config, order@) {
                Some(url) => {
                    &&& *final(incoming) == (IncomingSlate {
                        phase: IncomingPhase::PostingTor { finalized },
                        ..*old(incoming)
                    })
                    &&& step@ == StepView::<bool>::ask(
                        EffectView::PostTxTor { slate: finalized, url: url@ },
                    )
                },
                None => {
                    &&& *final(incoming) == (IncomingSlate {
                        phase: IncomingPhase::Posting { finalized },
                        ..*old(incoming)
                    })
                    &&& step@ == StepView::<bool>::ask(
                        EffectView::PostTx { slate: finalized, fluff: false },
                    )
                },
            },
    {
        if order.len() > 0 && self.tor_config.use_tor_listener {
            incoming.phase = IncomingPhase::PostingTor { finalized: finalized.clone() };
            Step::ask(Effect::PostTxTor { slate: finalized, url: order[0].clone() })
        } else {
            incoming.phase = IncomingPhase::Posting { finalized: finalized.clone() };
            Step::ask(Effect::PostTx { slate: finalized, fluff: false })
        }
    }

    /// Takes an incoming Slate one step further.
    pub fn process_incoming_slate(&self, incoming: &mut IncomingSlate, reply: Reply) -> (step: Step<
        bool,
    >)
        ensures
            exists|order: Seq<String>|
                {
                    &&& #[trigger] is_onion_order(reply, order)
                    &&& incoming_next(self.tor_config, *old(incoming), order, reply) == (
                    IncomingNext { incoming: *final(incoming), step: step@ })
                },
    {
        let ghost before = *incoming;
        let ghost asked = reply;
        let ghost mut order: Seq<String> = known_onions(reply->Finalized_0->Ok_0);
        let phase = incoming.phase.clone();
        let step = match (phase, reply) {
            (IncomingPhase::Ready, Reply::Begin) => {
                if incoming.slate.num_participants > incoming.slate.participant_data {
                    if incoming.slate.has_inputs {
                        incoming.phase = IncomingPhase::Receiving;
                        Step::ask(
                            Effect::ReceiveTx {
                                slate: incoming.slate.clone(),
                                address: incoming.address.clone(),
                            },
                        )
                    } else {
                        incoming.phase = IncomingPhase::Done;
                        Step::over(Ok(false))
                    }
                } else {
                    incoming.phase = IncomingPhase::Finalizing;
                    Step::ask(Effect::FinalizeTx(incoming.slate.clone()))
                }
            },
            (IncomingPhase::Receiving, Reply::Received(Ok(slate))) => {
                incoming.slate = slate;
                incoming.phase = IncomingPhase::Done;
                Step::over(Ok(false))
            },
            (IncomingPhase::Receiving, Reply::Received(Err(text))) => {
                incoming.phase = IncomingPhase::Done;
                Step::over(Err(Error::EpicboxReceiveTx(text)))
            },
            (IncomingPhase::Finalizing, Reply::Finalized(Ok(finalized))) => {
                let shuffled = onion_order(finalized.onion_addresses);
                proof {
                    order = shuffled@;
                }
                self.post_finalized(incoming, finalized.slate, &shuffled)
            },
            (IncomingPhase::Finalizing, Reply::Finalized(Err(e))) => {
                incoming.phase = IncomingPhase::Done;
                Step::over(Err(e))
            },
            (IncomingPhase::PostingTor { finalized }, Reply::Posted(Ok(_))) => {
                let slate_id = finalized.id.clone();
                incoming.phase = IncomingPhase::Waiting { finalized };
                Step::ask(
                    Effect::WaitForTxInMempool {
                        slate_id,
                        interval_secs: MEMPOOL_INTERVAL_SECS,
                        attempts: MEMPOOL_ATTEMPTS,
                    },
                )
            },
            (IncomingPhase::PostingTor { finalized }, Reply::Posted(Err(_))) => {
                incoming.phase = IncomingPhase::Posting { finalized: finalized.clone() };
                Step::ask(Effect::PostTx { slate: finalized, fluff: false })
            },
            (IncomingPhase::Posting { finalized }, Reply::Posted(Ok(_))) => {
                let slate_id = finalized.id.clone();
                incoming.phase = IncomingPhase::Waiting { finalized };
                Step::ask(
                    Effect::WaitForTxInMempool {
                        slate_id,
                        interval_secs: MEMPOOL_INTERVAL_SECS,
                        attempts: MEMPOOL_ATTEMPTS,
                    },
                )
            },
            (IncomingPhase::Posting { finalized: _ }, Reply::Posted(Err(e))) => {
                incoming.phase = IncomingPhase::Done;
                Step::over(Err(e))
            },
            (IncomingPhase::Waiting { finalized }, Reply::InMempool(found)) => {
                match found {
                    Ok(true) => {
                        incoming.phase = IncomingPhase::Updating;
                        Step::ask(Effect::UpdateMempoolStatus(finalized))
                    },
                    _ => {
                        incoming.phase = IncomingPhase::Done;
                        Step::over(Ok(true))
                    },
                }
            },
            (IncomingPhase::Updating, Reply::MempoolUpdated(Ok(_))) => {
                incoming.phase = IncomingPhase::Done;
                Step::over(Ok(true))
            },
            (IncomingPhase::Updating, Reply::MempoolUpdated(Err(e))) => {
                incoming.phase = IncomingPhase::Done;
                Step::over(Err(e))
            },
            _ => Step::idle(),
        };
        proof {
            assert(is_onion_order(asked, order));
            assert(incoming_next(self.tor_config, before, order, asked) == (IncomingNext {
                incoming: *incoming,
                step: step@,
            }));
        }
        step
    }
}

impl<P: Publisher> SubscriptionHandler for EpicboxController<P> {
    open spec fn tor(&self) -> TorConfig {
        self.tor_config
    }

    open spec fn responder(&self) -> EpicboxAddress {
        self.publisher.sender()
    }

    fn on_slate(&self, broker: &mut EpicboxBroker, exchange: &mut SlateExchange, reply: Reply) -> (step:
        Step<()>) {
        let ghost asked = reply;
        let ghost first_broker = *broker;
        let ghost first_exchange = *exchange;
        let ghost mut order: Seq<String> = known_onions(reply->Finalized_0->Ok_0);
        let step = match &mut exchange.phase {
            ExchangePhase::Processing(incoming) => {
                let ghost before = *incoming;
                let processed = self.process_incoming_slate(incoming, reply);
                proof {
                    order = choose|order: Seq<String>|
                        {
                            &&& #[trigger] is_onion_order(asked, order)
                            &&& incoming_next(self.tor_config, before, order, asked) == (
                            IncomingNext { incoming: *incoming, step: processed@ })
                        };
                }
                match processed.done {
                    None => Step { effects: processed.effects, done: None },
                    Some(Err(e)) => {
                        exchange.phase = ExchangePhase::Done;
                        Step::over(Err(e))
                    },
                    Some(Ok(finalized)) => {
                        let slate = incoming.slate.clone();
                        exchange.phase = ExchangePhase::Storing { finalized, slate };
                        Step::ask(
                            Effect::StoreTxId {
                                slate_id: exchange.tx_slate_id.clone(),
                                candidate: exchange.candidate_epicboxtxid.clone(),
                            },
                        )
                    },
                }
            },
            ExchangePhase::Storing { finalized, slate } => match reply {
                Reply::Stored(Ok(stable)) => {
                    if *finalized {
                        exchange.phase = ExchangePhase::Done;
                        Step::over(Ok(()))
                    } else {
                        let mut post = PostSlate::new(
                            slate,
                            exchange.version,
                            &exchange.from,
                            false,
                            Some(&stable),
                        );
                        let step = self.publisher.post_slate(broker, &mut post, Reply::Begin);
                        exchange.phase = ExchangePhase::Posting(post);
                        step
                    }
                },
                Reply::Stored(Err(e)) => {
                    exchange.phase = ExchangePhase::Done;
                    Step::over(Err(e))
                },
                _ => Step::idle(),
            },
            ExchangePhase::Posting(post) => self.publisher.post_slate(broker, post, reply),
            ExchangePhase::Done => Step::idle(),
        };
        proof {
            assert(is_onion_order(asked, order));
            assert(on_slate_next(
                self.tor(),
                self.responder(),
                first_broker,
                first_exchange,
                order,
                asked,
            ) == (ExchangeNext { broker: *broker, exchange: *exchange, step: step@ }));
        }
        step
    }

    fn on_post_slate_ack(&self, tx_slate_id: &Uuid, candidate_epicboxtxid: &String) -> (effect:
        Effect) {
        Effect::StoreTxId {
            slate_id: tx_slate_id.clone(),
            candidate: candidate_epicboxtxid.clone(),
        }
    }

    fn on_tx_cancelled(&self, epicboxtxid: &String) -> (effect: Effect) {
        self.process_tx_cancelled(epicboxtxid)
    }

    fn on_close(&self, reason: CloseReason) -> (effect: Effect) {
        Effect::OnClose(reason)
    }
}

} // verus!
