//! What holds of every handling of a delivered Slate.
use crate::controller::{
    incoming_next, is_onion_order, known_onions, on_slate_next, tor_node, ExchangeNext,
    ExchangePhase, IncomingPhase, IncomingSlate, SlateExchange,
};
use crate::effect::{EffectView, FinalizedSlate, Reply, StepView};
use crate::error::{Error, ErrorView};
use crate::laws::client::Input;
use crate::protocol::RequestView;
use crate::wallet::{EpicboxAddress, Slate, TorConfig};
use vstd::prelude::*;

verus! {

/// The handling after a run over `inputs`.
pub open spec fn exchange_after(
    tor_config: TorConfig,
    sender: EpicboxAddress,
    exchange: SlateExchange,
    inputs: Seq<Input>,
) -> SlateExchange
    decreases inputs.len(),
{
    if inputs.len() == 0 {
        exchange
    } else {
        on_slate_next(
            tor_config,
            sender,
            inputs.last().0,
            exchange_after(tor_config, sender, exchange, inputs.drop_last()),
            inputs.last().1,
            inputs.last().2,
        ).exchange
    }
}

/// The handling before step `i` of a run.
pub open spec fn exchange_before(
    tor_config: TorConfig,
    sender: EpicboxAddress,
    exchange: SlateExchange,
    inputs: Seq<Input>,
    i: int,
) -> SlateExchange {
    exchange_after(tor_config, sender, exchange, inputs.take(i))
}

/// Step `i` of a run.
pub open spec fn exchange_step(
    tor_config: TorConfig,
    sender: EpicboxAddress,
    exchange: SlateExchange,
    inputs: Seq<Input>,
    i: int,
) -> ExchangeNext {
    on_slate_next(
        tor_config,
        sender,
        inputs[i].0,
        exchange_before(tor_config, sender, exchange, inputs, i),
        inputs[i].1,
        inputs[i].2,
    )
}

/// The handling of a delivered Slate has not begun.
pub open spec fn is_new(exchange: SlateExchange) -> bool {
    exchange.phase matches ExchangePhase::Processing(incoming) && incoming.phase is Ready
}

/// Step `k` of a run learns the stable identifier that holds for the transaction.
pub open spec fn learns_stable_id(
    tor_config: TorConfig,
    sender: EpicboxAddress,
    exchange: SlateExchange,
    inputs: Seq<Input>,
    k: int,
    stable: Seq<char>,
) -> bool {
    exchange_before(tor_config, sender, exchange, inputs, k).phase is Storing && (
    inputs[k].2 matches Reply::Stored(Ok(id)) && id@ == stable)
}

/// Step `k` of a run receives the Slate from the wallet.
pub open spec fn receives(
    tor_config: TorConfig,
    sender: EpicboxAddress,
    exchange: SlateExchange,
    inputs: Seq<Input>,
    k: int,
    slate: Slate,
) -> bool {
    0 <= k < inputs.len() && (exchange_before(
        tor_config,
        sender,
        exchange,
        inputs,
        k,
    ).phase matches ExchangePhase::Processing(incoming) && incoming.phase is Receiving) && inputs[k].2
        == Reply::Received(Ok(slate))
}

/// The Slate that a run goes on with: the one that the wallet gave back for the
/// delivered Slate, or the delivered Slate where the wallet was not asked to receive
/// it.
pub open spec fn is_kept(
    tor_config: TorConfig,
    sender: EpicboxAddress,
    exchange: SlateExchange,
    inputs: Seq<Input>,
    slate: Slate,
) -> bool {
    let delivered = exchange.phase->Processing_0.slate;
    if delivered.is_incomplete() && delivered.has_inputs {
        exists|k: int| #[trigger] receives(tor_config, sender, exchange, inputs, k, slate)
    } else {
        slate == delivered
    }
}

/// The wallet gave this Slate back as the finalized one in some step of a run.
pub open spec fn finalizes(
    inputs: Seq<Input>,
    slate: Slate,
) -> bool {
    exists|k: int|
        0 <= k < inputs.len() && #[trigger] finalized_by(inputs[k], slate)
}

/// The reply gives this Slate back as the finalized one.
pub open spec fn finalized_by(input: Input, slate: Slate) -> bool {
    input.2 matches Reply::Finalized(Ok(finalized)) && finalized.slate == slate
}

/// The Slate that a run goes on with stays the same when the run grows.
proof fn lemma_kept_prefix(
    tor_config: TorConfig,
    sender: EpicboxAddress,
    exchange: SlateExchange,
    inputs: Seq<Input>,
    n: int,
    slate: Slate,
)
    requires
        0 <= n <= inputs.len(),
        is_kept(tor_config, sender, exchange, inputs.take(n), slate),
    ensures
        is_kept(tor_config, sender, exchange, inputs, slate),
{
    let delivered = exchange.phase->Processing_0.slate;
    if delivered.is_incomplete() && delivered.has_inputs {
        let k = choose|k: int|
            #[trigger] receives(tor_config, sender, exchange, inputs.take(n), k, slate);
        assert(inputs.take(n).take(k) =~= inputs.take(k));
        assert(receives(tor_config, sender, exchange, inputs, k, slate));
    }
}

/// What the wallet finalized stays finalized when a run grows.
proof fn lemma_finalizes_prefix(inputs: Seq<Input>)
    requires
        inputs.len() > 0,
    ensures
        forall|slate: Slate|
            #[trigger] finalizes(inputs.drop_last(), slate) ==> finalizes(inputs, slate),
{
    assert forall|slate: Slate| #[trigger] finalizes(inputs.drop_last(), slate) implies finalizes(
        inputs,
        slate,
    ) by {
        let k = choose|k: int|
            0 <= k < inputs.drop_last().len() && #[trigger] finalized_by(
                inputs.drop_last()[k],
                slate,
            );
        assert(finalized_by(inputs[k], slate));
    }
}

/// What a run says of its earlier steps stands when it grows.
proof fn lemma_exchange_prefix(
    tor_config: TorConfig,
    sender: EpicboxAddress,
    exchange: SlateExchange,
    inputs: Seq<Input>,
    k: int,
    stable: Seq<char>,
)
    requires
        0 <= k < inputs.len() - 1,
        learns_stable_id(tor_config, sender, exchange, inputs.drop_last(), k, stable),
    ensures
        learns_stable_id(tor_config, sender, exchange, inputs, k, stable),
{
    assert(inputs.drop_last().take(k) =~= inputs.take(k));
}

/// What each phase of a run goes back to.
proof fn lemma_exchange_run(
    tor_config: TorConfig,
    sender: EpicboxAddress,
    exchange: SlateExchange,
    inputs: Seq<Input>,
)
    requires
        is_new(exchange),
    ensures
        ({
            let slate = exchange.phase->Processing_0.slate;
            let after = exchange_after(tor_config, sender, exchange, inputs);
            &&& after == SlateExchange { phase: after.phase, ..exchange }
            &&& after.phase matches ExchangePhase::Processing(incoming) ==> {
                &&& incoming.address == exchange.phase->Processing_0.address
                &&& incoming.phase is Receiving ==> slate.is_incomplete() && slate.has_inputs
                &&& incoming.phase is PostingTor ==> finalizes(
                    inputs,
                    incoming.phase->PostingTor_finalized,
                )
                &&& incoming.phase is Posting ==> finalizes(
                    inputs,
                    incoming.phase->Posting_finalized,
                )
                &&& incoming.phase is Waiting ==> finalizes(
                    inputs,
                    incoming.phase->Waiting_finalized,
                )
                &&& incoming.phase is Finalizing || incoming.phase is PostingTor
                    || incoming.phase is Posting || incoming.phase is Waiting
                    || incoming.phase is Updating ==> !slate.is_incomplete()
                &&& !(incoming.phase is Done)
                &&& incoming.slate == slate
            }
            &&& after.phase matches ExchangePhase::Storing { finalized, slate: kept } ==> {
                &&& finalized == !slate.is_incomplete()
                &&& is_kept(tor_config, sender, exchange, inputs, kept)
            }
            &&& after.phase matches ExchangePhase::Posting(post) ==> {
                &&& slate.is_incomplete()
                &&& post.to == exchange.from
                &&& post.version == exchange.version
                &&& is_kept(tor_config, sender, exchange, inputs, post.slate)
                &&& !post.close_connection
                &&& post.epicboxtxid is Some
                &&& exists|k: int|
                    0 <= k < inputs.len() && #[trigger] learns_stable_id(
                        tor_config,
                        sender,
                        exchange,
                        inputs,
                        k,
                        post.epicboxtxid->0@,
                    )
            }
        }),
    decreases inputs.len(),
{
    if inputs.len() > 0 {
        let shorter = inputs.drop_last();
        lemma_exchange_run(tor_config, sender, exchange, shorter);
        let before = exchange_after(tor_config, sender, exchange, shorter);
        let after = exchange_after(tor_config, sender, exchange, inputs);
        assert(inputs.take(inputs.len() - 1) =~= shorter);
        match before.phase {
            ExchangePhase::Processing(incoming) => {
                lemma_finalizes_prefix(inputs);
                if incoming.phase is Finalizing {
                    assert(inputs.last().2 matches Reply::Finalized(Ok(finalized)) ==> finalized_by(
                        inputs[inputs.len() - 1],
                        finalized.slate,
                    ));
                }
                if let ExchangePhase::Storing { finalized, slate } = after.phase {
                    if incoming.phase is Receiving {
                        assert(receives(
                            tor_config,
                            sender,
                            exchange,
                            inputs,
                            inputs.len() - 1,
                            slate,
                        ));
                    }
                }
            },
            ExchangePhase::Storing { finalized, slate } => {
                lemma_kept_prefix(tor_config, sender, exchange, inputs, inputs.len() - 1, slate);
            },
            ExchangePhase::Posting(post) => {
                lemma_kept_prefix(
                    tor_config,
                    sender,
                    exchange,
                    inputs,
                    inputs.len() - 1,
                    post.slate,
                );
            },
            ExchangePhase::Done => {},
        }
        if let ExchangePhase::Posting(post) = after.phase {
            if before.phase is Storing {
                assert(learns_stable_id(
                    tor_config,
                    sender,
                    exchange,
                    inputs,
                    inputs.len() - 1,
                    post.epicboxtxid->0@,
                ));
            } else {
                let k = choose|k: int|
                    0 <= k < shorter.len() && #[trigger] learns_stable_id(
                        tor_config,
                        sender,
                        exchange,
                        shorter,
                        k,
                        post.epicboxtxid->0@,
                    );
                lemma_exchange_prefix(
                    tor_config,
                    sender,
                    exchange,
                    inputs,
                    k,
                    post.epicboxtxid->0@,
                );
            }
        }
    }
}

/// The response to a delivered Slate goes back where the Slate came from. It
/// carries the stable identifier that the wallet reported for the transaction,
/// with a signature of its own, and there is a response only to a Slate that
/// lacked a participant's data.
pub proof fn law_response_carries_stable_identifier(
    tor_config: TorConfig,
    sender: EpicboxAddress,
    exchange: SlateExchange,
    inputs: Seq<Input>,
    i: int,
    request: RequestView,
)
    requires
        is_new(exchange),
        0 <= i < inputs.len(),
        exchange_step(tor_config, sender, exchange, inputs, i).step.effects.contains(
            EffectView::Post(request),
        ),
    ensures
        exchange.phase->Processing_0.slate.is_incomplete(),
        request matches RequestView::PostSlate {
            from,
            to,
            str,
            signature,
            epicboxtxid,
            epicboxtxidsig,
        } && {
            &&& from == sender.stripped@
            &&& to == exchange.from.stripped@
            &&& epicboxtxidsig is Some
            &&& epicboxtxid is Some
            &&& exists|k: int|
                0 <= k < i && #[trigger] learns_stable_id(
                    tor_config,
                    sender,
                    exchange,
                    inputs,
                    k,
                    epicboxtxid->0,
                )
        },
{
    let run = inputs.take(i);
    lemma_exchange_run(tor_config, sender, exchange, run);
    let before = exchange_after(tor_config, sender, exchange, run);
    let post = before.phase->Posting_0;
    let stable = post.epicboxtxid->0@;
    let k = choose|k: int|
        0 <= k < run.len() && #[trigger] learns_stable_id(
            tor_config,
            sender,
            exchange,
            run,
            k,
            stable,
        );
    assert(run.take(k) =~= inputs.take(k));
    assert(learns_stable_id(tor_config, sender, exchange, inputs, k, stable));
    assert(learns_stable_id(
        tor_config,
        sender,
        exchange,
        inputs,
        k,
        request->PostSlate_epicboxtxid->0,
    ));
}

/// A delivered Slate counts as handled only once the wallet has reported the
/// stable identifier of its transaction.
pub proof fn law_handled_slate_has_stable_identifier(
    tor_config: TorConfig,
    sender: EpicboxAddress,
    exchange: SlateExchange,
    inputs: Seq<Input>,
    i: int,
)
    requires
        is_new(exchange),
        0 <= i < inputs.len(),
        exchange_step(tor_config, sender, exchange, inputs, i).step.done == Some(
            Ok::<(), ErrorView>(()),
        ),
    ensures
        exists|k: int, stable: Seq<char>|
            0 <= k <= i && #[trigger] learns_stable_id(
                tor_config,
                sender,
                exchange,
                inputs,
                k,
                stable,
            ),
{
    let run = inputs.take(i);
    lemma_exchange_run(tor_config, sender, exchange, run);
    let before = exchange_after(tor_config, sender, exchange, run);
    if let ExchangePhase::Posting(post) = before.phase {
        let stable = post.epicboxtxid->0@;
        let k = choose|k: int|
            0 <= k < run.len() && #[trigger] learns_stable_id(
                tor_config,
                sender,
                exchange,
                run,
                k,
                stable,
            );
        assert(run.take(k) =~= inputs.take(k));
        assert(learns_stable_id(tor_config, sender, exchange, inputs, k, stable));
    } else {
        assert(learns_stable_id(
            tor_config,
            sender,
            exchange,
            inputs,
            i,
            inputs[i].2->Stored_0->Ok_0@,
        ));
    }
}

/// What is stored for a delivered Slate is its own candidate, under the Slate's
/// identifier as it was delivered.
pub proof fn law_stored_candidate_is_the_delivered_one(
    tor_config: TorConfig,
    sender: EpicboxAddress,
    exchange: SlateExchange,
    inputs: Seq<Input>,
    i: int,
    slate_id: uuid::Uuid,
    candidate: Seq<char>,
)
    requires
        is_new(exchange),
        0 <= i < inputs.len(),
        exchange_step(tor_config, sender, exchange, inputs, i).step.effects.contains(
            EffectView::StoreTxId { slate_id, candidate },
        ),
    ensures
        slate_id == exchange.tx_slate_id,
        candidate == exchange.candidate_epicboxtxid@,
{
    lemma_exchange_run(tor_config, sender, exchange, inputs.take(i));
}

/// What is finalized is the delivered Slate, and only where every participant has
/// added its data.
pub proof fn law_only_complete_slates_are_finalized(
    tor_config: TorConfig,
    sender: EpicboxAddress,
    exchange: SlateExchange,
    inputs: Seq<Input>,
    i: int,
    slate: Slate,
)
    requires
        is_new(exchange),
        0 <= i < inputs.len(),
        exchange_step(tor_config, sender, exchange, inputs, i).step.effects.contains(
            EffectView::FinalizeTx(slate),
        ),
    ensures
        slate == exchange.phase->Processing_0.slate,
        !slate.is_incomplete(),
{
    lemma_exchange_run(tor_config, sender, exchange, inputs.take(i));
}

/// The response is the Slate that the wallet gave back for the delivered one, or the
/// delivered Slate itself where it has no inputs to receive. It goes back where the
/// Slate came from and in the version in which it came.
pub proof fn law_response_is_the_received_slate(
    tor_config: TorConfig,
    sender: EpicboxAddress,
    exchange: SlateExchange,
    inputs: Seq<Input>,
    i: int,
    slate: Slate,
    to: EpicboxAddress,
    version: u16,
)
    requires
        is_new(exchange),
        0 <= i < inputs.len(),
        exchange_step(tor_config, sender, exchange, inputs, i).step.effects.contains(
            EffectView::Seal { slate, to, version },
        ),
    ensures
        is_kept(tor_config, sender, exchange, inputs, slate),
        to == exchange.from,
        version == exchange.version,
{
    lemma_exchange_run(tor_config, sender, exchange, inputs.take(i));
    lemma_kept_prefix(tor_config, sender, exchange, inputs, i, slate);
}

/// What is posted, over Tor or to the node, is a Slate that the wallet gave back as
/// finalized, and only for a delivered Slate that was complete.
pub proof fn law_posted_transaction_is_the_finalized_one(
    tor_config: TorConfig,
    sender: EpicboxAddress,
    exchange: SlateExchange,
    inputs: Seq<Input>,
    i: int,
    effect: EffectView,
    slate: Slate,
)
    requires
        is_new(exchange),
        0 <= i < inputs.len(),
        exchange_step(tor_config, sender, exchange, inputs, i).step.effects.contains(effect),
        (effect matches EffectView::PostTxTor { slate: posted, url } && posted == slate) || (
        effect matches EffectView::PostTx { slate: posted, fluff } && posted == slate) || (
        effect matches EffectView::UpdateMempoolStatus(posted) && posted == slate),
    ensures
        finalizes(inputs, slate),
        !exchange.phase->Processing_0.slate.is_incomplete(),
{
    let run = inputs.take(i);
    lemma_exchange_run(tor_config, sender, exchange, run);
    assert(exchange_step(tor_config, sender, exchange, inputs, i).step.effects[0] == effect);
    let before = exchange_before(tor_config, sender, exchange, inputs, i);
    if before.phase->Processing_0.phase is Finalizing {
        assert(finalized_by(inputs[i], slate));
    } else {
        let k = choose|k: int|
            0 <= k < run.len() && #[trigger] finalized_by(run[k], slate);
        assert(finalized_by(inputs[k], slate));
    }
}

/// Whatever the order of the Tor nodes, the one that a transaction is posted to is
/// among those that the wallet's node named.
pub proof fn law_tor_node_is_known(
    tor_config: TorConfig,
    finalized: FinalizedSlate,
    order: Seq<String>,
)
    requires
        is_onion_order(Reply::Finalized(Ok(finalized)), order),
    ensures
        tor_node(tor_config, order) matches Some(url) ==> known_onions(finalized).contains(url),
        tor_node(tor_config, order) is Some <==> known_onions(finalized).len() > 0
            && tor_config.use_tor_listener,
{
    broadcast use vstd::seq_lib::group_to_multiset_ensures;

    let known = known_onions(finalized);
    assert(order.to_multiset().len() == order.len());
    assert(known.to_multiset().len() == known.len());
    if order.len() > 0 {
        assert(order.contains(order[0]));
        assert(order.to_multiset().count(order[0]) > 0);
        assert(known.to_multiset().count(order[0]) > 0);
    }
}

/// A transaction that could not be posted over Tor is posted to the wallet's node.
pub proof fn law_tor_failure_falls_back(
    tor_config: TorConfig,
    incoming: IncomingSlate,
    order: Seq<String>,
    error: Error,
)
    requires
        incoming.phase is PostingTor,
    ensures
        ({
            let next = incoming_next(tor_config, incoming, order, Reply::Posted(Err(error)));
            &&& next.step == StepView::<bool>::ask(
                EffectView::PostTx {
                    slate: incoming.phase->PostingTor_finalized,
                    fluff: false,
                },
            )
            &&& next.incoming.phase == (IncomingPhase::Posting {
                finalized: incoming.phase->PostingTor_finalized,
            })
        }),
{
}

/// A posted transaction counts as finalized whether or not it was seen in the
/// mempool.
pub proof fn law_unseen_transaction_is_finalized(
    tor_config: TorConfig,
    incoming: IncomingSlate,
    order: Seq<String>,
    found: Result<bool, Error>,
)
    requires
        incoming.phase is Waiting,
        found != Ok::<bool, Error>(true),
    ensures
        incoming_next(tor_config, incoming, order, Reply::InMempool(found)).step == StepView::<
            bool,
        >::over(Ok(true)),
{
}

} // verus!
