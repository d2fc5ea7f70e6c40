//! What holds of a transaction's stable identifier: which one the wallet reports, and
//! that every acknowledgement and every response carries it.
use crate::broker::{BrokerEvent, EpicboxBroker};
use crate::controller::{on_slate_next, ExchangePhase, Publisher, SlateExchange};
use crate::effect::{EffectView, Reply, StepView};
use crate::error::{Error, ErrorView};
use crate::laws::client::{
    client_after, client_before, client_step, last_asked, law_post_ack_is_told_after_storing,
    law_waits_for_last_effect, lemma_handles, waits_for, Input,
};
use crate::laws::exchange::{
    exchange_step, is_new, law_response_carries_stable_identifier, learns_stable_id,
};
use crate::protocol::RequestView;
use crate::subscribe::{handling_next, subscribe_next, ClientPhase, EpicboxClient};
use crate::text::opt_text;
use crate::wallet::{EpicboxAddress, TorConfig};
use uuid::Uuid;
use vstd::prelude::*;

verus! {

/// The identifiers that a wallet holds for its transactions, by the Slate.
pub type TxIds = Map<Uuid, Seq<char>>;

/// The identifier that a wallet reports for a candidate: the one that it holds for the
/// Slate, or the candidate where it holds none.
pub open spec fn effective_id(held: TxIds, slate_id: Uuid, candidate: Seq<char>) -> Seq<char> {
    if held.contains_key(slate_id) {
        held[slate_id]
    } else {
        candidate
    }
}

/// What a wallet holds once it was asked to store a candidate.
pub open spec fn store_if_empty(held: TxIds, slate_id: Uuid, candidate: Seq<char>) -> TxIds {
    held.insert(slate_id, effective_id(held, slate_id, candidate))
}

/// Storing preserves: the identifier reported for a first candidate is the one already
/// held, or else that candidate, and any later candidate for the same Slate is answered
/// with it. Other Slates are not touched.
pub proof fn law_first_identifier_is_kept(
    held: TxIds,
    slate_id: Uuid,
    first: Seq<char>,
    second: Seq<char>,
    other: Uuid,
    candidate: Seq<char>,
)
    requires
        other != slate_id,
    ensures
        ({
            let stored = store_if_empty(held, slate_id, first);
            let x = effective_id(held, slate_id, first);
            &&& x == if held.contains_key(slate_id) {
                held[slate_id]
            } else {
                first
            }
            &&& stored[slate_id] == x
            &&& effective_id(stored, slate_id, second) == x
            &&& store_if_empty(stored, slate_id, second) == stored
            &&& effective_id(stored, other, candidate) == effective_id(held, other, candidate)
        }),
{
    let stored = store_if_empty(held, slate_id, first);
    assert(store_if_empty(stored, slate_id, second) =~= stored);
}

/// In step `k` of a run the wallet, asked to store the candidate for the Slate, reports
/// the identifier that holds.
pub open spec fn reports_id<P: Publisher>(
    client: EpicboxClient<P>,
    inputs: Seq<Input>,
    k: int,
    slate_id: Uuid,
    candidate: Seq<char>,
    stable: Seq<char>,
) -> bool {
    &&& 0 <= k < inputs.len()
    &&& last_asked(client, inputs.take(k)) == Some(EffectView::StoreTxId { slate_id, candidate })
    &&& inputs[k].2 matches Reply::Stored(Ok(id))
    &&& id@ == stable
}

/// `held` is a history of what the wallet holds along a run, before each step and at
/// its end. What it holds it keeps, whatever else is stored in between; and each time
/// that it is asked to store, it reports and then holds the effective identifier.
pub open spec fn is_history<P: Publisher>(
    client: EpicboxClient<P>,
    inputs: Seq<Input>,
    held: Seq<TxIds>,
) -> bool {
    &&& held.len() == inputs.len() + 1
    &&& forall|k: int| #![trigger held[k]] 0 <= k < inputs.len() ==> held[k].submap_of(held[k + 1])
    &&& forall|k: int, slate_id: Uuid, candidate: Seq<char>, stable: Seq<char>| #[trigger]
        reports_id(client, inputs, k, slate_id, candidate, stable) ==> {
            &&& stable == effective_id(held[k], slate_id, candidate)
            &&& held[k + 1].contains_key(slate_id)
            &&& held[k + 1][slate_id] == stable
        }
}

/// What a wallet holds it holds at every later time.
proof fn lemma_held_stays<P: Publisher>(
    client: EpicboxClient<P>,
    inputs: Seq<Input>,
    held: Seq<TxIds>,
    i: int,
    j: int,
)
    requires
        is_history(client, inputs, held),
        0 <= i <= j <= inputs.len(),
    ensures
        held[i].submap_of(held[j]),
    decreases j - i,
{
    if i < j {
        lemma_held_stays(client, inputs, held, i, j - 1);
        let (start, before, after) = (held[i], held[j - 1], held[j]);
        assert(before.submap_of(after));
        assert forall|id: Uuid| #[trigger] start.dom().contains(id) implies after.dom().contains(id)
            && start[id] == after[id] by {
            assert(before.dom().contains(id));
        }
    }
}

/// The first identifier that the wallet reports for a Slate in a run it reports ever
/// after, whatever the later candidates: it is the one that the wallet held before, or
/// else the first candidate.
pub proof fn law_reported_identifier_is_kept<P: Publisher>(
    client: EpicboxClient<P>,
    inputs: Seq<Input>,
    held: Seq<TxIds>,
    i: int,
    j: int,
    slate_id: Uuid,
    first: Seq<char>,
    second: Seq<char>,
    x: Seq<char>,
    y: Seq<char>,
)
    requires
        is_history(client, inputs, held),
        i <= j,
        reports_id(client, inputs, i, slate_id, first, x),
        reports_id(client, inputs, j, slate_id, second, y),
    ensures
        y == x,
        x == effective_id(held[i], slate_id, first),
        held[0].contains_key(slate_id) ==> x == held[0][slate_id],
{
    lemma_held_stays(client, inputs, held, 0, i);
    if i < j {
        lemma_held_stays(client, inputs, held, i + 1, j);
        assert(held[j].contains_key(slate_id));
        assert(held[j][slate_id] == held[i + 1][slate_id]);
    }
}

/// The effect, asked for in a phase, names an identifier for the transaction of a Slate:
/// it tells of the acknowledged post of that Slate, or it posts the response to the
/// delivery of that Slate.
pub open spec fn names_id(
    phase: ClientPhase,
    effect: EffectView,
    slate_id: Uuid,
    stable: Seq<char>,
) -> bool {
    match effect {
        EffectView::Emit(BrokerEvent::PostAck { slate_id: acknowledged, epicboxtxid }) =>
            acknowledged == slate_id && epicboxtxid@ == stable,
        EffectView::Post(request) => names_response_id(phase, request, slate_id, stable),
        _ => false,
    }
}

/// The request posts the response to the delivery of a Slate, with an identifier.
pub open spec fn names_response_id(
    phase: ClientPhase,
    request: RequestView,
    slate_id: Uuid,
    stable: Seq<char>,
) -> bool {
    &&& phase matches ClientPhase::HandlingSlate { epicboxmsgid, exchange }
    &&& exchange.tx_slate_id == slate_id
    &&& request matches RequestView::PostSlate {
        from,
        to,
        str,
        signature,
        epicboxtxid,
        epicboxtxidsig,
    }
    &&& epicboxtxid == Some(stable)
}

/// The response that a phase is posting, with the Slate that it answers.
spec fn posting_id(phase: ClientPhase) -> Option<(Uuid, Option<Seq<char>>)> {
    match phase {
        ClientPhase::HandlingSlate { epicboxmsgid, exchange } => match exchange.phase {
            ExchangePhase::Posting(post) => Some((exchange.tx_slate_id, opt_text(post.epicboxtxid))),
            _ => None,
        },
        _ => None,
    }
}

/// A response takes its identifier from the wallet's report, and keeps it.
proof fn lemma_posting_step<P: Publisher>(
    broker: EpicboxBroker,
    client: EpicboxClient<P>,
    order: Seq<String>,
    reply: Reply,
    asked: Option<EffectView>,
)
    requires
        waits_for(client, asked),
    ensures
        ({
            let next = subscribe_next(broker, client, order, reply);
            posting_id(next.client.phase) matches Some(posting) ==> posting_id(client.phase)
                == Some(posting) || {
                &&& reply matches Reply::Stored(Ok(id))
                &&& posting.1 == Some(id@)
                &&& asked matches Some(EffectView::StoreTxId { slate_id, candidate })
                &&& slate_id == posting.0
            }
        }),
{
    lemma_handles(broker, client, order, reply);
    reveal(handling_next);
}

/// A response goes out with the identifier that it was given.
proof fn lemma_post_step<P: Publisher>(
    broker: EpicboxBroker,
    client: EpicboxClient<P>,
    order: Seq<String>,
    reply: Reply,
    request: RequestView,
    slate_id: Uuid,
    stable: Seq<char>,
)
    requires
        subscribe_next(broker, client, order, reply).step.effects.contains(
            EffectView::Post(request),
        ),
        names_response_id(client.phase, request, slate_id, stable),
    ensures
        posting_id(client.phase) == Some((slate_id, Some(stable))),
{
    lemma_handles(broker, client, order, reply);
    reveal(handling_next);
}

/// Some step of a run reports the identifier for the Slate.
spec fn is_reported<P: Publisher>(
    client: EpicboxClient<P>,
    inputs: Seq<Input>,
    slate_id: Uuid,
    stable: Seq<char>,
) -> bool {
    exists|k: int, candidate: Seq<char>| #[trigger]
        reports_id(client, inputs, k, slate_id, candidate, stable)
}

/// What a run has reported stays reported when it grows.
proof fn lemma_reported_prefix<P: Publisher>(
    client: EpicboxClient<P>,
    inputs: Seq<Input>,
    n: int,
    slate_id: Uuid,
    stable: Seq<char>,
)
    requires
        0 <= n <= inputs.len(),
        is_reported(client, inputs.take(n), slate_id, stable),
    ensures
        is_reported(client, inputs, slate_id, stable),
{
    let (k, candidate) = choose|k: int, candidate: Seq<char>| #[trigger]
        reports_id(client, inputs.take(n), k, slate_id, candidate, stable);
    assert(inputs.take(n).take(k) =~= inputs.take(k));
    assert(reports_id(client, inputs, k, slate_id, candidate, stable));
}

/// A response that is being posted has its identifier from the wallet.
proof fn lemma_posting_run<P: Publisher>(client: EpicboxClient<P>, inputs: Seq<Input>)
    requires
        client.phase is Ready,
    ensures
        posting_id(client_after(client, inputs).phase) matches Some(posting) ==> {
            &&& posting.1 is Some
            &&& is_reported(client, inputs, posting.0, posting.1->0)
        },
    decreases inputs.len(),
{
    if inputs.len() > 0 {
        let shorter = inputs.drop_last();
        let last = inputs.len() - 1;
        let asked = last_asked(client, shorter);
        assert(inputs.take(last) =~= shorter);
        lemma_posting_run(client, shorter);
        law_waits_for_last_effect(client, shorter);
        lemma_posting_step(
            inputs[last].0,
            client_after(client, shorter),
            inputs[last].1,
            inputs[last].2,
            asked,
        );
        if let Some(posting) = posting_id(client_after(client, inputs).phase) {
            if posting_id(client_after(client, shorter).phase) == Some(posting) {
                lemma_reported_prefix(client, inputs, last, posting.0, posting.1->0);
            } else {
                assert(reports_id(
                    client,
                    inputs,
                    last,
                    posting.0,
                    asked->0->StoreTxId_candidate,
                    posting.1->0,
                ));
            }
        }
    }
}

/// Every identifier that the loop names was reported by the wallet for that Slate.
proof fn lemma_named_is_reported<P: Publisher>(
    client: EpicboxClient<P>,
    inputs: Seq<Input>,
    i: int,
    effect: EffectView,
    slate_id: Uuid,
    stable: Seq<char>,
)
    requires
        client.phase is Ready,
        0 <= i < inputs.len(),
        client_step(client, inputs, i).step.effects.contains(effect),
        names_id(client_before(client, inputs, i).phase, effect, slate_id, stable),
    ensures
        is_reported(client, inputs, slate_id, stable),
{
    match effect {
        EffectView::Emit(BrokerEvent::PostAck { slate_id: acknowledged, epicboxtxid }) => {
            law_post_ack_is_told_after_storing(client, inputs, i, acknowledged, epicboxtxid);
            let asked = last_asked(client, inputs.take(i));
            assert(reports_id(
                client,
                inputs,
                i,
                slate_id,
                asked->0->StoreTxId_candidate,
                stable,
            ));
        },
        EffectView::Post(request) => {
            lemma_post_step(
                inputs[i].0,
                client_before(client, inputs, i),
                inputs[i].1,
                inputs[i].2,
                request,
                slate_id,
                stable,
            );
            lemma_posting_run(client, inputs.take(i));
            lemma_reported_prefix(client, inputs, i, slate_id, stable);
        },
        _ => {},
    }
}

/// Where every report of the wallet for a Slate is the same identifier, every told
/// acknowledgement and every response for that Slate carries it.
pub proof fn law_named_identifier_is_the_reported_one<P: Publisher>(
    client: EpicboxClient<P>,
    inputs: Seq<Input>,
    i: int,
    effect: EffectView,
    slate_id: Uuid,
    named: Seq<char>,
    stable: Seq<char>,
)
    requires
        client.phase is Ready,
        forall|k: int, candidate: Seq<char>, reported: Seq<char>| #[trigger]
            reports_id(client, inputs, k, slate_id, candidate, reported) ==> reported == stable,
        0 <= i < inputs.len(),
        client_step(client, inputs, i).step.effects.contains(effect),
        names_id(client_before(client, inputs, i).phase, effect, slate_id, named),
    ensures
        named == stable,
{
    lemma_named_is_reported(client, inputs, i, effect, slate_id, named);
}

/// With a wallet that keeps what it holds, all acknowledgements and responses for one
/// Slate carry one identifier: the one that the wallet held from the start, if any.
pub proof fn law_one_identifier_for_each_slate<P: Publisher>(
    client: EpicboxClient<P>,
    inputs: Seq<Input>,
    held: Seq<TxIds>,
    i: int,
    j: int,
    first: EffectView,
    second: EffectView,
    slate_id: Uuid,
    x: Seq<char>,
    y: Seq<char>,
)
    requires
        client.phase is Ready,
        is_history(client, inputs, held),
        0 <= i < inputs.len(),
        0 <= j < inputs.len(),
        client_step(client, inputs, i).step.effects.contains(first),
        names_id(client_before(client, inputs, i).phase, first, slate_id, x),
        client_step(client, inputs, j).step.effects.contains(second),
        names_id(client_before(client, inputs, j).phase, second, slate_id, y),
    ensures
        x == y,
        held[0].contains_key(slate_id) ==> x == held[0][slate_id],
{
    lemma_named_is_reported(client, inputs, i, first, slate_id, x);
    lemma_named_is_reported(client, inputs, j, second, slate_id, y);
    let (k, a) = choose|k: int, a: Seq<char>| #[trigger]
        reports_id(client, inputs, k, slate_id, a, x);
    let (l, b) = choose|l: int, b: Seq<char>| #[trigger]
        reports_id(client, inputs, l, slate_id, b, y);
    if k <= l {
        law_reported_identifier_is_kept(client, inputs, held, k, l, slate_id, a, b, x, y);
    } else {
        law_reported_identifier_is_kept(client, inputs, held, l, k, slate_id, b, a, y, x);
    }
}

/// The same of the handling of one delivered Slate: where every report of the wallet is
/// the same identifier, the response carries it.
pub proof fn law_response_carries_the_reported_identifier(
    tor_config: TorConfig,
    sender: EpicboxAddress,
    exchange: SlateExchange,
    inputs: Seq<Input>,
    i: int,
    request: RequestView,
    stable: Seq<char>,
)
    requires
        is_new(exchange),
        forall|k: int, reported: Seq<char>|
            0 <= k < inputs.len() && #[trigger] learns_stable_id(
                tor_config,
                sender,
                exchange,
                inputs,
                k,
                reported,
            ) ==> reported == stable,
        0 <= i < inputs.len(),
        exchange_step(tor_config, sender, exchange, inputs, i).step.effects.contains(
            EffectView::Post(request),
        ),
    ensures
        request matches RequestView::PostSlate {
            from,
            to,
            str,
            signature,
            epicboxtxid,
            epicboxtxidsig,
        } && epicboxtxid == Some(stable),
{
    law_response_carries_stable_identifier(tor_config, sender, exchange, inputs, i, request);
}

/// An identifier that could not be stored is never taken for stored: the loop reports
/// the wallet's error and tells of no acknowledgement, and the handling of a delivered
/// Slate fails with it.
pub proof fn law_failed_storing_is_an_error<P: Publisher>(
    broker: EpicboxBroker,
    client: EpicboxClient<P>,
    tor_config: TorConfig,
    sender: EpicboxAddress,
    exchange: SlateExchange,
    order: Seq<String>,
    error: Error,
)
    ensures
        client.phase is StoringId ==> subscribe_next(
            broker,
            client,
            order,
            Reply::Stored(Err(error)),
        ).step == StepView::<()>::tell_and_ask(EffectView::Report(error@), EffectView::CheckNode),
        exchange.phase is Storing ==> on_slate_next(
            tor_config,
            sender,
            broker,
            exchange,
            order,
            Reply::Stored(Err(error)),
        ).step == StepView::<()>::over(Err::<(), ErrorView>(error@)),
{
}

} // verus!
