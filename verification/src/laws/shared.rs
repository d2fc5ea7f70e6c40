//! What holds where a publisher and a subscriber share one broker, whatever the order
//! in which their steps fall.
use crate::broker::{
    post_cancel_tx_next, BrokerEvent, CancelTx, EpicboxBroker, PendingPost, PostSlate,
};
use crate::controller::{publish_next, Publisher};
use crate::effect::{EffectView, Reply, StepView};
use crate::laws::client::{keeps_open, lemma_handles, lemma_subscription_step, response_of};
use crate::protocol::ProtocolResponseV2;
use crate::subscribe::{handling_next, preferred_id, subscribe_next, EpicboxClient};
use crate::wallet::EpicboxAddress;
use vstd::prelude::*;

verus! {

/// One step on the shared broker.
pub enum Act {
    /// The subscriber's loop takes a step.
    Loop { order: Seq<String>, reply: Reply },
    /// A publisher takes a step of a post, wherever that post stands.
    Post { post: PostSlate, from: EpicboxAddress, reply: Reply },
    /// The subscriber is told to stop.
    Stop,
}

/// A broker with the subscriber whose loop runs on it.
pub struct Shared<P: Publisher> {
    pub broker: EpicboxBroker,
    pub client: EpicboxClient<P>,
}

/// The broker and the subscriber after one step, and what the step gives.
pub open spec fn act_next<P: Publisher>(shared: Shared<P>, act: Act) -> (Shared<P>, StepView<()>) {
    match act {
        Act::Loop { order, reply } => {
            let next = subscribe_next(shared.broker, shared.client, order, reply);
            (Shared { broker: next.broker, client: next.client }, next.step)
        },
        Act::Post { post, from, reply } => {
            let next = publish_next(shared.broker, post, from, reply);
            (Shared { broker: next.broker, ..shared }, next.step)
        },
        Act::Stop => (
            Shared { broker: EpicboxBroker { stopping: true, ..shared.broker }, ..shared },
            StepView::idle(),
        ),
    }
}

/// The broker and the subscriber after a run over `acts`.
pub open spec fn shared_after<P: Publisher>(shared: Shared<P>, acts: Seq<Act>) -> Shared<P>
    decreases acts.len(),
{
    if acts.len() == 0 {
        shared
    } else {
        act_next(shared_after(shared, acts.drop_last()), acts.last()).0
    }
}

/// Step `i` of a run.
pub open spec fn shared_step<P: Publisher>(shared: Shared<P>, acts: Seq<Act>, i: int) -> (
    Shared<P>,
    StepView<()>,
) {
    act_next(shared_after(shared, acts.take(i)), acts[i])
}

/// A new connection: a fresh broker and a loop that has not begun.
pub open spec fn is_new_connection<P: Publisher>(shared: Shared<P>) -> bool {
    shared.broker == EpicboxBroker::fresh() && shared.client.phase is Ready
}

/// The step posts a Slate.
pub open spec fn posts(step: StepView<()>) -> bool {
    exists|j: int| 0 <= j < step.effects.len() && (#[trigger] step.effects[j]) is Post
}

/// The step tells of an acknowledged post.
pub open spec fn acknowledges(step: StepView<()>) -> bool {
    exists|j: int| 0 <= j < step.effects.len() && is_ack(#[trigger] step.effects[j])
}

/// The effect tells of an acknowledged post.
pub open spec fn is_ack(effect: EffectView) -> bool {
    effect matches EffectView::Emit(event) && event is PostAck
}

/// How many posts went out in a run, from either side.
pub open spec fn posted<P: Publisher>(shared: Shared<P>, acts: Seq<Act>) -> nat
    decreases acts.len(),
{
    if acts.len() == 0 {
        0
    } else {
        let earlier = posted(shared, acts.drop_last());
        if posts(act_next(shared_after(shared, acts.drop_last()), acts.last()).1) {
            earlier + 1
        } else {
            earlier
        }
    }
}

/// How many acknowledged posts were told in a run.
pub open spec fn acknowledged<P: Publisher>(shared: Shared<P>, acts: Seq<Act>) -> nat
    decreases acts.len(),
{
    if acts.len() == 0 {
        0
    } else {
        let earlier = acknowledged(shared, acts.drop_last());
        if acknowledges(act_next(shared_after(shared, acts.drop_last()), acts.last()).1) {
            earlier + 1
        } else {
            earlier
        }
    }
}

/// How many posts await their acknowledgement or its storing: the pending one, and the
/// one whose identifier is being stored.
pub open spec fn outstanding<P: Publisher>(shared: Shared<P>) -> nat {
    (if shared.broker.pending_post is Some {
        1nat
    } else {
        0nat
    }) + (if shared.client.phase is StoringId {
        1nat
    } else {
        0nat
    })
}

/// A step of handling a Slate: it may post the response, tells of no acknowledgement
/// and stores none.
proof fn lemma_handling_outstanding<P: Publisher>(
    broker: EpicboxBroker,
    client: EpicboxClient<P>,
    order: Seq<String>,
    reply: Reply,
)
    requires
        client.phase is HandlingSlate || client.phase is Decoding,
    ensures
        ({
            let next = subscribe_next(broker, client, order, reply);
            &&& !(next.client.phase is StoringId)
            &&& !acknowledges(next.step)
            &&& next.broker.pending_post is Some && broker.pending_post is None ==> posts(next.step)
            &&& posts(next.step) ==> broker.pending_post is None && next.broker.pending_post is Some
        }),
{
    lemma_handles(broker, client, order, reply);
    reveal(handling_next);
    let next = subscribe_next(broker, client, order, reply);
    if next.step.effects.len() > 0 {
        assert(next.step.effects[0] is Post ==> posts(next.step));
    }
}

/// One step adds no more to what is acknowledged or outstanding than it posts.
proof fn lemma_outstanding_step<P: Publisher>(shared: Shared<P>, act: Act)
    ensures
        ({
            let (after, step) = act_next(shared, act);
            let told: nat = if acknowledges(step) {
                1
            } else {
                0
            };
            let sent: nat = if posts(step) {
                1
            } else {
                0
            };
            told + outstanding(after) <= sent + outstanding(shared)
        }),
{
    let (after, step) = act_next(shared, act);
    match act {
        Act::Loop { order, reply } => {
            if shared.client.phase is HandlingSlate || shared.client.phase is Decoding {
                lemma_handling_outstanding(shared.broker, shared.client, order, reply);
            }
        },
        Act::Post { post, from, reply } => {
            if after.broker.pending_post is Some && shared.broker.pending_post is None {
                assert(step.effects[0] is Post);
            }
        },
        Act::Stop => {},
    }
}

/// A post is acknowledged at most once: at any time no more acknowledged posts have
/// been told than posts have gone out, counting those still outstanding.
pub proof fn law_posts_are_acknowledged_at_most_once<P: Publisher>(
    shared: Shared<P>,
    acts: Seq<Act>,
)
    requires
        is_new_connection(shared),
    ensures
        acknowledged(shared, acts) + outstanding(shared_after(shared, acts)) <= posted(
            shared,
            acts,
        ),
    decreases acts.len(),
{
    if acts.len() > 0 {
        law_posts_are_acknowledged_at_most_once(shared, acts.drop_last());
        lemma_outstanding_step(shared_after(shared, acts.drop_last()), acts.last());
    }
}

/// A post that the publisher sends is pending for the subscriber's loop: the relay's
/// Ok with an identifier, read next on the same broker, has the wallet store an
/// identifier for that very Slate.
pub proof fn law_published_post_is_pending_for_the_loop<P: Publisher>(
    shared: Shared<P>,
    post: PostSlate,
    from: EpicboxAddress,
    reply: Reply,
    order: Seq<String>,
    ack: Reply,
    epicboxmsgid: Option<String>,
    epicboxtxid: Option<String>,
)
    requires
        posts(act_next(shared, Act::Post { post, from, reply }).1),
        !shared.broker.stopping,
        shared.client.phase is Reading,
        epicboxmsgid is Some || epicboxtxid is Some,
        response_of(ack) == Some(ProtocolResponseV2::Okay { epicboxmsgid, epicboxtxid }),
    ensures
        ({
            let (published, _) = act_next(shared, Act::Post { post, from, reply });
            let (read, step) = act_next(published, Act::Loop { order, reply: ack });
            &&& published.broker.pending_post == Some(
                PendingPost { slate_id: post.slate.id, epicboxtxid: post.epicboxtxid },
            )
            &&& read.broker.pending_post is None
            &&& step == StepView::<()>::ask(
                EffectView::StoreTxId {
                    slate_id: post.slate.id,
                    candidate: preferred_id(post.epicboxtxid, epicboxtxid, epicboxmsgid)->0@,
                },
            )
        }),
{
}

/// The steps of both sides keep the responses of the loop from closing the connection.
proof fn lemma_keeps_open<P: Publisher>(shared: Shared<P>, acts: Seq<Act>)
    requires
        keeps_open(shared.client.phase),
    ensures
        keeps_open(shared_after(shared, acts).client.phase),
    decreases acts.len(),
{
    if acts.len() > 0 {
        let before = shared_after(shared, acts.drop_last());
        lemma_keeps_open(shared, acts.drop_last());
        if let Act::Loop { order, reply } = acts.last() {
            lemma_subscription_step(before.broker, before.client, order, reply);
        }
    }
}

/// A subscriber that was told to stop stops the broker of both sides for good: at every
/// later time the broker is stopping, and the loop's next read ends it normally.
pub proof fn law_stop_reaches_both_sides<P: Publisher>(
    shared: Shared<P>,
    acts: Seq<Act>,
    i: int,
    j: int,
)
    requires
        is_new_connection(shared),
        0 <= i < j <= acts.len(),
        acts[i] is Stop,
    ensures
        shared_after(shared, acts.take(j)).broker.stopping,
        j < acts.len() && shared_after(shared, acts.take(j)).client.phase is Reading && (
        acts[j] matches Act::Loop { order, reply } && reply is Read) ==> {
            &&& shared_step(shared, acts, j).0.client.phase is Ended
            &&& shared_step(shared, acts, j).1.done == Some(Ok::<(), crate::error::ErrorView>(()))
        },
    decreases j,
{
    assert(acts.take(j).drop_last() =~= acts.take(j - 1));
    let before = shared_after(shared, acts.take(j - 1));
    lemma_keeps_open(shared, acts.take(j - 1));
    if i < j - 1 {
        law_stop_reaches_both_sides(shared, acts, i, j - 1);
    }
    if let Act::Loop { order, reply } = acts[j - 1] {
        lemma_subscription_step(before.broker, before.client, order, reply);
    }
}

/// Step `k` of a run tells of the subscription.
pub open spec fn tells_subscribed<P: Publisher>(shared: Shared<P>, acts: Seq<Act>, k: int) -> bool {
    shared_step(shared, acts, k).1.effects.contains(EffectView::Emit(BrokerEvent::Subscribed))
}

/// The subscription of the loop is that of the publisher: a CancelTx passes on the
/// shared broker exactly where the loop has told of its subscription before; otherwise
/// it is refused.
pub proof fn law_subscription_lets_cancel_pass<P: Publisher>(
    shared: Shared<P>,
    acts: Seq<Act>,
    cancel: CancelTx,
    from: EpicboxAddress,
)
    requires
        is_new_connection(shared),
        cancel.phase is Ready,
    ensures
        ({
            let broker = shared_after(shared, acts).broker;
            let next = post_cancel_tx_next(broker, cancel, from, Reply::Begin);
            let subscribed = exists|k: int|
                0 <= k < acts.len() && #[trigger] tells_subscribed(shared, acts, k);
            &&& broker.subscribed == subscribed
            &&& subscribed <==> next.step == StepView::<()>::ask(
                EffectView::Sign(cancel.epicboxtxid@),
            )
            &&& !subscribed <==> next.step.done is Some
        }),
{
    lemma_subscribed(shared, acts);
    let broker = shared_after(shared, acts).broker;
    let next = post_cancel_tx_next(broker, cancel, from, Reply::Begin);
    if broker.subscribed {
        assert(next.step.done is None);
    }
}

/// The broker is subscribed exactly where the loop has told of it.
proof fn lemma_subscribed<P: Publisher>(shared: Shared<P>, acts: Seq<Act>)
    requires
        is_new_connection(shared),
    ensures
        shared_after(shared, acts).broker.subscribed == exists|k: int|
            0 <= k < acts.len() && #[trigger] tells_subscribed(shared, acts, k),
    decreases acts.len(),
{
    if acts.len() > 0 {
        let shorter = acts.drop_last();
        let last = acts.len() - 1;
        let before = shared_after(shared, shorter);
        lemma_subscribed(shared, shorter);
        lemma_keeps_open(shared, shorter);
        assert(acts.take(last) =~= shorter);
        assert forall|k: int| 0 <= k < last implies #[trigger] tells_subscribed(shared, acts, k)
            == tells_subscribed(shared, shorter, k) by {
            assert(shorter.take(k) =~= acts.take(k));
        }
        match acts.last() {
            Act::Loop { order, reply } => {
                lemma_subscription_step(before.broker, before.client, order, reply);
            },
            Act::Post { post, from, reply } => {},
            Act::Stop => {},
        }
        if shared_after(shared, acts).broker.subscribed {
            if before.broker.subscribed {
                let k = choose|k: int|
                    0 <= k < shorter.len() && #[trigger] tells_subscribed(shared, shorter, k);
                assert(tells_subscribed(shared, acts, k));
            } else {
                assert(tells_subscribed(shared, acts, last));
            }
        } else {
            assert(!tells_subscribed(shared, acts, last));
            assert forall|k: int| 0 <= k < acts.len() implies !#[trigger] tells_subscribed(
                shared,
                acts,
                k,
            ) by {
                if k < last {
                    assert(!tells_subscribed(shared, shorter, k));
                }
            }
        }
    }
}

} // verus!
