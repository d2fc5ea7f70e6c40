//! What holds of posts and cancellations over one broker, from the request to its
//! acknowledgement.
use crate::broker::{
    post_cancel_tx_next, post_slate_next, CancelNext, CancelTx, EpicboxBroker,
    PendingPost, PostNext, PostPhase, PostSlate,
};
use crate::controller::{publish_next, Publisher};
use crate::effect::{EffectView, Reply, StepView};
use crate::error::ErrorView;
use crate::laws::client::response_of;
use crate::protocol::{ProtocolResponseV2, RequestV2View, RequestView};
use crate::subscribe::{preferred_id, subscribe_next, EpicboxClient};
use crate::text::opt_text;
use crate::wallet::{EpicboxAddress, Slate};
use vstd::prelude::*;

verus! {

/// One input of a task on a broker: the broker as the step finds it, and a reply.
pub type PostInput = (EpicboxBroker, Reply);

/// The post after a run over `inputs`.
pub open spec fn post_after(post: PostSlate, from: EpicboxAddress, inputs: Seq<PostInput>) -> PostSlate
    decreases inputs.len(),
{
    if inputs.len() == 0 {
        post
    } else {
        publish_next(
            inputs.last().0,
            post_after(post, from, inputs.drop_last()),
            from,
            inputs.last().1,
        ).post
    }
}

/// Step `i` of a run of a post.
pub open spec fn post_step(
    post: PostSlate,
    from: EpicboxAddress,
    inputs: Seq<PostInput>,
    i: int,
) -> PostNext {
    publish_next(inputs[i].0, post_after(post, from, inputs.take(i)), from, inputs[i].1)
}

/// The effect that a run of a post asked for last.
pub open spec fn post_asked(
    post: PostSlate,
    from: EpicboxAddress,
    inputs: Seq<PostInput>,
) -> Option<EffectView>
    decreases inputs.len(),
{
    if inputs.len() == 0 {
        None
    } else {
        let effects = publish_next(
            inputs.last().0,
            post_after(post, from, inputs.drop_last()),
            from,
            inputs.last().1,
        ).step.effects;
        if effects.len() > 0 {
            Some(effects.last())
        } else {
            post_asked(post, from, inputs.drop_last())
        }
    }
}

/// A post keeps what it is about, and waits for the reply to what it asked for
/// last.
proof fn lemma_post_run(post: PostSlate, from: EpicboxAddress, inputs: Seq<PostInput>)
    requires
        post.phase is Ready,
    ensures
        ({
            let after = post_after(post, from, inputs);
            let asked = post_asked(post, from, inputs);
            &&& after == PostSlate { phase: after.phase, ..post }
            &&& after.phase is Sealing ==> asked == Some(
                EffectView::Seal { slate: post.slate, to: post.to, version: post.version },
            )
            &&& after.phase matches PostPhase::SigningMessage { message } ==> asked == Some(
                EffectView::Sign(message@),
            )
            &&& after.phase is SigningId ==> post.epicboxtxid is Some && asked == Some(
                EffectView::Sign(post.epicboxtxid->0@),
            )
        }),
    decreases inputs.len(),
{
    if inputs.len() > 0 {
        lemma_post_run(post, from, inputs.drop_last());
    }
}

/// Every Slate that goes out carries the transaction identifier that its post was
/// given, and no other. Where there is one, the signature that goes with it is the
/// reply to signing that very identifier; where there is none, there is no such
/// signature.
pub proof fn law_post_carries_its_identifier(
    post: PostSlate,
    sender: EpicboxAddress,
    inputs: Seq<PostInput>,
    i: int,
    request: RequestView,
)
    requires
        post.phase is Ready,
        0 <= i < inputs.len(),
        post_step(post, sender, inputs, i).step.effects.contains(EffectView::Post(request)),
    ensures
        request matches RequestView::PostSlate {
            from,
            to,
            str,
            signature,
            epicboxtxid,
            epicboxtxidsig,
        } && {
            &&& from == sender.stripped@
            &&& to == post.to.stripped@
            &&& epicboxtxid == opt_text(post.epicboxtxid)
            &&& inputs[i].1 matches Reply::Signed(Ok(signed))
            &&& match post.epicboxtxid {
                Some(known) => {
                    &&& epicboxtxidsig == Some(signed@)
                    &&& post_asked(post, sender, inputs.take(i)) == Some(EffectView::Sign(known@))
                },
                None => {
                    &&& epicboxtxidsig is None
                    &&& signature == signed@
                    &&& post_asked(post, sender, inputs.take(i)) == Some(EffectView::Sign(str))
                },
            }
        },
{
    lemma_post_run(post, sender, inputs.take(i));
}

/// The only Slate that a post has sealed is its own, for its own destination and in
/// its own version.
pub proof fn law_post_seals_its_slate(
    post: PostSlate,
    sender: EpicboxAddress,
    inputs: Seq<PostInput>,
    i: int,
    slate: Slate,
    to: EpicboxAddress,
    version: u16,
)
    requires
        post.phase is Ready,
        0 <= i < inputs.len(),
        post_step(post, sender, inputs, i).step.effects.contains(
            EffectView::Seal { slate, to, version },
        ),
    ensures
        slate == post.slate,
        to == post.to,
        version == post.version,
{
    lemma_post_run(post, sender, inputs.take(i));
}

/// A Slate goes out only where no other post awaits its acknowledgement, and is
/// then the one that does.
pub proof fn law_one_pending_post(
    broker: EpicboxBroker,
    post: PostSlate,
    from: EpicboxAddress,
    reply: Reply,
    request: RequestView,
)
    requires
        post_slate_next(broker, post, from, reply).step.effects.contains(EffectView::Post(request)),
    ensures
        broker.pending_post is None,
        post_slate_next(broker, post, from, reply).broker == (EpicboxBroker {
            pending_post: Some(
                PendingPost { slate_id: post.slate.id, epicboxtxid: post.epicboxtxid },
            ),
            ..broker
        }),
{
}

/// A second Slate is refused while an acknowledgement is pending: nothing goes out
/// and the pending post stays.
pub proof fn law_second_post_is_refused(
    broker: EpicboxBroker,
    post: PostSlate,
    from: EpicboxAddress,
    signature: String,
)
    requires
        broker.pending_post is Some,
        post.phase is SigningId || (post.phase is SigningMessage && post.epicboxtxid is None),
    ensures
        ({
            let next = post_slate_next(broker, post, from, Reply::Signed(Ok(signature)));
            &&& next.broker == broker
            &&& next.step == StepView::<()>::over(
                Err(
                    ErrorView::EpicboxTungstenite(
                        "Cannot post a second Slate while a relay acknowledgement is pending"@,
                    ),
                ),
            )
        }),
{
}

/// A post that could not be sent awaits no acknowledgement.
pub proof fn law_unsent_post_is_not_pending(
    broker: EpicboxBroker,
    post: PostSlate,
    from: EpicboxAddress,
    text: String,
)
    requires
        post.phase is Sending,
    ensures
        ({
            let next = post_slate_next(broker, post, from, Reply::Sent(Err(text)));
            &&& next.broker.pending_post is None
            &&& next.step.done == Some(
                Err::<(), ErrorView>(
                    ErrorView::EpicboxTungstenite("Could not send PostSlate: "@ + text@),
                ),
            )
        }),
{
}

/// From the request to its acknowledgement: once a Slate is out, the relay's next
/// Ok with an identifier has the wallet store one for that very Slate, and frees
/// the broker for the next post. A transaction that already has an identifier
/// keeps it.
pub proof fn law_ack_belongs_to_the_posted_slate<P: Publisher>(
    broker: EpicboxBroker,
    post: PostSlate,
    from: EpicboxAddress,
    signed: Reply,
    request: RequestView,
    client: EpicboxClient<P>,
    order: Seq<String>,
    ack: Reply,
    epicboxmsgid: Option<String>,
    epicboxtxid: Option<String>,
)
    requires
        !broker.stopping,
        post_slate_next(broker, post, from, signed).step.effects.contains(
            EffectView::Post(request),
        ),
        client.phase is Reading,
        epicboxmsgid is Some || epicboxtxid is Some,
        response_of(ack) == Some(ProtocolResponseV2::Okay { epicboxmsgid, epicboxtxid }),
    ensures
        ({
            let posted = post_slate_next(broker, post, from, signed).broker;
            let next = subscribe_next(posted, client, order, ack);
            &&& next.broker == broker
            &&& next.step == StepView::<()>::ask(
                EffectView::StoreTxId {
                    slate_id: post.slate.id,
                    candidate: preferred_id(post.epicboxtxid, epicboxtxid, epicboxmsgid)->0@,
                },
            )
            &&& post.epicboxtxid is Some ==> preferred_id(
                post.epicboxtxid,
                epicboxtxid,
                epicboxmsgid,
            ) == post.epicboxtxid
        }),
{
}

/// A finished post stops the subscriber exactly where that was asked for; nothing
/// else that a post does touches the subscription or the stopping.
pub proof fn law_post_closes_only_on_request(
    broker: EpicboxBroker,
    post: PostSlate,
    from: EpicboxAddress,
    reply: Reply,
)
    ensures
        ({
            let next = publish_next(broker, post, from, reply);
            &&& next.broker.subscribed == broker.subscribed
            &&& next.broker.stopping == (broker.stopping || (post.close_connection
                && next.step.done == Some(Ok::<(), ErrorView>(()))))
        }),
{
}

/// The cancellation after a run over `inputs`.
pub open spec fn cancel_after(
    cancel: CancelTx,
    from: EpicboxAddress,
    inputs: Seq<PostInput>,
) -> CancelTx
    decreases inputs.len(),
{
    if inputs.len() == 0 {
        cancel
    } else {
        post_cancel_tx_next(
            inputs.last().0,
            cancel_after(cancel, from, inputs.drop_last()),
            from,
            inputs.last().1,
        ).cancel
    }
}

/// Step `i` of a run of a cancellation.
pub open spec fn cancel_step(
    cancel: CancelTx,
    from: EpicboxAddress,
    inputs: Seq<PostInput>,
    i: int,
) -> CancelNext {
    post_cancel_tx_next(inputs[i].0, cancel_after(cancel, from, inputs.take(i)), from, inputs[i].1)
}

/// Past its start, a cancellation began on a connection with a subscription.
proof fn lemma_cancel_run(cancel: CancelTx, from: EpicboxAddress, inputs: Seq<PostInput>)
    requires
        cancel.phase is Ready,
    ensures
        ({
            let after = cancel_after(cancel, from, inputs);
            &&& after.epicboxtxid == cancel.epicboxtxid
            &&& after.phase is Signing || after.phase is Sending ==> exists|j: int|
                0 <= j < inputs.len() && (#[trigger] inputs[j]).0.subscribed && inputs[j].1 is Begin
        }),
    decreases inputs.len(),
{
    if inputs.len() > 0 {
        let shorter = inputs.drop_last();
        lemma_cancel_run(cancel, from, shorter);
        let before = cancel_after(cancel, from, shorter);
        let after = cancel_after(cancel, from, inputs);
        if after.phase is Signing || after.phase is Sending {
            if before.phase is Ready {
                assert(inputs[inputs.len() - 1].0.subscribed);
            } else {
                let j = choose|j: int|
                    0 <= j < shorter.len() && (#[trigger] shorter[j]).0.subscribed
                        && shorter[j].1 is Begin;
                assert(inputs[j] == shorter[j]);
            }
        }
    }
}

/// A CancelTx goes out only on a connection that had a subscription when the
/// cancellation began; it names the transaction asked for, and carries the
/// signature that was made of it.
pub proof fn law_cancel_needs_subscription(
    cancel: CancelTx,
    from: EpicboxAddress,
    inputs: Seq<PostInput>,
    i: int,
    request: RequestV2View,
)
    requires
        cancel.phase is Ready,
        0 <= i < inputs.len(),
        cancel_step(cancel, from, inputs, i).step.effects.contains(EffectView::Send(request)),
    ensures
        inputs[i].1 matches Reply::Signed(Ok(signature)) && request == (RequestV2View::CancelTx {
            address: from.public_key@,
            epicboxtxid: cancel.epicboxtxid@,
            signature: signature@,
        }),
        exists|j: int|
            0 <= j < i && (#[trigger] inputs[j]).0.subscribed && inputs[j].1 is Begin,
{
    lemma_cancel_run(cancel, from, inputs.take(i));
    let j = choose|j: int|
        0 <= j < inputs.take(i).len() && (#[trigger] inputs.take(i)[j]).0.subscribed
            && inputs.take(i)[j].1 is Begin;
    assert(inputs[j] == inputs.take(i)[j]);
}

} // verus!
