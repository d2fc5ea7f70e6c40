//! What holds of every one-shot session, and of the listeners of a container.
use crate::broker::{BrokerEvent, EpicboxBroker};
use crate::channel::{
    cancel_next, listen_next, send_next, teardown, wait_for_next, CancelSession,
    CancelSessionNext, CancelSessionPhase, ChannelSettings, Listen, SendNext, SendPhase, SendSlate,
    WaitNext, WaitPhase, SLATE_V2,
};
use crate::effect::{EffectView, Reply, StepView};
use crate::error::ErrorView;
use crate::laws::client::Input;
use crate::laws::posting::PostInput;
use crate::listener::{
    start_next, ContainerView, EpicboxListener, ListenerInterface, PublishPhase, Starting,
};
use crate::protocol::{RequestV2View, RequestView};
use crate::wallet::{EpicboxConfig, TorConfig};
use vstd::prelude::*;

verus! {

/// A listener that was put on an interface is found there.
pub proof fn law_inserted_listener_is_found(
    container: ContainerView,
    interface: ListenerInterface,
    listener: EpicboxListener,
)
    ensures
        container.with(interface, listener).listener(interface) == Ok::<
            EpicboxListener,
            ErrorView,
        >(listener),
{
}

/// A listener that was removed is not found any more; the error names the
/// interface. Removing it again changes nothing.
pub proof fn law_removed_listener_is_gone(container: ContainerView, interface: ListenerInterface)
    ensures
        container.without(interface).listener(interface) == Err::<EpicboxListener, ErrorView>(
            ErrorView::NoListener(interface.text()),
        ),
        container.without(interface).without(interface) == container.without(interface),
{
    assert(container.without(interface).without(interface) =~= container.without(interface));
}

/// A wait ends with success exactly when the wanted event comes in, and gives up
/// exactly when no time is left or no more events come.
pub proof fn law_wait_ends_with_the_wanted_event(met: bool, phase: WaitPhase, reply: Reply)
    ensures
        ({
            let done = wait_for_next(met, phase, reply).step.done;
            &&& done == Some(Ok::<bool, ErrorView>(true)) <==> phase is Receiving && (
            reply matches Reply::Event(Some(_))) && met
            &&& done == Some(Ok::<bool, ErrorView>(false)) <==> (phase is CheckingClock && (
            reply matches Reply::Remaining(nanos) && nanos == 0)) || (phase is Receiving && (
            reply matches Reply::Event(None)))
            &&& !(done matches Some(Err(_)))
        }),
{
}

/// The reply brings an event that the predicate wants.
pub open spec fn brings(accepts: spec_fn(BrokerEvent) -> bool, reply: Reply) -> bool {
    reply matches Reply::Event(Some(event)) && accepts(event)
}

/// A wait for what a predicate wants, after a run over `replies`.
pub open spec fn wait_after(
    accepts: spec_fn(BrokerEvent) -> bool,
    phase: WaitPhase,
    replies: Seq<Reply>,
) -> WaitPhase
    decreases replies.len(),
{
    if replies.len() == 0 {
        phase
    } else {
        wait_for_next(
            brings(accepts, replies.last()),
            wait_after(accepts, phase, replies.drop_last()),
            replies.last(),
        ).phase
    }
}

/// Step `i` of a wait.
pub open spec fn wait_step(
    accepts: spec_fn(BrokerEvent) -> bool,
    phase: WaitPhase,
    replies: Seq<Reply>,
    i: int,
) -> WaitNext {
    wait_for_next(
        brings(accepts, replies[i]),
        wait_after(accepts, phase, replies.take(i)),
        replies[i],
    )
}

/// An over wait stays over.
proof fn lemma_wait_stays_over(
    accepts: spec_fn(BrokerEvent) -> bool,
    phase: WaitPhase,
    replies: Seq<Reply>,
    i: int,
    j: int,
)
    requires
        0 <= i <= j <= replies.len(),
        wait_after(accepts, phase, replies.take(i)) is Done,
    ensures
        wait_after(accepts, phase, replies.take(j)) is Done,
    decreases j - i,
{
    if i < j {
        lemma_wait_stays_over(accepts, phase, replies, i, j - 1);
        assert(replies.take(j).drop_last() =~= replies.take(j - 1));
    }
}

/// A wait takes events up to the first that the predicate wants and no further: with
/// that event it ends, no event that it received before was wanted, and it asks for
/// no other one after.
pub proof fn law_wait_takes_events_up_to_the_first_match(
    accepts: spec_fn(BrokerEvent) -> bool,
    phase: WaitPhase,
    replies: Seq<Reply>,
    i: int,
    j: int,
)
    requires
        0 <= i < replies.len(),
        0 <= j < replies.len(),
        wait_step(accepts, phase, replies, i).step.done == Some(Ok::<bool, ErrorView>(true)),
    ensures
        brings(accepts, replies[i]),
        j < i && wait_after(accepts, phase, replies.take(j)) is Receiving ==> !brings(
            accepts,
            replies[j],
        ),
        j > i ==> wait_step(accepts, phase, replies, j).step == StepView::<bool>::idle(),
{
    if j < i && wait_after(accepts, phase, replies.take(j)) is Receiving && brings(
        accepts,
        replies[j],
    ) {
        assert(replies.take(j + 1).drop_last() =~= replies.take(j));
        lemma_wait_stays_over(accepts, phase, replies, j + 1, i);
    }
    if j > i {
        assert(replies.take(i + 1).drop_last() =~= replies.take(i));
        lemma_wait_stays_over(accepts, phase, replies, i + 1, j);
    }
}

/// A cancelling session with its container after a run over `inputs`.
pub open spec fn cancel_session_after(
    settings: ChannelSettings,
    start: (ContainerView, CancelSession),
    inputs: Seq<PostInput>,
) -> (ContainerView, CancelSession)
    decreases inputs.len(),
{
    if inputs.len() == 0 {
        start
    } else {
        let (container, cancel) = cancel_session_after(
            settings,
            start,
            inputs.drop_last(),
        );
        let next = cancel_next(
            settings,
            container,
            inputs.last().0,
            cancel,
            inputs.last().1,
        );
        (next.container, next.cancel)
    }
}

/// Step `i` of a run of a cancelling session.
pub open spec fn cancel_session_step(
    settings: ChannelSettings,
    start: (ContainerView, CancelSession),
    inputs: Seq<PostInput>,
    i: int,
) -> CancelSessionNext {
    let (container, cancel) = cancel_session_after(
        settings,
        start,
        inputs.take(i),
    );
    cancel_next(settings, container, inputs[i].0, cancel, inputs[i].1)
}

/// Step `j` of a run is told of the subscription.
pub open spec fn hears_subscribed(inputs: Seq<PostInput>, j: int) -> bool {
    0 <= j < inputs.len() && inputs[j].1 == Reply::Event(Some(BrokerEvent::Subscribed))
}

/// Step `k` of a run sends a CancelTx for the transaction.
pub open spec fn sends_cancel_tx(
    settings: ChannelSettings,
    start: (ContainerView, CancelSession),
    inputs: Seq<PostInput>,
    k: int,
) -> bool {
    0 <= k < inputs.len() && exists|address: Seq<char>, signature: Seq<char>|
        cancel_session_step(settings, start, inputs, k).step.effects.contains(
            #[trigger] cancel_tx_effect(address, start.1.epicboxtxid@, signature),
        )
}

/// Sending a CancelTx.
pub open spec fn cancel_tx_effect(
    address: Seq<char>,
    epicboxtxid: Seq<char>,
    signature: Seq<char>,
) -> EffectView {
    EffectView::Send(RequestV2View::CancelTx { address, epicboxtxid, signature })
}

/// What a run says of its earlier steps stands when it grows.
proof fn lemma_cancel_prefix(
    settings: ChannelSettings,
    start: (ContainerView, CancelSession),
    inputs: Seq<PostInput>,
    longer: Seq<PostInput>,
    k: int,
)
    requires
        inputs.len() <= longer.len(),
        inputs == longer.take(inputs.len() as int),
    ensures
        hears_subscribed(inputs, k) ==> hears_subscribed(longer, k),
        sends_cancel_tx(settings, start, inputs, k) ==> sends_cancel_tx(
            settings,
            start,
            longer,
            k,
        ),
{
    if 0 <= k < inputs.len() {
        assert(inputs.take(k) =~= longer.take(k));
        assert(inputs[k] == longer[k]);
    }
}

/// What each phase of a cancelling session goes back to.
#[verifier::rlimit(40)]
proof fn lemma_cancel_session_run(
    settings: ChannelSettings,
    start: (ContainerView, CancelSession),
    inputs: Seq<PostInput>,
)
    requires
        start.1.phase is Ready,
    ensures
        ({
            let (container, cancel) = cancel_session_after(settings, start, inputs);
            &&& cancel.epicboxtxid == start.1.epicboxtxid
            &&& cancel.phase is Starting ==> container.listener(ListenerInterface::Epicbox) is Err
            &&& cancel.phase matches CancelSessionPhase::Cancelling(request) ==> {
                &&& request.epicboxtxid == cancel.epicboxtxid
                &&& exists|j: int| #[trigger] hears_subscribed(inputs, j)
                &&& request.phase is Sending ==> exists|j: int, k: int|
                    j < k && #[trigger] hears_subscribed(inputs, j) && #[trigger] sends_cancel_tx(
                        settings,
                        start,
                        inputs,
                        k,
                    )
            }
            &&& cancel.phase is AwaitingConfirmation ==> exists|j: int, k: int|
                j < k && #[trigger] hears_subscribed(inputs, j) && #[trigger] sends_cancel_tx(
                    settings,
                    start,
                    inputs,
                    k,
                )
        }),
    decreases inputs.len(),
{
    if inputs.len() > 0 {
        let shorter = inputs.drop_last();
        let last = inputs.len() - 1;
        lemma_cancel_session_run(settings, start, shorter);
        assert(inputs.take(last) =~= shorter);
        let (container, cancel) = cancel_session_after(settings, start, shorter);
        let (container2, after) = cancel_session_after(settings, start, inputs);
        let step = cancel_session_step(settings, start, inputs, last).step;
        match cancel.phase {
            CancelSessionPhase::AwaitingSubscription(wait) => {
                if after.phase is Cancelling {
                    assert(hears_subscribed(inputs, last));
                }
            },
            CancelSessionPhase::Cancelling(request) => {
                let j = choose|j: int| #[trigger] hears_subscribed(shorter, j);
                lemma_cancel_prefix(settings, start, shorter, inputs, j);
                assert(hears_subscribed(inputs, j));
                if request.phase is Sending {
                    let (j0, k0) = choose|j0: int, k0: int|
                        j0 < k0 && #[trigger] hears_subscribed(shorter, j0)
                            && #[trigger] sends_cancel_tx(
                            settings,
                            start,
                            shorter,
                            k0,
                        );
                    lemma_cancel_prefix(settings, start, shorter, inputs, j0);
                    lemma_cancel_prefix(settings, start, shorter, inputs, k0);
                } else if after.phase matches CancelSessionPhase::Cancelling(now) && now.phase is Sending {
                    let sender = container.listener(
                        ListenerInterface::Epicbox,
                    )->Ok_0.publisher.address;
                    let sent = cancel_tx_effect(
                        sender.public_key@,
                        start.1.epicboxtxid@,
                        inputs[last].1->Signed_0->Ok_0@,
                    );
                    assert(step.effects[0] == sent);
                    assert(step.effects.contains(sent));
                    assert(sends_cancel_tx(settings, start, inputs, last));
                }
            },
            CancelSessionPhase::AwaitingConfirmation(wait) => {
                let (j0, k0) = choose|j0: int, k0: int|
                    j0 < k0 && #[trigger] hears_subscribed(shorter, j0)
                        && #[trigger] sends_cancel_tx(
                        settings,
                        start,
                        shorter,
                        k0,
                    );
                lemma_cancel_prefix(settings, start, shorter, inputs, j0);
                lemma_cancel_prefix(settings, start, shorter, inputs, k0);
            },
            _ => {},
        }
    }
}

/// Cancelling succeeds only where the relay's cancellation of this very
/// transaction is told, after the subscription was established and then a CancelTx
/// for the transaction was sent.
pub proof fn law_cancel_succeeds_only_when_confirmed(
    settings: ChannelSettings,
    start: (ContainerView, CancelSession),
    inputs: Seq<PostInput>,
    i: int,
)
    requires
        start.1.phase is Ready,
        0 <= i < inputs.len(),
        cancel_session_step(settings, start, inputs, i).step.done == Some(
            Ok::<(), ErrorView>(()),
        ),
    ensures
        inputs[i].1 matches Reply::Event(Some(BrokerEvent::Cancelled { epicboxtxid }))
            && epicboxtxid@ == start.1.epicboxtxid@,
        exists|j: int, k: int|
            j < k < i && #[trigger] hears_subscribed(inputs, j) && #[trigger] sends_cancel_tx(
                settings,
                start,
                inputs,
                k,
            ),
{
    let run = inputs.take(i);
    lemma_cancel_session_run(settings, start, run);
    let (j, k) = choose|j: int, k: int|
        j < k && #[trigger] hears_subscribed(run, j) && #[trigger] sends_cancel_tx(
            settings,
            start,
            run,
            k,
        );
    assert(inputs.take(run.len() as int) =~= run);
    lemma_cancel_prefix(settings, start, run, inputs, j);
    lemma_cancel_prefix(settings, start, run, inputs, k);
}

/// Whenever a cancelling session reports its outcome, no listener is left behind.
pub proof fn law_cancel_leaves_no_listener(
    settings: ChannelSettings,
    start: (ContainerView, CancelSession),
    inputs: Seq<PostInput>,
    i: int,
)
    requires
        start.1.phase is Ready,
        0 <= i < inputs.len(),
        cancel_session_step(settings, start, inputs, i).step.done is Some,
    ensures
        cancel_session_step(settings, start, inputs, i).container.listener(
            ListenerInterface::Epicbox,
        ) is Err,
{
    lemma_cancel_session_run(settings, start, inputs.take(i));
}

/// A sending session with its container after a run over `inputs`.
pub open spec fn send_after(
    settings: ChannelSettings,
    start: (ContainerView, SendSlate),
    inputs: Seq<PostInput>,
) -> (ContainerView, SendSlate)
    decreases inputs.len(),
{
    if inputs.len() == 0 {
        start
    } else {
        let (container, send) = send_after(settings, start, inputs.drop_last());
        let next = send_next(
            settings,
            container,
            inputs.last().0,
            send,
            inputs.last().1,
        );
        (next.container, next.send)
    }
}

/// Step `i` of a run of a sending session.
pub open spec fn send_step(
    settings: ChannelSettings,
    start: (ContainerView, SendSlate),
    inputs: Seq<PostInput>,
    i: int,
) -> SendNext {
    let (container, send) = send_after(settings, start, inputs.take(i));
    send_next(settings, container, inputs[i].0, send, inputs[i].1)
}

/// Step `k` of a run posts the Slate.
pub open spec fn posts_slate(
    settings: ChannelSettings,
    start: (ContainerView, SendSlate),
    inputs: Seq<PostInput>,
    k: int,
) -> bool {
    0 <= k < inputs.len() && exists|request: RequestView|
        send_step(settings, start, inputs, k).step.effects.contains(
            #[trigger] post_effect(request),
        )
}

/// Sending a request of the first protocol version.
pub open spec fn post_effect(request: RequestView) -> EffectView {
    EffectView::Post(request)
}

/// What a run says of its earlier steps stands when it grows.
proof fn lemma_send_prefix(
    settings: ChannelSettings,
    start: (ContainerView, SendSlate),
    inputs: Seq<PostInput>,
    longer: Seq<PostInput>,
    k: int,
)
    requires
        inputs.len() <= longer.len(),
        inputs == longer.take(inputs.len() as int),
    ensures
        posts_slate(settings, start, inputs, k) ==> posts_slate(
            settings,
            start,
            longer,
            k,
        ),
{
    if 0 <= k < inputs.len() {
        assert(inputs.take(k) =~= longer.take(k));
        assert(inputs[k] == longer[k]);
    }
}

/// What each phase of a sending session goes back to.
#[verifier::rlimit(40)]
proof fn lemma_send_run(
    settings: ChannelSettings,
    start: (ContainerView, SendSlate),
    inputs: Seq<PostInput>,
)
    requires
        start.1.phase is Ready,
    ensures
        ({
            let (container, send) = send_after(settings, start, inputs);
            &&& send.slate == start.1.slate
            &&& send.phase is Starting ==> container.listener(ListenerInterface::Epicbox) is Err
            &&& send.phase matches SendPhase::Publishing(publish) ==> {
                &&& publish.slate == send.slate
                &&& publish.version == SLATE_V2
                &&& publish.to == settings.channel.dest
                &&& publish.epicboxtxid is None
                &&& publish.phase matches PublishPhase::Posting(post) ==> {
                    &&& post.epicboxtxid is None
                    &&& post.version == SLATE_V2
                    &&& post.slate == send.slate
                    &&& !post.close_connection
                    &&& !(post.phase is SigningId)
                    &&& post.phase is Sending ==> exists|k: int|
                        #[trigger] posts_slate(settings, start, inputs, k)
                }
            }
            &&& send.phase is Waiting ==> exists|k: int|
                #[trigger] posts_slate(settings, start, inputs, k)
        }),
    decreases inputs.len(),
{
    if inputs.len() > 0 {
        let shorter = inputs.drop_last();
        let last = inputs.len() - 1;
        lemma_send_run(settings, start, shorter);
        assert(inputs.take(last) =~= shorter);
        let (container, send) = send_after(settings, start, shorter);
        let (container2, after) = send_after(settings, start, inputs);
        let step = send_step(settings, start, inputs, last).step;
        if exists|k: int| #[trigger] posts_slate(settings, start, shorter, k) {
            let k = choose|k: int|
                #[trigger] posts_slate(settings, start, shorter, k);
            lemma_send_prefix(settings, start, shorter, inputs, k);
        }
        if let SendPhase::Publishing(publish) = send.phase {
            if let PublishPhase::Posting(post) = publish.phase {
                if after.phase matches SendPhase::Publishing(now)
                    && now.phase matches PublishPhase::Posting(sent) && sent.phase is Sending
                    && !(post.phase is Sending) {
                    assert(post.phase is SigningMessage);
                    let request = step.effects[0]->Post_0;
                    assert(step.effects[0] == post_effect(request));
                    assert(step.effects.contains(post_effect(request)));
                    assert(posts_slate(settings, start, inputs, last));
                }
            }
        }
    }
}

/// The first Slate of a transaction goes out without an identifier: the
/// destination's relay creates it.
pub proof fn law_first_slate_has_no_identifier(
    settings: ChannelSettings,
    start: (ContainerView, SendSlate),
    inputs: Seq<PostInput>,
    i: int,
    request: RequestView,
)
    requires
        start.1.phase is Ready,
        0 <= i < inputs.len(),
        send_step(settings, start, inputs, i).step.effects.contains(
            EffectView::Post(request),
        ),
    ensures
        request matches RequestView::PostSlate {
            from,
            to,
            str,
            signature,
            epicboxtxid,
            epicboxtxidsig,
        } && epicboxtxid is None && epicboxtxidsig is None,
{
    lemma_send_run(settings, start, inputs.take(i));
}

/// The session of a sent Slate is kept alive until the relay acknowledges a post,
/// the deadline is reached or no more events come: only then does sending succeed,
/// and the Slate was posted before.
pub proof fn law_send_waits_for_acknowledgement(
    settings: ChannelSettings,
    start: (ContainerView, SendSlate),
    inputs: Seq<PostInput>,
    i: int,
)
    requires
        start.1.phase is Ready,
        0 <= i < inputs.len(),
        send_step(settings, start, inputs, i).step.done == Some(
            Ok::<(), ErrorView>(()),
        ),
    ensures
        match inputs[i].1 {
            Reply::Event(Some(event)) => event is PostAck,
            Reply::Event(None) => true,
            Reply::Remaining(nanos) => nanos == 0,
            _ => false,
        },
        exists|k: int|
            k < i && #[trigger] posts_slate(settings, start, inputs, k),
{
    let run = inputs.take(i);
    lemma_send_run(settings, start, run);
    let k = choose|k: int| #[trigger] posts_slate(settings, start, run, k);
    assert(inputs.take(run.len() as int) =~= run);
    lemma_send_prefix(settings, start, run, inputs, k);
}

/// The Slate of a sending session is out.
spec fn is_out(phase: SendPhase) -> bool {
    match phase {
        SendPhase::Ready => false,
        SendPhase::Starting(_) => false,
        SendPhase::Publishing(publish) => match publish.phase {
            PublishPhase::Posting(post) => post.phase is Sending || post.phase is Done,
            PublishPhase::Done => true,
            _ => false,
        },
        SendPhase::Waiting(_) => true,
        SendPhase::Done => true,
    }
}

/// A step that posts puts the Slate out, and nothing is posted after.
proof fn lemma_out_step(
    settings: ChannelSettings,
    container: ContainerView,
    broker: EpicboxBroker,
    send: SendSlate,
    reply: Reply,
    request: RequestView,
)
    ensures
        ({
            let next = send_next(settings, container, broker, send, reply);
            &&& is_out(send.phase) ==> is_out(next.send.phase)
            &&& next.step.effects.contains(EffectView::Post(request)) ==> !is_out(send.phase)
                && is_out(next.send.phase)
            &&& send.phase is Done ==> next.send.phase is Done && next.step == StepView::<
                (),
            >::idle()
            &&& next.step.effects.contains(EffectView::JoinListener) ==> next.send.phase is Done
        }),
{
}

/// What a run has reached it keeps.
proof fn lemma_out_stays(
    settings: ChannelSettings,
    start: (ContainerView, SendSlate),
    inputs: Seq<PostInput>,
    i: int,
    j: int,
)
    requires
        0 <= i <= j <= inputs.len(),
    ensures
        is_out(send_after(settings, start, inputs.take(i)).1.phase) ==> is_out(
            send_after(settings, start, inputs.take(j)).1.phase,
        ),
        send_after(settings, start, inputs.take(i)).1.phase is Done ==> send_after(
            settings,
            start,
            inputs.take(j),
        ).1.phase is Done,
    decreases j - i,
{
    if i < j {
        lemma_out_stays(settings, start, inputs, i, j - 1);
        assert(inputs.take(j).drop_last() =~= inputs.take(j - 1));
        let (container, send) = send_after(settings, start, inputs.take(j - 1));
        lemma_out_step(
            settings,
            container,
            inputs[j - 1].0,
            send,
            inputs[j - 1].1,
            RequestView::Challenge,
        );
    }
}

/// A sending session posts at most once.
pub proof fn law_send_posts_once(
    settings: ChannelSettings,
    start: (ContainerView, SendSlate),
    inputs: Seq<PostInput>,
    i: int,
    j: int,
    first: RequestView,
    second: RequestView,
)
    requires
        0 <= i < inputs.len(),
        0 <= j < inputs.len(),
        send_step(settings, start, inputs, i).step.effects.contains(EffectView::Post(first)),
        send_step(settings, start, inputs, j).step.effects.contains(EffectView::Post(second)),
    ensures
        i == j,
{
    if i < j {
        lemma_posted_before(settings, start, inputs, i, j, first, second);
    } else if j < i {
        lemma_posted_before(settings, start, inputs, j, i, second, first);
    }
}

/// No post follows another.
proof fn lemma_posted_before(
    settings: ChannelSettings,
    start: (ContainerView, SendSlate),
    inputs: Seq<PostInput>,
    i: int,
    j: int,
    first: RequestView,
    second: RequestView,
)
    requires
        0 <= i < j < inputs.len(),
        send_step(settings, start, inputs, i).step.effects.contains(EffectView::Post(first)),
    ensures
        !send_step(settings, start, inputs, j).step.effects.contains(EffectView::Post(second)),
{
    let (container, send) = send_after(settings, start, inputs.take(i));
    lemma_out_step(settings, container, inputs[i].0, send, inputs[i].1, first);
    assert(inputs.take(i + 1).drop_last() =~= inputs.take(i));
    lemma_out_stays(settings, start, inputs, i + 1, j);
    let (later, sent) = send_after(settings, start, inputs.take(j));
    lemma_out_step(settings, later, inputs[j].0, sent, inputs[j].1, second);
}

/// A sending session stops and joins its listener at most once.
pub proof fn law_send_stops_once(
    settings: ChannelSettings,
    start: (ContainerView, SendSlate),
    inputs: Seq<PostInput>,
    i: int,
    j: int,
)
    requires
        0 <= i < j < inputs.len(),
        send_step(settings, start, inputs, i).step.effects.contains(EffectView::JoinListener),
    ensures
        !send_step(settings, start, inputs, j).step.effects.contains(EffectView::JoinListener),
{
    let (container, send) = send_after(settings, start, inputs.take(i));
    lemma_out_step(settings, container, inputs[i].0, send, inputs[i].1, RequestView::Challenge);
    assert(inputs.take(i + 1).drop_last() =~= inputs.take(i));
    lemma_out_stays(settings, start, inputs, i + 1, j);
    let (later, sent) = send_after(settings, start, inputs.take(j));
    lemma_out_step(settings, later, inputs[j].0, sent, inputs[j].1, RequestView::Challenge);
}

/// Stopping the listener of a one-shot session closes its websocket and waits for its
/// subscriber, stops the broker and leaves no listener.
pub proof fn law_teardown_closes_and_joins(
    container: ContainerView,
    broker: EpicboxBroker,
    last: Seq<EffectView>,
    outcome: Result<(), ErrorView>,
)
    requires
        container.listener(ListenerInterface::Epicbox) is Ok,
    ensures
        ({
            let (after, stopped, step) = teardown(container, broker, last, outcome);
            &&& after.listener(ListenerInterface::Epicbox) is Err
            &&& stopped.stopping
            &&& step.effects.contains(EffectView::CloseSocket)
            &&& step.effects.contains(EffectView::JoinListener)
            &&& step.done == Some(outcome)
        }),
{
    let (after, stopped, step) = teardown(container, broker, last, outcome);
    assert(step.effects[0] == EffectView::CloseSocket);
    assert(step.effects[1] == EffectView::JoinListener);
}

/// A one-shot session that has started joins its two sides: the loop that it runs and
/// the listener that it keeps have the same publisher, the loop is a new one in the
/// session's mode with no reconnections counted, and both find the same fresh broker.
pub proof fn law_started_session_joins_both_sides(
    settings: ChannelSettings,
    broker: EpicboxBroker,
    starting: Starting,
    reply: Reply,
)
    requires
        start_next(
            settings.config(),
            settings.tor_config,
            settings.wallet_version,
            broker,
            starting,
            reply,
        ).step.done matches Some(Ok(_)),
    ensures
        ({
            let next = start_next(
                settings.config(),
                settings.tor_config,
                settings.wallet_version,
                broker,
                starting,
                reply,
            );
            let listener = next.step.done->0->Ok_0;
            &&& next.broker == EpicboxBroker::fresh()
            &&& next.step.effects.len() == 1
            &&& next.step.effects[0] matches EffectView::RunSubscriber(client) && {
                &&& client.handler.publisher == listener.publisher
                &&& client.address == listener.subscriber.address
                &&& client.wallet_mode == listener.subscriber.wallet_mode
                &&& client.wallet_mode == starting.wallet_mode
                &&& client.handler.reconnections == 0
                &&& client.handler.tor_config == settings.tor_config
                &&& client.phase is Ready
                &&& client.challenge is None
            }
            &&& listener.address == starting.phase->Connecting_address
            &&& listener.publisher.address == listener.address
            &&& listener.subscriber.address == listener.address
        }),
{
}

/// As long as a sending session has no outcome, it does not stop its subscriber.
pub proof fn law_send_keeps_its_session_alive(
    settings: ChannelSettings,
    start: (ContainerView, SendSlate),
    inputs: Seq<PostInput>,
    i: int,
)
    requires
        start.1.phase is Ready,
        0 <= i < inputs.len(),
        send_step(settings, start, inputs, i).step.done is None,
    ensures
        send_step(settings, start, inputs, i).broker.stopping ==> inputs[i].0.stopping,
        !send_step(settings, start, inputs, i).step.effects.contains(
            EffectView::JoinListener,
        ),
{
    lemma_send_run(settings, start, inputs.take(i));
}

/// Whenever a sending session reports its outcome, no listener is left behind.
pub proof fn law_send_leaves_no_listener(
    settings: ChannelSettings,
    start: (ContainerView, SendSlate),
    inputs: Seq<PostInput>,
    i: int,
)
    requires
        start.1.phase is Ready,
        0 <= i < inputs.len(),
        send_step(settings, start, inputs, i).step.done is Some,
    ensures
        send_step(settings, start, inputs, i).container.listener(
            ListenerInterface::Epicbox,
        ) is Err,
{
    lemma_send_run(settings, start, inputs.take(i));
}

/// What a listening session starts from: its settings and the wallet's version.
pub struct ListenSettings {
    pub config: EpicboxConfig,
    pub tor_config: TorConfig,
    pub wallet_version: String,
}

/// A listening session with its count of reconnections after a run over `inputs`.
pub open spec fn listen_after(
    settings: ListenSettings,
    start: (u32, Listen),
    inputs: Seq<Input>,
) -> (u32, Listen)
    decreases inputs.len(),
{
    if inputs.len() == 0 {
        start
    } else {
        let (reconnections, listen) = listen_after(settings, start, inputs.drop_last());
        let next = listen_next(
            settings.config,
            settings.tor_config,
            settings.wallet_version,
            inputs.last().0,
            reconnections,
            listen,
            inputs.last().1,
            inputs.last().2,
        );
        (next.reconnections, next.listen)
    }
}

/// Throughout a listening session the count that the caller sees is the one that
/// the session goes by.
pub proof fn law_listening_count_is_the_callers(
    settings: ListenSettings,
    start: (u32, Listen),
    inputs: Seq<Input>,
)
    requires
        start.1.phase is Ready,
    ensures
        ({
            let (reconnections, listen) = listen_after(settings, start, inputs);
            listen.counted(reconnections) == reconnections
        }),
    decreases inputs.len(),
{
    if inputs.len() > 0 {
        law_listening_count_is_the_callers(settings, start, inputs.drop_last());
    }
}

} // verus!
