//! What a session does: which relay it goes to and with which settings, what it does with
//! the outcome of each of its parts, and how it ends.
use crate::broker::{post_cancel_tx_next, BrokerEvent, CancelPhase, CancelTx, EpicboxBroker};
use crate::channel::{
    cancel_next, listen_next, send_next, teardown, wait_for_next, CancelSession,
    CancelSessionPhase, ChannelSettings, Listen, ListenNext, ListenPhase, SendPhase, SendSlate,
    WaitPhase,
};
use crate::controller::{EpicboxController, ExchangePhase};
use crate::effect::{EffectView, FinalizedSlate, Reply, StepView};
use crate::error::{Error, ErrorView};
use crate::laws::answers::law_loop_keeps_its_identity;
use crate::laws::channel::{
    cancel_session_after, cancel_session_step, listen_after, send_after, send_step, ListenSettings,
};
use crate::laws::client::Input;
use crate::laws::posting::PostInput;
use crate::laws::progress::{asks, asks_both, is_over};
use crate::listener::{
    publish_to_next, start_next, ContainerView, EpicboxListener, EpicboxPublisher,
    EpicboxSubscriber, ListenerInterface, Publish, PublishPhase, StartPhase, Starting,
};
use crate::subscribe::{handling_next, subscribe_next, ClientPhase, EpicboxClient};
use crate::text::decimal;
use crate::wallet::{EpicboxAddress, EpicboxConfig, TorConfig};
use vstd::prelude::*;

verus! {

/// The settings that a channel's session goes by: the channel's own where it has any, the
/// default ones otherwise.
pub open spec fn in_force(settings: ChannelSettings) -> EpicboxConfig {
    match settings.channel.epicbox_config {
        Some(config) => config,
        None => settings.default_config,
    }
}

/// Deriving the first address of the wallet for the relay in the settings.
pub open spec fn derives_for(config: EpicboxConfig) -> EffectView {
    EffectView::DeriveAddress {
        index: 0,
        domain: match config.epicbox_domain {
            Some(domain) => Some(domain@),
            None => None,
        },
        port: config.epicbox_port,
    }
}

/// The relay's address on the network: without TLS only where the settings say so, on the
/// port of the wallet's address or else on the scheme's own.
pub open spec fn dials(config: EpicboxConfig, address: EpicboxAddress) -> Seq<char> {
    let plain = config.epicbox_protocol_unsecure == Some(true);
    let port: nat = match address.port {
        Some(port) => port as nat,
        None => if plain {
            80
        } else {
            443
        },
    };
    (if plain {
        "ws://"@
    } else {
        "wss://"@
    }) + address.domain@ + ":"@ + decimal(port)
}

/// A listener for one address in one mode: all its parts are of that address and mode.
pub open spec fn listens_for(
    listener: EpicboxListener,
    address: EpicboxAddress,
    wallet_mode: String,
) -> bool {
    listener == EpicboxListener {
        address,
        publisher: EpicboxPublisher { address, wallet_mode },
        subscriber: EpicboxSubscriber { address, wallet_mode },
    }
}

/// A loop that is about to begin for one address, mode and version, with these Tor
/// settings and so many reconnections counted.
pub open spec fn is_about_to_begin(
    client: EpicboxClient<EpicboxPublisher>,
    address: EpicboxAddress,
    wallet_mode: String,
    wallet_version: String,
    reconnections: u32,
    tor_config: TorConfig,
) -> bool {
    client == EpicboxClient {
        handler: EpicboxController {
            publisher: EpicboxPublisher { address, wallet_mode },
            reconnections,
            tor_config,
        },
        challenge: None,
        address,
        wallet_mode,
        wallet_version,
        first_run: true,
        phase: ClientPhase::Ready,
    }
}

/// A one-shot session starts by deriving the wallet's address for the relay in the
/// settings; it connects to that relay, with reads that give up after a second, and then
/// runs a new loop and keeps a listener for the derived address, on a broker on which
/// nothing has happened. Without an address it fails with the wallet's error.
pub proof fn law_start_derives_connects_and_runs(
    config: EpicboxConfig,
    tor_config: TorConfig,
    wallet_version: String,
    brokers: (EpicboxBroker, EpicboxBroker, EpicboxBroker),
    starting: Starting,
    address: EpicboxAddress,
    error: Error,
)
    requires
        starting.phase is Ready,
    ensures
        ({
            let deriving = start_next(
                config,
                tor_config,
                wallet_version,
                brokers.0,
                starting,
                Reply::Begin,
            );
            let connecting = start_next(
                config,
                tor_config,
                wallet_version,
                brokers.1,
                deriving.starting,
                Reply::Address(Ok(address)),
            );
            let failed = start_next(
                config,
                tor_config,
                wallet_version,
                brokers.1,
                deriving.starting,
                Reply::Address(Err(error)),
            );
            let started = start_next(
                config,
                tor_config,
                wallet_version,
                brokers.2,
                connecting.starting,
                Reply::Connected(Ok(())),
            );
            &&& asks(deriving.step, derives_for(config))
            &&& deriving.broker == brokers.0
            &&& asks(
                connecting.step,
                EffectView::Connect { url: dials(config, address), read_timeout_secs: Some(1) },
            )
            &&& connecting.broker == brokers.1
            &&& is_over(failed.step, Err(error@))
            &&& failed.broker == brokers.1
            &&& started.broker == EpicboxBroker {
                pending_post: None,
                subscribed: false,
                stopping: false,
            }
            &&& started.step.effects.len() == 1
            &&& started.step.effects[0] is RunSubscriber
            &&& is_about_to_begin(
                started.step.effects[0]->RunSubscriber_0,
                address,
                starting.wallet_mode,
                wallet_version,
                0,
                tor_config,
            )
            &&& started.step.done matches Some(Ok(listener)) && listens_for(
                listener,
                address,
                starting.wallet_mode,
            )
        }),
{
}

/// A start changes nothing on a reply that it does not wait for, and keeps its mode.
pub proof fn law_start_awaits_its_replies(
    config: EpicboxConfig,
    tor_config: TorConfig,
    wallet_version: String,
    broker: EpicboxBroker,
    starting: Starting,
    reply: Reply,
)
    ensures
        ({
            let next = start_next(config, tor_config, wallet_version, broker, starting, reply);
            let awaited = match starting.phase {
                StartPhase::Ready => reply is Begin,
                StartPhase::Deriving => reply is Address,
                StartPhase::Connecting { address } => reply matches Reply::Connected(Ok(_)),
                StartPhase::Done => false,
            };
            &&& next.starting.wallet_mode == starting.wallet_mode
            &&& !awaited ==> next.starting == starting && next.broker == broker
                && next.step.effects.len() == 0 && next.step.done is None
        }),
{
}

/// The effects of a step go by the settings in force: an address is derived for their
/// relay, a connection goes to their relay for the address that the reply gives, and a
/// loop that is run is a new one for the address that was connected for, in the mode of
/// the start, with the caller's version and Tor settings.
pub open spec fn goes_by_settings(
    settings: ChannelSettings,
    starting: Option<Starting>,
    reply: Reply,
    effects: Seq<EffectView>,
) -> bool {
    forall|j: int|
        0 <= j < effects.len() ==> match #[trigger] effects[j] {
            EffectView::DeriveAddress { index, domain, port } => effects[j] == derives_for(
                in_force(settings),
            ),
            EffectView::Connect { url, read_timeout_secs } => {
                &&& reply matches Reply::Address(Ok(address))
                &&& url == dials(in_force(settings), address)
                &&& read_timeout_secs == Some(1u64)
            },
            EffectView::RunSubscriber(client) => {
                &&& starting matches Some(start)
                &&& start.phase matches StartPhase::Connecting { address }
                &&& is_about_to_begin(
                    client,
                    address,
                    start.wallet_mode,
                    settings.wallet_version,
                    0,
                    settings.tor_config,
                )
            },
            _ => true,
        }
}

/// The start that a sending session is in.
pub open spec fn send_start(send: SendSlate) -> Option<Starting> {
    match send.phase {
        SendPhase::Starting(starting) => Some(starting),
        _ => None,
    }
}

/// The start that a cancelling session is in.
pub open spec fn cancel_start(cancel: CancelSession) -> Option<Starting> {
    match cancel.phase {
        CancelSessionPhase::Starting(starting) => Some(starting),
        _ => None,
    }
}

/// Whatever state a sending session is in, it goes to the relay in force and to no other,
/// with the caller's Tor settings.
pub proof fn law_send_goes_by_the_settings_in_force(
    settings: ChannelSettings,
    container: ContainerView,
    broker: EpicboxBroker,
    send: SendSlate,
    reply: Reply,
)
    ensures
        goes_by_settings(
            settings,
            send_start(send),
            reply,
            send_next(settings, container, broker, send, reply).step.effects,
        ),
{
}

/// Whatever state a cancelling session is in, it goes to the relay in force and to no
/// other, with the caller's Tor settings.
pub proof fn law_cancel_goes_by_the_settings_in_force(
    settings: ChannelSettings,
    container: ContainerView,
    broker: EpicboxBroker,
    cancel: CancelSession,
    reply: Reply,
)
    ensures
        goes_by_settings(
            settings,
            cancel_start(cancel),
            reply,
            cancel_next(settings, container, broker, cancel, reply).step.effects,
        ),
{
}

/// Throughout a run, a cancelling session goes to the relay in force and to no other, in
/// the mode in which it began, and a sending session likewise.
pub proof fn law_runs_go_by_the_settings_in_force(
    settings: ChannelSettings,
    sending: (ContainerView, SendSlate),
    cancelling: (ContainerView, CancelSession),
    inputs: Seq<PostInput>,
    i: int,
)
    requires
        sending.1.phase is Ready,
        cancelling.1.phase is Ready,
        0 <= i < inputs.len(),
    ensures
        ({
            let send = send_after(settings, sending, inputs.take(i)).1;
            let effects = send_step(settings, sending, inputs, i).step.effects;
            &&& goes_by_settings(settings, send_start(send), inputs[i].1, effects)
            &&& send_start(send) matches Some(start) ==> start.wallet_mode
                == sending.1.wallet_mode
        }),
        ({
            let cancel = cancel_session_after(settings, cancelling, inputs.take(i)).1;
            let effects = cancel_session_step(settings, cancelling, inputs, i).step.effects;
            &&& goes_by_settings(settings, cancel_start(cancel), inputs[i].1, effects)
            &&& cancel_start(cancel) matches Some(start) ==> start.wallet_mode
                == cancelling.1.wallet_mode
        }),
{
    lemma_run_keeps_its_mode(settings, sending, cancelling, inputs.take(i));
    let (container, send) = send_after(settings, sending, inputs.take(i));
    law_send_goes_by_the_settings_in_force(settings, container, inputs[i].0, send, inputs[i].1);
    let (container, cancel) = cancel_session_after(settings, cancelling, inputs.take(i));
    law_cancel_goes_by_the_settings_in_force(settings, container, inputs[i].0, cancel, inputs[i].1);
}

/// The mode of a session and of its start is the one in which the session began.
proof fn lemma_run_keeps_its_mode(
    settings: ChannelSettings,
    sending: (ContainerView, SendSlate),
    cancelling: (ContainerView, CancelSession),
    inputs: Seq<PostInput>,
)
    requires
        sending.1.phase is Ready,
        cancelling.1.phase is Ready,
    ensures
        ({
            let send = send_after(settings, sending, inputs).1;
            &&& send.wallet_mode == sending.1.wallet_mode
            &&& send_start(send) matches Some(start) ==> start.wallet_mode
                == sending.1.wallet_mode
        }),
        ({
            let cancel = cancel_session_after(settings, cancelling, inputs).1;
            &&& cancel.wallet_mode == cancelling.1.wallet_mode
            &&& cancel_start(cancel) matches Some(start) ==> start.wallet_mode
                == cancelling.1.wallet_mode
        }),
    decreases inputs.len(),
{
    if inputs.len() > 0 {
        lemma_run_keeps_its_mode(settings, sending, cancelling, inputs.drop_last());
    }
}

/// A new container for the settings holds them, the default account and no listener.
pub open spec fn is_new_container(container: ContainerView, config: EpicboxConfig) -> bool {
    &&& container.config == config
    &&& container.account == "default"@
    &&& container.listeners == Map::<u64, EpicboxListener>::empty()
}

/// A container holds a listener where it held one before or where it was just put there,
/// and nothing but that changes with it.
pub open spec fn has_taken_in(
    before: ContainerView,
    after: ContainerView,
    listener: EpicboxListener,
) -> bool {
    &&& after.listener(ListenerInterface::Epicbox) == Ok::<EpicboxListener, ErrorView>(listener)
    &&& after.config == before.config
    &&& after.account == before.account
}

/// A sending session begins in a new container for the settings in force and does what
/// its start does; a start that fails is its outcome. Once started it keeps the listener
/// and publishes its own Slate to the channel's destination, in the second version and
/// without an identifier, beside the loop that the start runs.
pub proof fn law_send_starts_then_publishes(
    settings: ChannelSettings,
    container: ContainerView,
    broker: EpicboxBroker,
    send: SendSlate,
    reply: Reply,
)
    requires
        (send.phase is Ready && reply is Begin) || send.phase is Starting,
    ensures
        ({
            let config = in_force(settings);
            let begins = send.phase is Ready;
            let found = if begins {
                Starting { wallet_mode: send.wallet_mode, phase: StartPhase::Ready }
            } else {
                send.phase->Starting_0
            };
            let started = start_next(
                config,
                settings.tor_config,
                settings.wallet_version,
                broker,
                found,
                reply,
            );
            let next = send_next(settings, container, broker, send, reply);
            &&& next.broker == started.broker
            &&& next.send.slate == send.slate
            &&& next.send.wallet_mode == send.wallet_mode
            &&& begins ==> is_new_container(next.container, config)
            &&& match started.step.done {
                None => next.step.effects == started.step.effects && next.step.done is None
                    && next.send.phase == SendPhase::Starting(started.starting) && (!begins
                    ==> next.container == container),
                Some(Err(error)) => is_over(next.step, Err(error)) && next.send.phase is Done && (
                !begins ==> next.container == container),
                Some(Ok(listener)) => {
                    &&& next.step.effects =~= started.step.effects.push(
                        EffectView::ParseAddress(settings.channel.dest@),
                    )
                    &&& next.step.done is None
                    &&& has_taken_in(container, next.container, listener)
                    &&& next.send.phase == SendPhase::Publishing(
                        Publish {
                            slate: send.slate,
                            version: 2,
                            to: settings.channel.dest,
                            epicboxtxid: None,
                            phase: PublishPhase::Parsing,
                        },
                    )
                },
            }
        }),
{
}

/// A torn-down session closes its websocket, then waits for its subscriber, then does
/// what was left to do; its broker is stopping, and no listener is left.
pub open spec fn is_torn_down(
    container: ContainerView,
    broker: EpicboxBroker,
    found: EpicboxBroker,
    step: StepView<()>,
    last: Seq<EffectView>,
    outcome: Result<(), ErrorView>,
) -> bool {
    &&& container.listener(ListenerInterface::Epicbox) is Err
    &&& broker == EpicboxBroker { stopping: true, ..found }
    &&& step.effects =~= seq![EffectView::CloseSocket, EffectView::JoinListener] + last
    &&& step.done == Some(outcome)
}

/// While it publishes, a sending session does what the publication does in the name of
/// its listener. A publication that fails, at whatever point, ends the session with that
/// very failure; one that succeeds starts the wait of ten seconds for the acknowledgement.
pub proof fn law_send_follows_its_publication(
    settings: ChannelSettings,
    container: ContainerView,
    broker: EpicboxBroker,
    send: SendSlate,
    reply: Reply,
    listener: EpicboxListener,
)
    requires
        send.phase is Publishing,
        container.listener(ListenerInterface::Epicbox) == Ok::<EpicboxListener, ErrorView>(
            listener,
        ),
    ensures
        ({
            let published = publish_to_next(
                broker,
                send.phase->Publishing_0,
                listener.publisher.address,
                reply,
            );
            let next = send_next(settings, container, broker, send, reply);
            &&& next.send.slate == send.slate
            &&& match published.step.done {
                None => next.step == published.step && next.broker == published.broker
                    && next.container == container && next.send.phase == SendPhase::Publishing(
                    published.publish,
                ),
                Some(Err(error)) => is_torn_down(
                    next.container,
                    next.broker,
                    published.broker,
                    next.step,
                    seq![],
                    Err(error),
                ) && next.send.phase is Done,
                Some(Ok(_)) => asks_both(
                    next.step,
                    EffectView::SetDeadline(10),
                    EffectView::Clock,
                ) && next.broker == published.broker && next.container == container
                    && next.send.phase == SendPhase::Waiting(WaitPhase::CheckingClock),
            }
        }),
{
}

/// Whether the reply tells of an acknowledged post.
pub open spec fn brings_ack(reply: Reply) -> bool {
    reply matches Reply::Event(Some(event)) && event is PostAck
}

/// While it waits, a sending session does what a wait for an acknowledged post does. With
/// the end of the wait, whichever it is, the session is torn down, the Slate handed back
/// in the second version, and the sending has succeeded.
pub proof fn law_send_follows_its_wait(
    settings: ChannelSettings,
    container: ContainerView,
    broker: EpicboxBroker,
    send: SendSlate,
    reply: Reply,
)
    requires
        send.phase is Waiting,
        container.listener(ListenerInterface::Epicbox) is Ok,
    ensures
        ({
            let waited = wait_for_next(brings_ack(reply), send.phase->Waiting_0, reply);
            let next = send_next(settings, container, broker, send, reply);
            &&& next.send.slate == send.slate
            &&& match waited.step.done {
                None => next.step.effects == waited.step.effects && next.step.done is None
                    && next.broker == broker && next.container == container && next.send.phase
                    == SendPhase::Waiting(waited.phase),
                Some(_) => is_torn_down(
                    next.container,
                    next.broker,
                    broker,
                    next.step,
                    seq![EffectView::HandBack { slate: send.slate, version: 2 }],
                    Ok(()),
                ) && next.send.phase is Done,
            }
        }),
{
}

/// A sending session that has not begun, or is over, does nothing on any other reply, and
/// one whose listener is gone cannot publish.
pub proof fn law_send_does_nothing_unasked(
    settings: ChannelSettings,
    container: ContainerView,
    broker: EpicboxBroker,
    send: SendSlate,
    reply: Reply,
)
    ensures
        ({
            let next = send_next(settings, container, broker, send, reply);
            &&& (send.phase is Ready && !(reply is Begin)) || send.phase is Done ==> next.send
                == send && next.container == container && next.broker == broker
                && next.step.effects.len() == 0 && next.step.done is None
            &&& send.phase is Publishing && container.listener(
                ListenerInterface::Epicbox,
            ) is Err ==> is_over(next.step, Err(ErrorView::NoListener("Epicbox"@)))
                && next.send.phase is Done
        }),
{
}

/// A sending session that publishes or waits has its listener.
proof fn lemma_send_has_listener(
    settings: ChannelSettings,
    start: (ContainerView, SendSlate),
    inputs: Seq<PostInput>,
)
    requires
        start.1.phase is Ready,
    ensures
        ({
            let (container, send) = send_after(settings, start, inputs);
            send.phase is Publishing || send.phase is Waiting ==> container.listener(
                ListenerInterface::Epicbox,
            ) is Ok
        }),
    decreases inputs.len(),
{
    if inputs.len() > 0 {
        lemma_send_has_listener(settings, start, inputs.drop_last());
        let (container, send) = send_after(settings, start, inputs.drop_last());
        let (broker, reply) = inputs.last();
        if send.phase is Publishing && container.listener(ListenerInterface::Epicbox) is Ok {
            law_send_follows_its_publication(
                settings,
                container,
                broker,
                send,
                reply,
                container.listener(ListenerInterface::Epicbox)->Ok_0,
            );
        } else if send.phase is Waiting {
            law_send_follows_its_wait(settings, container, broker, send, reply);
        } else if (send.phase is Ready && reply is Begin) || send.phase is Starting {
            law_send_starts_then_publishes(settings, container, broker, send, reply);
        } else {
            law_send_does_nothing_unasked(settings, container, broker, send, reply);
        }
    }
}

/// The session is sending its PostSlate.
pub open spec fn is_posting(send: SendSlate) -> bool {
    send.phase matches SendPhase::Publishing(publish)
        && publish.phase matches PublishPhase::Posting(post) && post.phase is Sending
}

/// A sending session whose PostSlate the transport could not send fails in that very step,
/// with the transport's words.
pub proof fn law_unsent_slate_fails_the_sending(
    settings: ChannelSettings,
    start: (ContainerView, SendSlate),
    inputs: Seq<PostInput>,
    i: int,
    text: String,
)
    requires
        start.1.phase is Ready,
        0 <= i < inputs.len(),
        is_posting(send_after(settings, start, inputs.take(i)).1),
        inputs[i].1 == Reply::Sent(Err(text)),
    ensures
        send_step(settings, start, inputs, i).step.done == Some(
            Err::<(), ErrorView>(
                ErrorView::EpicboxTungstenite("Could not send PostSlate: "@ + text@),
            ),
        ),
        send_step(settings, start, inputs, i).send.phase is Done,
{
    lemma_send_has_listener(settings, start, inputs.take(i));
}

/// In step `k` of a run the transport confirms that the PostSlate is out.
pub open spec fn confirms_sent(
    settings: ChannelSettings,
    start: (ContainerView, SendSlate),
    inputs: Seq<PostInput>,
    k: int,
) -> bool {
    0 <= k < inputs.len() && is_posting(send_after(settings, start, inputs.take(k)).1) && (
    inputs[k].1 matches Reply::Sent(Ok(_)))
}

/// A sending session that waits has had its PostSlate confirmed as sent.
proof fn lemma_waiting_was_sent(
    settings: ChannelSettings,
    start: (ContainerView, SendSlate),
    inputs: Seq<PostInput>,
)
    requires
        start.1.phase is Ready,
    ensures
        send_after(settings, start, inputs).1.phase is Waiting ==> exists|k: int|
            #[trigger] confirms_sent(settings, start, inputs, k),
    decreases inputs.len(),
{
    if inputs.len() > 0 {
        let shorter = inputs.drop_last();
        let last = inputs.len() - 1;
        lemma_waiting_was_sent(settings, start, shorter);
        assert(inputs.take(last) =~= shorter);
        let (container, send) = send_after(settings, start, shorter);
        if send_after(settings, start, inputs).1.phase is Waiting {
            if send.phase is Waiting {
                let k = choose|k: int| #[trigger] confirms_sent(settings, start, shorter, k);
                assert(shorter.take(k) =~= inputs.take(k));
                assert(confirms_sent(settings, start, inputs, k));
            } else {
                assert(send.phase is Publishing);
                assert(confirms_sent(settings, start, inputs, last));
            }
        }
    }
}

/// Sending succeeds only where the transport has confirmed before that the PostSlate is
/// out.
pub proof fn law_send_succeeds_only_once_sent(
    settings: ChannelSettings,
    start: (ContainerView, SendSlate),
    inputs: Seq<PostInput>,
    i: int,
)
    requires
        start.1.phase is Ready,
        0 <= i < inputs.len(),
        send_step(settings, start, inputs, i).step.done == Some(Ok::<(), ErrorView>(())),
    ensures
        exists|k: int| k < i && #[trigger] confirms_sent(settings, start, inputs, k),
{
    let run = inputs.take(i);
    lemma_waiting_was_sent(settings, start, run);
    lemma_send_has_listener(settings, start, run);
    assert(send_after(settings, start, run).1.phase is Waiting);
    let k = choose|k: int| #[trigger] confirms_sent(settings, start, run, k);
    assert(run.take(k) =~= inputs.take(k));
    assert(confirms_sent(settings, start, inputs, k));
}

/// A cancelling session begins in a new container for the settings in force and does what
/// its start does; a start that fails is its outcome. Once started it keeps the listener
/// and waits ten seconds for the subscription, beside the loop that the start runs.
pub proof fn law_cancel_starts_then_waits(
    settings: ChannelSettings,
    container: ContainerView,
    broker: EpicboxBroker,
    cancel: CancelSession,
    reply: Reply,
)
    requires
        (cancel.phase is Ready && reply is Begin) || cancel.phase is Starting,
    ensures
        ({
            let config = in_force(settings);
            let begins = cancel.phase is Ready;
            let found = if begins {
                Starting { wallet_mode: cancel.wallet_mode, phase: StartPhase::Ready }
            } else {
                cancel.phase->Starting_0
            };
            let started = start_next(
                config,
                settings.tor_config,
                settings.wallet_version,
                broker,
                found,
                reply,
            );
            let next = cancel_next(settings, container, broker, cancel, reply);
            &&& next.broker == started.broker
            &&& next.cancel.epicboxtxid == cancel.epicboxtxid
            &&& next.cancel.wallet_mode == cancel.wallet_mode
            &&& begins ==> is_new_container(next.container, config)
            &&& match started.step.done {
                None => next.step.effects == started.step.effects && next.step.done is None
                    && next.cancel.phase == CancelSessionPhase::Starting(started.starting) && (
                !begins ==> next.container == container),
                Some(Err(error)) => is_over(next.step, Err(error)) && next.cancel.phase is Done && (
                !begins ==> next.container == container),
                Some(Ok(listener)) => {
                    &&& next.step.effects =~= started.step.effects.push(
                        EffectView::SetDeadline(10),
                    ).push(EffectView::Clock)
                    &&& next.step.done is None
                    &&& has_taken_in(container, next.container, listener)
                    &&& next.cancel.phase == CancelSessionPhase::AwaitingSubscription(
                        WaitPhase::CheckingClock,
                    )
                },
            }
        }),
{
}

/// Whether the reply tells of the subscription.
pub open spec fn brings_subscription(reply: Reply) -> bool {
    reply matches Reply::Event(Some(event)) && event is Subscribed
}

/// Whether the reply tells of the cancellation of this very transaction.
pub open spec fn brings_cancellation(epicboxtxid: Seq<char>, reply: Reply) -> bool {
    reply matches Reply::Event(Some(BrokerEvent::Cancelled { epicboxtxid: cancelled }))
        && cancelled@ == epicboxtxid
}

/// While it waits for the subscription, a cancelling session does what a wait for it does.
/// With the subscription it begins its CancelTx, which is refused where the broker does
/// not count as subscribed; without it the session fails.
pub proof fn law_cancel_requests_once_subscribed(
    settings: ChannelSettings,
    container: ContainerView,
    broker: EpicboxBroker,
    cancel: CancelSession,
    reply: Reply,
)
    requires
        cancel.phase is AwaitingSubscription,
        container.listener(ListenerInterface::Epicbox) is Ok,
    ensures
        ({
            let waited = wait_for_next(
                brings_subscription(reply),
                cancel.phase->AwaitingSubscription_0,
                reply,
            );
            let next = cancel_next(settings, container, broker, cancel, reply);
            &&& next.cancel.epicboxtxid == cancel.epicboxtxid
            &&& match waited.step.done {
                None => next.step.effects == waited.step.effects && next.step.done is None
                    && next.broker == broker && next.container == container && next.cancel.phase
                    == CancelSessionPhase::AwaitingSubscription(waited.phase),
                Some(Ok(true)) => if broker.subscribed {
                    &&& asks(next.step, EffectView::Sign(cancel.epicboxtxid@))
                    &&& next.broker == broker
                    &&& next.container == container
                    &&& next.cancel.phase == CancelSessionPhase::Cancelling(
                        CancelTx { epicboxtxid: cancel.epicboxtxid, phase: CancelPhase::Signing },
                    )
                } else {
                    &&& is_torn_down(
                        next.container,
                        next.broker,
                        broker,
                        next.step,
                        seq![],
                        Err(
                            ErrorView::EpicboxTungstenite(
                                "CancelTx requires an active Epicbox subscription on this connection"@,
                            ),
                        ),
                    )
                    &&& next.cancel.phase is Done
                },
                Some(_) => is_torn_down(
                    next.container,
                    next.broker,
                    broker,
                    next.step,
                    seq![],
                    Err(
                        ErrorView::EpicboxTungstenite(
                            "Could not send CancelTx: Epicbox session ended or the subscription did not establish within 10s"@,
                        ),
                    ),
                ) && next.cancel.phase is Done,
            }
        }),
{
}

/// While its CancelTx is under way, a cancelling session does what that does in the name
/// of its listener. One that fails ends the session with that very failure; one that is
/// out starts the wait of ten seconds for the confirmation.
pub proof fn law_cancel_follows_its_request(
    settings: ChannelSettings,
    container: ContainerView,
    broker: EpicboxBroker,
    cancel: CancelSession,
    reply: Reply,
    listener: EpicboxListener,
)
    requires
        cancel.phase is Cancelling,
        container.listener(ListenerInterface::Epicbox) == Ok::<EpicboxListener, ErrorView>(
            listener,
        ),
    ensures
        ({
            let requested = post_cancel_tx_next(
                broker,
                cancel.phase->Cancelling_0,
                listener.publisher.address,
                reply,
            );
            let next = cancel_next(settings, container, broker, cancel, reply);
            &&& next.cancel.epicboxtxid == cancel.epicboxtxid
            &&& match requested.step.done {
                None => next.step == requested.step && next.broker == broker && next.container
                    == container && next.cancel.phase == CancelSessionPhase::Cancelling(
                    requested.cancel,
                ),
                Some(Err(error)) => is_torn_down(
                    next.container,
                    next.broker,
                    broker,
                    next.step,
                    seq![],
                    Err(error),
                ) && next.cancel.phase is Done,
                Some(Ok(_)) => asks_both(
                    next.step,
                    EffectView::SetDeadline(10),
                    EffectView::Clock,
                ) && next.broker == broker && next.container == container && next.cancel.phase
                    == CancelSessionPhase::AwaitingConfirmation(WaitPhase::CheckingClock),
            }
        }),
{
}

/// While it waits for the confirmation, a cancelling session does what a wait for the
/// cancellation of its own transaction does. With it the cancelling has succeeded, without
/// it it fails and names the transaction; either way the session is torn down.
pub proof fn law_cancel_follows_its_confirmation(
    settings: ChannelSettings,
    container: ContainerView,
    broker: EpicboxBroker,
    cancel: CancelSession,
    reply: Reply,
)
    requires
        cancel.phase is AwaitingConfirmation,
        container.listener(ListenerInterface::Epicbox) is Ok,
    ensures
        ({
            let waited = wait_for_next(
                brings_cancellation(cancel.epicboxtxid@, reply),
                cancel.phase->AwaitingConfirmation_0,
                reply,
            );
            let next = cancel_next(settings, container, broker, cancel, reply);
            &&& next.cancel.epicboxtxid == cancel.epicboxtxid
            &&& match waited.step.done {
                None => next.step.effects == waited.step.effects && next.step.done is None
                    && next.broker == broker && next.container == container && next.cancel.phase
                    == CancelSessionPhase::AwaitingConfirmation(waited.phase),
                Some(confirmed) => is_torn_down(
                    next.container,
                    next.broker,
                    broker,
                    next.step,
                    seq![],
                    if confirmed == Ok::<bool, ErrorView>(true) {
                        Ok(())
                    } else {
                        Err(
                            ErrorView::EpicboxTungstenite(
                                "No TransactionCancelled response from relay for ["@
                                    + cancel.epicboxtxid@
                                    + "]; local transaction was not confirmed cancelled"@,
                            ),
                        )
                    },
                ) && next.cancel.phase is Done,
            }
        }),
{
}

/// A cancelling session that has not begun, or is over, does nothing on any other reply,
/// and one whose listener is gone cannot request.
pub proof fn law_cancel_does_nothing_unasked(
    settings: ChannelSettings,
    container: ContainerView,
    broker: EpicboxBroker,
    cancel: CancelSession,
    reply: Reply,
)
    ensures
        ({
            let next = cancel_next(settings, container, broker, cancel, reply);
            &&& (cancel.phase is Ready && !(reply is Begin)) || cancel.phase is Done ==> next.cancel
                == cancel && next.container == container && next.broker == broker
                && next.step.effects.len() == 0 && next.step.done is None
            &&& cancel.phase is Cancelling && container.listener(
                ListenerInterface::Epicbox,
            ) is Err ==> is_over(next.step, Err(ErrorView::NoListener("Epicbox"@)))
                && next.cancel.phase is Done
        }),
{
}

/// From the end of its start to its own end a one-shot session has its listener.
pub proof fn law_running_session_keeps_its_listener(
    settings: ChannelSettings,
    sending: (ContainerView, SendSlate),
    cancelling: (ContainerView, CancelSession),
    inputs: Seq<PostInput>,
)
    requires
        sending.1.phase is Ready,
        cancelling.1.phase is Ready,
    ensures
        ({
            let (container, send) = send_after(settings, sending, inputs);
            send.phase is Publishing || send.phase is Waiting ==> container.listener(
                ListenerInterface::Epicbox,
            ) is Ok
        }),
        ({
            let (container, cancel) = cancel_session_after(settings, cancelling, inputs);
            cancel.phase is AwaitingSubscription || cancel.phase is Cancelling
                || cancel.phase is AwaitingConfirmation ==> container.listener(
                ListenerInterface::Epicbox,
            ) is Ok
        }),
    decreases inputs.len(),
{
    lemma_send_has_listener(settings, sending, inputs);
    if inputs.len() > 0 {
        law_running_session_keeps_its_listener(settings, sending, cancelling, inputs.drop_last());
    }
}

/// The teardown of a session that has a listener.
pub proof fn law_teardown_is_exact(
    container: ContainerView,
    broker: EpicboxBroker,
    last: Seq<EffectView>,
    outcome: Result<(), ErrorView>,
)
    requires
        container.listener(ListenerInterface::Epicbox) is Ok,
    ensures
        ({
            let (after, stopped, step) = teardown(container, broker, last, outcome);
            &&& is_torn_down(after, stopped, broker, step, last, outcome)
            &&& after.config == container.config
            &&& after.account == container.account
        }),
{
}

/// Step `i` of a listening session.
pub open spec fn listen_step(
    settings: ListenSettings,
    start: (u32, Listen),
    inputs: Seq<Input>,
    i: int,
) -> ListenNext {
    let (reconnections, listen) = listen_after(settings, start, inputs.take(i));
    listen_next(
        settings.config,
        settings.tor_config,
        settings.wallet_version,
        inputs[i].0,
        reconnections,
        listen,
        inputs[i].1,
        inputs[i].2,
    )
}

/// Listening derives the wallet's address for the relay in the caller's settings and
/// connects to that relay, with reads that wait; it then runs a new loop for the derived
/// address in its own mode, with the caller's version and Tor settings and the count so
/// far, on a broker on which nothing has happened. A failed connection counts and is the
/// outcome, as is a failure of the wallet, which does not count.
pub proof fn law_listening_derives_connects_and_runs(
    settings: ListenSettings,
    brokers: (EpicboxBroker, EpicboxBroker, EpicboxBroker),
    count: u32,
    listen: Listen,
    order: Seq<String>,
    address: EpicboxAddress,
    error: Error,
    text: String,
)
    requires
        listen.phase is Ready,
        count < u32::MAX,
    ensures
        ({
            let step = |broker: EpicboxBroker, listen: Listen, reply: Reply|
                listen_next(
                    settings.config,
                    settings.tor_config,
                    settings.wallet_version,
                    broker,
                    count,
                    listen,
                    order,
                    reply,
                );
            let deriving = step(brokers.0, listen, Reply::Begin);
            let connecting = step(brokers.1, deriving.listen, Reply::Address(Ok(address)));
            let underived = step(brokers.1, deriving.listen, Reply::Address(Err(error)));
            let unconnected = step(brokers.2, connecting.listen, Reply::Connected(Err(text)));
            let running = step(brokers.2, connecting.listen, Reply::Connected(Ok(())));
            &&& asks(deriving.step, derives_for(settings.config))
            &&& deriving.broker == brokers.0
            &&& deriving.reconnections == count
            &&& asks(
                connecting.step,
                EffectView::Connect {
                    url: dials(settings.config, address),
                    read_timeout_secs: None,
                },
            )
            &&& connecting.broker == brokers.1
            &&& connecting.reconnections == count
            &&& is_over(underived.step, Err(error@))
            &&& underived.reconnections == count
            &&& underived.broker == brokers.1
            &&& is_over(unconnected.step, Err(ErrorView::EpicboxTungstenite(text@)))
            &&& unconnected.reconnections == count + 1
            &&& unconnected.broker == brokers.2
            &&& asks(running.step, EffectView::CheckNode)
            &&& running.reconnections == count
            &&& running.broker == EpicboxBroker {
                pending_post: None,
                subscribed: false,
                stopping: false,
            }
            &&& running.listen.phase is Running
            &&& running.listen.phase->Running_0.phase is CheckingNode
            &&& is_about_to_begin(
                running.listen.phase->Running_0.at(ClientPhase::Ready),
                address,
                listen.wallet_mode,
                settings.wallet_version,
                count,
                settings.tor_config,
            )
        }),
{
}

/// A running listening session does what its loop does, and the count is the loop's. It
/// does nothing on a reply that it does not wait for before or after.
pub proof fn law_listening_follows_its_loop(
    settings: ListenSettings,
    broker: EpicboxBroker,
    count: u32,
    listen: Listen,
    order: Seq<String>,
    reply: Reply,
)
    ensures
        ({
            let next = listen_next(
                settings.config,
                settings.tor_config,
                settings.wallet_version,
                broker,
                count,
                listen,
                order,
                reply,
            );
            &&& next.listen.wallet_mode == listen.wallet_mode
            &&& listen.phase matches ListenPhase::Running(client) ==> {
                let looped = subscribe_next(broker, client, order, reply);
                &&& next.step == looped.step
                &&& next.broker == looped.broker
                &&& next.listen.phase == ListenPhase::Running(looped.client)
                &&& next.reconnections == looped.client.handler.reconnections
            }
            &&& (listen.phase is Done || (listen.phase is Ready && !(reply is Begin)) || (
            listen.phase is Deriving && !(reply is Address)) || (listen.phase is Connecting && !(
            reply is Connected))) ==> next.listen == listen && next.broker == broker
                && next.reconnections == count && next.step.effects.len() == 0
                && next.step.done is None
        }),
{
}

/// Throughout a listening session its loop acts with the caller's Tor settings and
/// version, in the session's own mode and in the name of one address.
pub proof fn law_listening_keeps_the_callers_settings(
    settings: ListenSettings,
    start: (u32, Listen),
    inputs: Seq<Input>,
)
    requires
        start.1.phase is Ready,
    ensures
        ({
            let (reconnections, listen) = listen_after(settings, start, inputs);
            &&& listen.wallet_mode == start.1.wallet_mode
            &&& listen.phase matches ListenPhase::Running(client) ==> {
                &&& client.handler.tor_config == settings.tor_config
                &&& client.wallet_version == settings.wallet_version
                &&& client.wallet_mode == start.1.wallet_mode
                &&& client.handler.publisher.address == client.address
                &&& client.handler.publisher.wallet_mode == start.1.wallet_mode
            }
        }),
    decreases inputs.len(),
{
    if inputs.len() > 0 {
        let shorter = inputs.drop_last();
        law_listening_keeps_the_callers_settings(settings, start, shorter);
        let (reconnections, listen) = listen_after(settings, start, shorter);
        let (broker, order, reply) = inputs.last();
        law_listening_follows_its_loop(settings, broker, reconnections, listen, order, reply);
        if let ListenPhase::Running(client) = listen.phase {
            law_loop_keeps_its_identity(broker, client, order, reply);
        }
    }
}

/// A listening session posts a finalized transaction over Tor, to the first node in order,
/// exactly where the caller's Tor listener is in use and a node is known; otherwise it
/// goes to the wallet's node.
pub proof fn law_listening_posts_over_tor_where_asked(
    settings: ListenSettings,
    start: (u32, Listen),
    inputs: Seq<Input>,
    i: int,
    client: EpicboxClient<EpicboxPublisher>,
    finalized: FinalizedSlate,
)
    requires
        start.1.phase is Ready,
        0 <= i < inputs.len(),
        listen_after(settings, start, inputs.take(i)).1.phase == ListenPhase::Running(client),
        client.phase matches ClientPhase::HandlingSlate { epicboxmsgid, exchange }
            && exchange.phase matches ExchangePhase::Processing(incoming)
            && incoming.phase is Finalizing,
        inputs[i].2 == Reply::Finalized(Ok(finalized)),
    ensures
        asks(
            listen_step(settings, start, inputs, i).step,
            if settings.tor_config.use_tor_listener && inputs[i].1.len() > 0 {
                EffectView::PostTxTor { slate: finalized.slate, url: inputs[i].1[0]@ }
            } else {
                EffectView::PostTx { slate: finalized.slate, fluff: false }
            },
        ),
{
    law_listening_keeps_the_callers_settings(settings, start, inputs.take(i));
    reveal(handling_next);
}

} // verus!
