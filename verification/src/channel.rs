//! One-shot sessions that send or cancel a transaction, and the session that
//! listens until its connection ends.
use crate::broker::{post_cancel_tx_next, BrokerEvent, CancelTx, EpicboxBroker};
use crate::broker::CancelPhase;
use crate::controller::{is_onion_order, known_onions};
use crate::effect::{Effect, EffectView, Reply, Step, StepView};
use crate::error::{outcome_view, Error, ErrorView};
use crate::listener::{derive_own_address, own_address_query, relay_url, relay_url_text};
use crate::listener::{
    client_of, fails_to_connect, publish_to_next, set_up, start_epicbox, start_next, stop_effects,
    stop_epicbox_listener, Container, ContainerView, EpicboxPublisher, Listener, ListenerInterface,
    Publish, PublishPhase, StartPhase, Starting,
};
use crate::subscribe::{loses_connection, subscribe_next, EpicboxClient, SubscribeNext};
use crate::wallet::{EpicboxAddress, EpicboxConfig, Slate, TorConfig};
use vstd::prelude::*;

verus! {

/// How long a one-shot session waits for its subscription, in seconds.
pub const SUBSCRIBE_TIMEOUT_SECS: u64 = 10;

/// How long it waits for the relay's acknowledgement, in seconds.
pub const RELAY_ACK_TIMEOUT_SECS: u64 = 10;

/// The version in which a Slate is first sent.
pub const SLATE_V2: u16 = 2;

/// What a one-shot session waits for.
#[derive(Debug, PartialEq, Eq)]
pub enum Want {
    /// Any acknowledged post.
    PostAck,
    /// The subscription.
    Subscribed,
    /// Any acknowledged delivery.
    Made,
    /// The cancellation of this transaction.
    Cancelled { epicboxtxid: String },
}

/// How far a wait has come.
#[derive(Debug, PartialEq, Eq, Clone, Copy)]
pub enum WaitPhase {
    Ready,
    CheckingClock,
    Receiving,
    Done,
}

impl Want {
    /// The event is the one waited for.
    pub open spec fn accepts(&self, event: BrokerEvent) -> bool {
        match (self, event) {
            (Want::PostAck, BrokerEvent::PostAck { slate_id, epicboxtxid }) => true,
            (Want::Subscribed, BrokerEvent::Subscribed) => true,
            (Want::Made, BrokerEvent::Made) => true,
            (Want::Cancelled { epicboxtxid: wanted }, BrokerEvent::Cancelled { epicboxtxid }) =>
                wanted@ == epicboxtxid@,
            _ => false,
        }
    }

    /// Tells whether the event is the one waited for.
    pub fn is_met_by(&self, event: &BrokerEvent) -> (r: bool)
        ensures
            r == self.accepts(*event),
    {
        match (self, event) {
            (Want::PostAck, BrokerEvent::PostAck { .. }) => true,
            (Want::Subscribed, BrokerEvent::Subscribed) => true,
            (Want::Made, BrokerEvent::Made) => true,
            (Want::Cancelled { epicboxtxid: wanted }, BrokerEvent::Cancelled { epicboxtxid }) =>
                *wanted == *epicboxtxid,
            _ => false,
        }
    }
}

/// A wait after a step.
#[verifier::ext_equal]
pub struct WaitNext {
    pub phase: WaitPhase,
    pub step: StepView<bool>,
}

/// One step of a wait: as long as there is time up to the deadline, wait for an
/// event. The wait is over with the wanted event, with no time left, or with no
/// more events to come. `met` tells whether the event of the reply is wanted.
pub open spec fn wait_for_next(met: bool, phase: WaitPhase, reply: Reply) -> WaitNext {
    match (phase, reply) {
        (WaitPhase::Ready, Reply::Begin) => WaitNext {
            phase: WaitPhase::CheckingClock,
            step: StepView::ask(EffectView::Clock),
        },
        (WaitPhase::CheckingClock, Reply::Remaining(nanos)) => if nanos == 0 {
            WaitNext { phase: WaitPhase::Done, step: StepView::over(Ok(false)) }
        } else {
            WaitNext {
                phase: WaitPhase::Receiving,
                step: StepView::ask(EffectView::Receive(nanos)),
            }
        },
        (WaitPhase::Receiving, Reply::Event(Some(event))) => if met {
            WaitNext { phase: WaitPhase::Done, step: StepView::over(Ok(true)) }
        } else {
            WaitNext {
                phase: WaitPhase::CheckingClock,
                step: StepView::ask(EffectView::Clock),
            }
        },
        (WaitPhase::Receiving, Reply::Event(None)) => WaitNext {
            phase: WaitPhase::Done,
            step: StepView::over(Ok(false)),
        },
        _ => WaitNext { phase, step: StepView::idle() },
    }
}

/// `met` is what a predicate says of the event that a wait receives with a reply.
pub open spec fn judges<F: Fn(&BrokerEvent) -> bool>(
    want: F,
    phase: WaitPhase,
    reply: Reply,
    met: bool,
) -> bool {
    phase is Receiving ==> (reply matches Reply::Event(Some(event)) ==> want.ensures(
        (&event,),
        met,
    ))
}

/// Takes a wait one step further. It ends with `true` where an event came that the
/// predicate wants.
pub fn wait_for<F: Fn(&BrokerEvent) -> bool>(want: F, phase: &mut WaitPhase, reply: Reply) -> (step:
    Step<bool>)
    requires
        forall|event: &BrokerEvent| #[trigger] want.requires((event,)),
    ensures
        exists|met: bool|
            {
                &&& #[trigger] judges(want, *old(phase), reply, met)
                &&& wait_for_next(met, *old(phase), reply) == (WaitNext {
                    phase: *final(phase),
                    step: step@,
                })
            },
{
    let ghost asked = reply;
    let ghost first = *phase;
    let ghost mut judged = false;
    let step = match (*phase, reply) {
        (WaitPhase::Ready, Reply::Begin) => {
            *phase = WaitPhase::CheckingClock;
            Step::ask(Effect::Clock)
        },
        (WaitPhase::CheckingClock, Reply::Remaining(nanos)) => {
            if nanos == 0 {
                *phase = WaitPhase::Done;
                Step::over(Ok(false))
            } else {
                *phase = WaitPhase::Receiving;
                Step::ask(Effect::Receive(nanos))
            }
        },
        (WaitPhase::Receiving, Reply::Event(Some(event))) => {
            let met = want(&event);
            proof {
                judged = met;
            }
            if met {
                *phase = WaitPhase::Done;
                Step::over(Ok(true))
            } else {
                *phase = WaitPhase::CheckingClock;
                Step::ask(Effect::Clock)
            }
        },
        (WaitPhase::Receiving, Reply::Event(None)) => {
            *phase = WaitPhase::Done;
            Step::over(Ok(false))
        },
        _ => Step::idle(),
    };
    proof {
        assert(judges(want, first, asked, judged));
        assert(wait_for_next(judged, first, asked) == (WaitNext { phase: *phase, step: step@ }));
    }
    step
}

impl Want {
    /// The reply brings the event waited for.
    pub open spec fn met_by(&self, reply: Reply) -> bool {
        reply matches Reply::Event(Some(event)) && self.accepts(event)
    }

    /// Takes a wait for this event one step further.
    pub fn wait(&self, phase: &mut WaitPhase, reply: Reply) -> (step: Step<bool>)
        ensures
            wait_for_next(self.met_by(reply), *old(phase), reply) == (WaitNext {
                phase: *final(phase),
                step: step@,
            }),
    {
        let want = |event: &BrokerEvent| -> (r: bool)
            ensures
                r == self.accepts(*event),
            { self.is_met_by(event) };
        wait_for(want, phase, reply)
    }
}

/// Sends and cancels transactions to one destination.
#[derive(Debug, PartialEq, Eq)]
pub struct EpicboxChannel {
    pub dest: String,
    pub epicbox_config: Option<EpicboxConfig>,
}

impl Clone for EpicboxChannel {
    fn clone(&self) -> (r: Self)
        ensures
            r == *self,
    {
        EpicboxChannel {
            dest: self.dest.clone(),
            epicbox_config: match &self.epicbox_config {
                Some(config) => Some(config.clone()),
                None => None,
            },
        }
    }
}

/// How far sending a Slate has come.
#[derive(Debug, PartialEq, Eq)]
pub enum SendPhase {
    Ready,
    Starting(Starting),
    Publishing(Publish),
    Waiting(WaitPhase),
    Done,
}

/// Sending a Slate.
#[derive(Debug, PartialEq, Eq)]
pub struct SendSlate {
    pub slate: Slate,
    pub wallet_mode: String,
    pub phase: SendPhase,
}

/// How far cancelling a transaction has come.
#[derive(Debug, PartialEq, Eq)]
pub enum CancelSessionPhase {
    Ready,
    Starting(Starting),
    AwaitingSubscription(WaitPhase),
    Cancelling(CancelTx),
    AwaitingConfirmation(WaitPhase),
    Done,
}

/// Cancelling a transaction on the relay.
#[derive(Debug, PartialEq, Eq)]
pub struct CancelSession {
    pub epicboxtxid: String,
    pub wallet_mode: String,
    pub phase: CancelSessionPhase,
}

/// The last step of a one-shot session: its listener, if there is one, is removed
/// and stopped, its websocket closed and its subscriber waited for.
pub open spec fn teardown(
    container: ContainerView,
    broker: EpicboxBroker,
    last: Seq<EffectView>,
    outcome: Result<(), ErrorView>,
) -> (ContainerView, EpicboxBroker, StepView<()>) {
    let running = container.listener(ListenerInterface::Epicbox) is Ok;
    (
        container.without(ListenerInterface::Epicbox),
        if running {
            EpicboxBroker { stopping: true, ..broker }
        } else {
            broker
        },
        StepView {
            effects: stop_effects(running) + last,
            done: Some(outcome),
        },
    )
}

/// What is left to do after the listener is gone.
spec fn last_effects(last: Option<Effect>) -> Seq<EffectView> {
    match last {
        Some(effect) => seq![effect@],
        None => seq![],
    }
}

/// Stops a one-shot session.
fn tear_down(
    container: &mut Container,
    broker: &mut EpicboxBroker,
    last: Option<Effect>,
    outcome: Result<(), Error>,
) -> (step: Step<()>)
    ensures
        (final(container)@, *final(broker), step@) == teardown(
            old(container)@,
            *old(broker),
            last_effects(last),
            outcome_view(outcome),
        ),
{
    let ghost told = last_effects(last);
    let mut rest = Vec::new();
    let effects = stop_epicbox_listener(container, broker);
    match last {
        Some(effect) => {
            rest.push(effect);
        },
        None => {},
    }
    let step = Step { effects: rest, done: Some(outcome) };
    assert(step@.effects =~= told);
    step.preceded_by(effects)
}

/// A one-shot session that sends, after a step.
#[verifier::ext_equal]
pub struct SendNext {
    pub container: ContainerView,
    pub broker: EpicboxBroker,
    pub send: SendSlate,
    pub step: StepView<()>,
}

/// A one-shot session that cancels, after a step.
#[verifier::ext_equal]
pub struct CancelSessionNext {
    pub container: ContainerView,
    pub broker: EpicboxBroker,
    pub cancel: CancelSession,
    pub step: StepView<()>,
}

impl EpicboxChannel {
    /// The settings in force: the channel's own or else the default ones.
    pub open spec fn effective_config(&self, default_config: EpicboxConfig) -> EpicboxConfig {
        match self.epicbox_config {
            Some(config) => config,
            None => default_config,
        }
    }
}

/// One step of publishing the Slate on the session's listener. The session ends
/// where that fails, and waits for the acknowledgement once the Slate is out.
pub open spec fn send_publishing_next(
    container: ContainerView,
    broker: EpicboxBroker,
    send: SendSlate,
    publish: Publish,
    reply: Reply,
) -> SendNext {
    match container.listener(ListenerInterface::Epicbox) {
        Err(e) => SendNext {
            container,
            broker,
            send: SendSlate { phase: SendPhase::Done, ..send },
            step: StepView::over(Err(e)),
        },
        Ok(listener) => {
            let next = publish_to_next(broker, publish, listener.publisher.address, reply);
            match next.step.done {
                None => SendNext {
                    container,
                    broker: next.broker,
                    send: SendSlate { phase: SendPhase::Publishing(next.publish), ..send },
                    step: next.step,
                },
                Some(Err(e)) => {
                    let (container, broker, step) = teardown(
                        container,
                        next.broker,
                        seq![],
                        Err(e),
                    );
                    SendNext {
                        container,
                        broker,
                        send: SendSlate { phase: SendPhase::Done, ..send },
                        step,
                    }
                },
                Some(Ok(_)) => SendNext {
                    container,
                    broker: next.broker,
                    send: SendSlate { phase: SendPhase::Waiting(WaitPhase::CheckingClock), ..send },
                    step: StepView::tell_and_ask(
                        EffectView::SetDeadline(RELAY_ACK_TIMEOUT_SECS),
                        EffectView::Clock,
                    ),
                },
            }
        },
    }
}

/// What every session of a channel works with.
pub struct ChannelSettings {
    pub channel: EpicboxChannel,
    pub default_config: EpicboxConfig,
    pub tor_config: TorConfig,
    pub wallet_version: String,
}

impl ChannelSettings {
    /// The settings in force.
    pub open spec fn config(&self) -> EpicboxConfig {
        self.channel.effective_config(self.default_config)
    }
}

/// One step of starting the session that sends. Once it has started, its listener is
/// there and the Slate is published to the destination, without a transaction
/// identifier.
pub open spec fn send_starting_next(
    settings: ChannelSettings,
    container: ContainerView,
    broker: EpicboxBroker,
    send: SendSlate,
    starting: Starting,
    reply: Reply,
) -> SendNext {
    let next = start_next(
        settings.config(),
        settings.tor_config,
        settings.wallet_version,
        broker,
        starting,
        reply,
    );
    match next.step.done {
        None => SendNext {
            container,
            broker: next.broker,
            send: SendSlate { phase: SendPhase::Starting(next.starting), ..send },
            step: StepView { effects: next.step.effects, done: None },
        },
        Some(Err(e)) => SendNext {
            container,
            broker: next.broker,
            send: SendSlate { phase: SendPhase::Done, ..send },
            step: StepView::over(Err(e)),
        },
        Some(Ok(listener)) => {
            let published = send_publishing_next(
                container.with(ListenerInterface::Epicbox, listener),
                next.broker,
                send,
                Publish {
                    slate: send.slate,
                    version: SLATE_V2,
                    to: settings.channel.dest,
                    epicboxtxid: None,
                    phase: PublishPhase::Ready,
                },
                Reply::Begin,
            );
            SendNext {
                step: StepView {
                    effects: next.step.effects + published.step.effects,
                    done: published.step.done,
                },
                ..published
            }
        },
    }
}

/// One step of sending a Slate: start a session, publish the Slate to the
/// destination without a transaction identifier, wait for the acknowledgement as
/// long as the deadline allows, close the session and hand the Slate back. The
/// Slate counts as sent whether or not the acknowledgement came.
pub open spec fn send_next(
    settings: ChannelSettings,
    container: ContainerView,
    broker: EpicboxBroker,
    send: SendSlate,
    reply: Reply,
) -> SendNext {
    let at = |phase: SendPhase, step: StepView<()>|
        SendNext { container, broker, send: SendSlate { phase, ..send }, step };
    match send.phase {
        SendPhase::Ready => match reply {
            Reply::Begin => send_starting_next(
                settings,
                ContainerView::fresh(settings.config()),
                broker,
                send,
                Starting { wallet_mode: send.wallet_mode, phase: StartPhase::Ready },
                Reply::Begin,
            ),
            _ => at(send.phase, StepView::idle()),
        },
        SendPhase::Starting(starting) => send_starting_next(
            settings,
            container,
            broker,
            send,
            starting,
            reply,
        ),
        SendPhase::Publishing(publish) => send_publishing_next(
            container,
            broker,
            send,
            publish,
            reply,
        ),
        SendPhase::Waiting(wait) => {
            let next = wait_for_next(Want::PostAck.met_by(reply), wait, reply);
            match next.step.done {
                None => at(
                    SendPhase::Waiting(next.phase),
                    StepView { effects: next.step.effects, done: None },
                ),
                Some(_) => {
                    let (container, broker, step) = teardown(
                        container,
                        broker,
                        seq![EffectView::HandBack { slate: send.slate, version: SLATE_V2 }],
                        Ok(()),
                    );
                    SendNext {
                        container,
                        broker,
                        send: SendSlate { phase: SendPhase::Done, ..send },
                        step,
                    }
                },
            }
        },
        SendPhase::Done => at(send.phase, StepView::idle()),
    }
}

/// The reply says that the session that sends could not connect.
pub open spec fn send_fails_to_connect(send: SendSlate, reply: Reply) -> bool {
    send.phase matches SendPhase::Starting(starting) && fails_to_connect(starting, reply)
}

/// A one-shot session that cancels ends, its listener stopped.
pub open spec fn cancel_teardown(
    container: ContainerView,
    broker: EpicboxBroker,
    cancel: CancelSession,
    outcome: Result<(), ErrorView>,
) -> CancelSessionNext {
    let (container, broker, step) = teardown(container, broker, seq![], outcome);
    CancelSessionNext {
        container,
        broker,
        cancel: CancelSession { phase: CancelSessionPhase::Done, ..cancel },
        step,
    }
}

/// One step of the CancelTx on the session's listener. The session ends where that
/// fails, and waits for the confirmation once the request is out.
pub open spec fn cancel_requesting_next(
    container: ContainerView,
    broker: EpicboxBroker,
    cancel: CancelSession,
    request: CancelTx,
    reply: Reply,
) -> CancelSessionNext {
    let at = |phase: CancelSessionPhase, step: StepView<()>|
        CancelSessionNext { container, broker, cancel: CancelSession { phase, ..cancel }, step };
    match container.listener(ListenerInterface::Epicbox) {
        Err(e) => at(CancelSessionPhase::Done, StepView::over(Err(e))),
        Ok(listener) => {
            let next = post_cancel_tx_next(broker, request, listener.publisher.address, reply);
            match next.step.done {
                None => at(CancelSessionPhase::Cancelling(next.cancel), next.step),
                Some(Err(e)) => cancel_teardown(container, broker, cancel, Err(e)),
                Some(Ok(_)) => at(
                    CancelSessionPhase::AwaitingConfirmation(WaitPhase::CheckingClock),
                    StepView::tell_and_ask(
                        EffectView::SetDeadline(RELAY_ACK_TIMEOUT_SECS),
                        EffectView::Clock,
                    ),
                ),
            }
        },
    }
}

/// What is said where the subscription did not come.
pub open spec fn no_subscription() -> ErrorView {
    ErrorView::EpicboxTungstenite(
        "Could not send CancelTx: Epicbox session ended or the subscription did not establish within 10s"@,
    )
}

/// What is said where the cancellation was not confirmed.
pub open spec fn not_confirmed(epicboxtxid: Seq<char>) -> ErrorView {
    ErrorView::EpicboxTungstenite(
        "No TransactionCancelled response from relay for ["@ + epicboxtxid
            + "]; local transaction was not confirmed cancelled"@,
    )
}

/// One step of starting the session that cancels. Once it has started, its listener
/// is there and its subscription is waited for.
pub open spec fn cancel_starting_next(
    settings: ChannelSettings,
    container: ContainerView,
    broker: EpicboxBroker,
    cancel: CancelSession,
    starting: Starting,
    reply: Reply,
) -> CancelSessionNext {
    let next = start_next(
        settings.config(),
        settings.tor_config,
        settings.wallet_version,
        broker,
        starting,
        reply,
    );
    match next.step.done {
        None => CancelSessionNext {
            container,
            broker: next.broker,
            cancel: CancelSession {
                phase: CancelSessionPhase::Starting(next.starting),
                ..cancel
            },
            step: StepView { effects: next.step.effects, done: None },
        },
        Some(Err(e)) => CancelSessionNext {
            container,
            broker: next.broker,
            cancel: CancelSession { phase: CancelSessionPhase::Done, ..cancel },
            step: StepView::over(Err(e)),
        },
        Some(Ok(listener)) => CancelSessionNext {
            container: container.with(ListenerInterface::Epicbox, listener),
            broker: next.broker,
            cancel: CancelSession {
                phase: CancelSessionPhase::AwaitingSubscription(WaitPhase::CheckingClock),
                ..cancel
            },
            step: StepView {
                effects: next.step.effects + seq![
                    EffectView::SetDeadline(SUBSCRIBE_TIMEOUT_SECS),
                    EffectView::Clock,
                ],
                done: None,
            },
        },
    }
}

/// The reply says that the session that cancels could not connect.
pub open spec fn cancel_fails_to_connect(cancel: CancelSession, reply: Reply) -> bool {
    cancel.phase matches CancelSessionPhase::Starting(starting) && fails_to_connect(starting, reply)
}

/// One step of cancelling a transaction: start a session, wait for its
/// subscription, request the cancellation, wait until the relay confirms it for
/// this very transaction, and close the session.
pub open spec fn cancel_next(
    settings: ChannelSettings,
    container: ContainerView,
    broker: EpicboxBroker,
    cancel: CancelSession,
    reply: Reply,
) -> CancelSessionNext {
    let at = |phase: CancelSessionPhase, step: StepView<()>|
        CancelSessionNext { container, broker, cancel: CancelSession { phase, ..cancel }, step };
    match cancel.phase {
        CancelSessionPhase::Ready => match reply {
            Reply::Begin => cancel_starting_next(
                settings,
                ContainerView::fresh(settings.config()),
                broker,
                cancel,
                Starting { wallet_mode: cancel.wallet_mode, phase: StartPhase::Ready },
                Reply::Begin,
            ),
            _ => at(cancel.phase, StepView::idle()),
        },
        CancelSessionPhase::Starting(starting) => cancel_starting_next(
            settings,
            container,
            broker,
            cancel,
            starting,
            reply,
        ),
        CancelSessionPhase::AwaitingSubscription(wait) => {
            let next = wait_for_next(Want::Subscribed.met_by(reply), wait, reply);
            match next.step.done {
                None => at(
                    CancelSessionPhase::AwaitingSubscription(next.phase),
                    StepView { effects: next.step.effects, done: None },
                ),
                Some(Ok(true)) => cancel_requesting_next(
                    container,
                    broker,
                    cancel,
                    CancelTx { epicboxtxid: cancel.epicboxtxid, phase: CancelPhase::Ready },
                    Reply::Begin,
                ),
                Some(_) => cancel_teardown(container, broker, cancel, Err(no_subscription())),
            }
        },
        CancelSessionPhase::Cancelling(request) => cancel_requesting_next(
            container,
            broker,
            cancel,
            request,
            reply,
        ),
        CancelSessionPhase::AwaitingConfirmation(wait) => {
            let next = wait_for_next(
                Want::Cancelled { epicboxtxid: cancel.epicboxtxid }.met_by(reply),
                wait,
                reply,
            );
            match next.step.done {
                None => at(
                    CancelSessionPhase::AwaitingConfirmation(next.phase),
                    StepView { effects: next.step.effects, done: None },
                ),
                Some(Ok(true)) => cancel_teardown(container, broker, cancel, Ok(())),
                Some(_) => cancel_teardown(
                    container,
                    broker,
                    cancel,
                    Err(not_confirmed(cancel.epicboxtxid@)),
                ),
            }
        },
        CancelSessionPhase::Done => at(cancel.phase, StepView::idle()),
    }
}

impl SendSlate {
    /// Prepares to send a Slate.
    pub fn new(slate: &Slate) -> (r: Self)
        ensures
            r.slate == *slate,
            r.wallet_mode@ == "send"@,
            r.phase == SendPhase::Ready,
    {
        SendSlate {
            slate: slate.clone(),
            wallet_mode: "send".to_string(),
            phase: SendPhase::Ready,
        }
    }
}

impl CancelSession {
    /// Prepares to cancel a transaction.
    pub fn new(epicboxtxid: &String) -> (r: Self)
        ensures
            r.epicboxtxid == *epicboxtxid,
            r.wallet_mode@ == "send"@,
            r.phase == CancelSessionPhase::Ready,
    {
        CancelSession {
            epicboxtxid: epicboxtxid.clone(),
            wallet_mode: "send".to_string(),
            phase: CancelSessionPhase::Ready,
        }
    }
}

/// Turns an unfinished wait into a step of its session.
fn keep_waiting(waited: Step<bool>) -> (step: Step<()>)
    ensures
        step@ == (StepView { effects: waited@.effects, done: None::<Result<(), ErrorView>> }),
{
    Step { effects: waited.effects, done: None }
}

impl EpicboxChannel {
    /// Creates a channel.
    pub fn new(dest: &String, epicbox_config: Option<EpicboxConfig>) -> (r: Result<
        EpicboxChannel,
        Error,
    >)
        ensures
            r == Ok::<EpicboxChannel, Error>(EpicboxChannel { dest: *dest, epicbox_config }),
    {
        Ok(EpicboxChannel { dest: dest.clone(), epicbox_config })
    }

    /// The settings in force.
    fn config(&self, default_config: &EpicboxConfig) -> (r: EpicboxConfig)
        ensures
            r == self.effective_config(*default_config),
    {
        match &self.epicbox_config {
            Some(config) => config.clone(),
            None => default_config.clone(),
        }
    }

    /// Takes the publication of a one-shot session one step further.
    fn send_publishing(
        container: &mut Container,
        broker: &mut EpicboxBroker,
        send: &mut SendSlate,
        publish: Publish,
        reply: Reply,
    ) -> (step: Step<()>)
        ensures
            send_publishing_next(old(container)@, *old(broker), *old(send), publish, reply) == (
            SendNext {
                container: final(container)@,
                broker: *final(broker),
                send: *final(send),
                step: step@,
            }),
    {
        let mut publish = publish;
        let step = match container.listener(ListenerInterface::Epicbox) {
            Ok(listener) => listener.publish(broker, &mut publish, reply),
            Err(e) => {
                send.phase = SendPhase::Done;
                return Step::over(Err(e));
            },
        };
        match &step.done {
            None => {
                send.phase = SendPhase::Publishing(publish);
                step
            },
            Some(Ok(_)) => {
                send.phase = SendPhase::Waiting(WaitPhase::CheckingClock);
                Step::tell_and_ask(Effect::SetDeadline(RELAY_ACK_TIMEOUT_SECS), Effect::Clock)
            },
            Some(Err(_)) => {
                send.phase = SendPhase::Done;
                match step.done {
                    Some(outcome) => tear_down(container, broker, None, outcome),
                    None => Step::idle(),
                }
            },
        }
    }

    /// Takes the start of the session that sends one step further.
    fn send_starting(
        &self,
        default_config: &EpicboxConfig,
        tor_config: TorConfig,
        wallet_version: &String,
        container: &mut Container,
        broker: &mut EpicboxBroker,
        send: &mut SendSlate,
        starting: Starting,
        reply: Reply,
    ) -> (step: Step<()>)
        requires
            !fails_to_connect(starting, reply),
        ensures
            send_starting_next(
                (ChannelSettings {
                    channel: *self,
                    default_config: *default_config,
                    tor_config,
                    wallet_version: *wallet_version,
                }),
                old(container)@,
                *old(broker),
                *old(send),
                starting,
                reply,
            ) == (SendNext {
                container: final(container)@,
                broker: *final(broker),
                send: *final(send),
                step: step@,
            }),
    {
        let mut starting = starting;
        let config = self.config(default_config);
        let started = start_epicbox(
            container,
            &config,
            tor_config,
            wallet_version,
            broker,
            &mut starting,
            reply,
        );
        match started.done {
            None => {
                send.phase = SendPhase::Starting(starting);
                Step { effects: started.effects, done: None }
            },
            Some(Err(e)) => {
                send.phase = SendPhase::Done;
                Step::over(Err(e))
            },
            Some(Ok(listener)) => {
                container.insert(ListenerInterface::Epicbox, listener);
                let publish = Publish::new(&send.slate, SLATE_V2, &self.dest, None);
                Self::send_publishing(container, broker, send, publish, Reply::Begin).preceded_by(
                    started.effects,
                )
            },
        }
    }

    /// Takes the sending of a Slate one step further. Start it with `Reply::Begin`.
    pub fn send(
        &self,
        default_config: &EpicboxConfig,
        tor_config: TorConfig,
        wallet_version: &String,
        container: &mut Container,
        broker: &mut EpicboxBroker,
        send: &mut SendSlate,
        reply: Reply,
    ) -> (step: Step<()>)
        requires
            !send_fails_to_connect(*old(send), reply),
        ensures
            send_next(
                (ChannelSettings {
                    channel: *self,
                    default_config: *default_config,
                    tor_config,
                    wallet_version: *wallet_version,
                }),
                old(container)@,
                *old(broker),
                *old(send),
                reply,
            ) == (SendNext {
                container: final(container)@,
                broker: *final(broker),
                send: *final(send),
                step: step@,
            }),
    {
        let mut phase = SendPhase::Done;
        std::mem::swap(&mut phase, &mut send.phase);
        match phase {
            SendPhase::Ready => match reply {
                Reply::Begin => {
                    *container = Container::new(self.config(default_config));
                    let starting = Starting {
                        wallet_mode: send.wallet_mode.clone(),
                        phase: StartPhase::Ready,
                    };
                    self.send_starting(
                        default_config,
                        tor_config,
                        wallet_version,
                        container,
                        broker,
                        send,
                        starting,
                        Reply::Begin,
                    )
                },
                _ => {
                    send.phase = SendPhase::Ready;
                    Step::idle()
                },
            },
            SendPhase::Starting(starting) => self.send_starting(
                default_config,
                tor_config,
                wallet_version,
                container,
                broker,
                send,
                starting,
                reply,
            ),
            SendPhase::Publishing(publish) => Self::send_publishing(
                container,
                broker,
                send,
                publish,
                reply,
            ),
            SendPhase::Waiting(wait) => {
                let mut wait = wait;
                let waited = Want::PostAck.wait(&mut wait, reply);
                if waited.done.is_none() {
                    send.phase = SendPhase::Waiting(wait);
                    return keep_waiting(waited);
                }
                // Without the acknowledgement the Slate is out all the same; its
                // stable identifier is then not confirmed as stored.
                let hand_back = Effect::HandBack { slate: send.slate.clone(), version: SLATE_V2 };
                tear_down(container, broker, Some(hand_back), Ok(()))
            },
            SendPhase::Done => Step::idle(),
        }
    }

    /// Takes the CancelTx of a one-shot session one step further.
    fn cancel_requesting(
        container: &mut Container,
        broker: &mut EpicboxBroker,
        cancel: &mut CancelSession,
        request: CancelTx,
        reply: Reply,
    ) -> (step: Step<()>)
        ensures
            cancel_requesting_next(old(container)@, *old(broker), *old(cancel), request, reply) == (
            CancelSessionNext {
                container: final(container)@,
                broker: *final(broker),
                cancel: *final(cancel),
                step: step@,
            }),
    {
        let mut request = request;
        let step = match container.listener(ListenerInterface::Epicbox) {
            Ok(listener) => listener.cancel(broker, &mut request, reply),
            Err(e) => {
                cancel.phase = CancelSessionPhase::Done;
                return Step::over(Err(e));
            },
        };
        match &step.done {
            None => {
                cancel.phase = CancelSessionPhase::Cancelling(request);
                step
            },
            Some(Ok(_)) => {
                cancel.phase = CancelSessionPhase::AwaitingConfirmation(WaitPhase::CheckingClock);
                Step::tell_and_ask(Effect::SetDeadline(RELAY_ACK_TIMEOUT_SECS), Effect::Clock)
            },
            Some(Err(_)) => {
                cancel.phase = CancelSessionPhase::Done;
                match step.done {
                    Some(outcome) => tear_down(container, broker, None, outcome),
                    None => Step::idle(),
                }
            },
        }
    }

    /// Takes the start of the session that cancels one step further.
    fn cancel_starting(
        &self,
        default_config: &EpicboxConfig,
        tor_config: TorConfig,
        wallet_version: &String,
        container: &mut Container,
        broker: &mut EpicboxBroker,
        cancel: &mut CancelSession,
        starting: Starting,
        reply: Reply,
    ) -> (step: Step<()>)
        requires
            !fails_to_connect(starting, reply),
        ensures
            cancel_starting_next(
                (ChannelSettings {
                    channel: *self,
                    default_config: *default_config,
                    tor_config,
                    wallet_version: *wallet_version,
                }),
                old(container)@,
                *old(broker),
                *old(cancel),
                starting,
                reply,
            ) == (CancelSessionNext {
                container: final(container)@,
                broker: *final(broker),
                cancel: *final(cancel),
                step: step@,
            }),
    {
        let mut starting = starting;
        let config = self.config(default_config);
        let started = start_epicbox(
            container,
            &config,
            tor_config,
            wallet_version,
            broker,
            &mut starting,
            reply,
        );
        match started.done {
            None => {
                cancel.phase = CancelSessionPhase::Starting(starting);
                Step { effects: started.effects, done: None }
            },
            Some(Err(e)) => {
                cancel.phase = CancelSessionPhase::Done;
                Step::over(Err(e))
            },
            Some(Ok(listener)) => {
                container.insert(ListenerInterface::Epicbox, listener);
                cancel.phase = CancelSessionPhase::AwaitingSubscription(WaitPhase::CheckingClock);
                Step::tell_and_ask(
                    Effect::SetDeadline(SUBSCRIBE_TIMEOUT_SECS),
                    Effect::Clock,
                ).preceded_by(started.effects)
            },
        }
    }

    /// Takes the cancellation of a transaction one step further. Start it with
    /// `Reply::Begin`.
    pub fn cancel(
        &self,
        default_config: &EpicboxConfig,
        tor_config: TorConfig,
        wallet_version: &String,
        container: &mut Container,
        broker: &mut EpicboxBroker,
        cancel: &mut CancelSession,
        reply: Reply,
    ) -> (step: Step<()>)
        requires
            !cancel_fails_to_connect(*old(cancel), reply),
        ensures
            cancel_next(
                (ChannelSettings {
                    channel: *self,
                    default_config: *default_config,
                    tor_config,
                    wallet_version: *wallet_version,
                }),
                old(container)@,
                *old(broker),
                *old(cancel),
                reply,
            ) == (CancelSessionNext {
                container: final(container)@,
                broker: *final(broker),
                cancel: *final(cancel),
                step: step@,
            }),
    {
        let mut phase = CancelSessionPhase::Done;
        std::mem::swap(&mut phase, &mut cancel.phase);
        match phase {
            CancelSessionPhase::Ready => match reply {
                Reply::Begin => {
                    *container = Container::new(self.config(default_config));
                    let starting = Starting {
                        wallet_mode: cancel.wallet_mode.clone(),
                        phase: StartPhase::Ready,
                    };
                    self.cancel_starting(
                        default_config,
                        tor_config,
                        wallet_version,
                        container,
                        broker,
                        cancel,
                        starting,
                        Reply::Begin,
                    )
                },
                _ => {
                    cancel.phase = CancelSessionPhase::Ready;
                    Step::idle()
                },
            },
            CancelSessionPhase::Starting(starting) => self.cancel_starting(
                default_config,
                tor_config,
                wallet_version,
                container,
                broker,
                cancel,
                starting,
                reply,
            ),
            CancelSessionPhase::AwaitingSubscription(wait) => {
                let mut wait = wait;
                let waited = Want::Subscribed.wait(&mut wait, reply);
                match &waited.done {
                    None => {
                        cancel.phase = CancelSessionPhase::AwaitingSubscription(wait);
                        keep_waiting(waited)
                    },
                    Some(Ok(true)) => {
                        let request = CancelTx::new(&cancel.epicboxtxid);
                        Self::cancel_requesting(container, broker, cancel, request, Reply::Begin)
                    },
                    Some(_) => tear_down(
                        container,
                        broker,
                        None,
                        Err(
                            Error::EpicboxTungstenite(
                                "Could not send CancelTx: Epicbox session ended or the subscription did not establish within 10s".to_string(),
                            ),
                        ),
                    ),
                }
            },
            CancelSessionPhase::Cancelling(request) => Self::cancel_requesting(
                container,
                broker,
                cancel,
                request,
                reply,
            ),
            CancelSessionPhase::AwaitingConfirmation(wait) => {
                let mut wait = wait;
                let want = Want::Cancelled { epicboxtxid: cancel.epicboxtxid.clone() };
                let waited = want.wait(&mut wait, reply);
                match &waited.done {
                    None => {
                        cancel.phase = CancelSessionPhase::AwaitingConfirmation(wait);
                        keep_waiting(waited)
                    },
                    Some(Ok(true)) => tear_down(container, broker, None, Ok(())),
                    Some(_) => tear_down(
                        container,
                        broker,
                        None,
                        Err(
                            Error::EpicboxTungstenite(
                                "No TransactionCancelled response from relay for [".to_string().concat(
                                    cancel.epicboxtxid.as_str(),
                                ).concat("]; local transaction was not confirmed cancelled"),
                            ),
                        ),
                    ),
                }
            },
            CancelSessionPhase::Done => Step::idle(),
        }
    }
}

/// Listens until its connection ends.
#[derive(Debug, PartialEq, Eq, Clone, Copy)]
pub struct EpicboxListenChannel {
    _priv: (),
}

/// How far listening has come.
#[derive(Debug, PartialEq, Eq)]
pub enum ListenPhase {
    Ready,
    Deriving,
    Connecting { address: EpicboxAddress },
    Running(EpicboxClient<EpicboxPublisher>),
    Done,
}

/// Listening on the wallet's own address.
#[derive(Debug, PartialEq, Eq)]
pub struct Listen {
    pub wallet_mode: String,
    pub phase: ListenPhase,
}

/// A listening session after a step.
#[verifier::ext_equal]
pub struct ListenNext {
    pub broker: EpicboxBroker,
    pub reconnections: u32,
    pub listen: Listen,
    pub step: StepView<()>,
}

/// One step of the loop that a listening session runs.
pub open spec fn listen_running_next(
    broker: EpicboxBroker,
    listen: Listen,
    client: EpicboxClient<EpicboxPublisher>,
    order: Seq<String>,
    reply: Reply,
) -> ListenNext {
    let next = subscribe_next(broker, client, order, reply);
    ListenNext {
        broker: next.broker,
        reconnections: next.client.handler.reconnections,
        listen: Listen { phase: ListenPhase::Running(next.client), ..listen },
        step: next.step,
    }
}

/// One step of listening: derive the wallet's address, connect to its relay and
/// run the subscriber's loop there. A failed connection counts as one more
/// reconnection. `order` is the order in which the Tor nodes stand that a reply
/// names.
pub open spec fn listen_next(
    config: EpicboxConfig,
    tor_config: TorConfig,
    wallet_version: String,
    broker: EpicboxBroker,
    reconnections: u32,
    listen: Listen,
    order: Seq<String>,
    reply: Reply,
) -> ListenNext {
    let at = |phase: ListenPhase, step: StepView<()>|
        ListenNext { broker, reconnections, listen: Listen { phase, ..listen }, step };
    match listen.phase {
        ListenPhase::Ready => match reply {
            Reply::Begin => at(ListenPhase::Deriving, StepView::ask(own_address_query(config))),
            _ => at(listen.phase, StepView::idle()),
        },
        ListenPhase::Deriving => match reply {
            Reply::Address(Ok(address)) => at(
                ListenPhase::Connecting { address },
                StepView::ask(
                    EffectView::Connect {
                        url: relay_url_text(config, address),
                        read_timeout_secs: None,
                    },
                ),
            ),
            Reply::Address(Err(e)) => at(ListenPhase::Done, StepView::over(Err(e@))),
            _ => at(listen.phase, StepView::idle()),
        },
        ListenPhase::Connecting { address } => match reply {
            Reply::Connected(Ok(_)) => listen_running_next(
                EpicboxBroker::fresh(),
                listen,
                client_of(address, listen.wallet_mode, wallet_version, reconnections, tor_config),
                order,
                Reply::Begin,
            ),
            Reply::Connected(Err(text)) => ListenNext {
                broker,
                reconnections: (reconnections + 1) as u32,
                listen: Listen { phase: ListenPhase::Done, ..listen },
                step: StepView::over(Err(ErrorView::EpicboxTungstenite(text@))),
            },
            _ => at(listen.phase, StepView::idle()),
        },
        ListenPhase::Running(client) => listen_running_next(broker, listen, client, order, reply),
        ListenPhase::Done => at(listen.phase, StepView::idle()),
    }
}

/// The step counts one more reconnection.
pub open spec fn counts_reconnection(broker: EpicboxBroker, listen: Listen, reply: Reply) -> bool {
    match listen.phase {
        ListenPhase::Connecting { address } => reply matches Reply::Connected(Err(_)),
        ListenPhase::Running(client) => loses_connection(broker, client, reply),
        _ => false,
    }
}

impl Listen {
    /// The reconnections counted so far.
    pub open spec fn counted(&self, reconnections: u32) -> u32 {
        match self.phase {
            ListenPhase::Running(client) => client.handler.reconnections,
            _ => reconnections,
        }
    }

    /// Prepares to listen.
    pub fn new() -> (r: Self)
        ensures
            r.wallet_mode@ == "listener"@,
            r.phase == ListenPhase::Ready,
    {
        Listen { wallet_mode: "listener".to_string(), phase: ListenPhase::Ready }
    }
}

impl EpicboxListenChannel {
    /// Creates a channel.
    pub fn new() -> (r: Result<EpicboxListenChannel, Error>)
        ensures
            r is Ok,
    {
        Ok(EpicboxListenChannel { _priv: () })
    }

    /// Takes listening one step further. Start it with `Reply::Begin`.
    pub fn listen(
        &self,
        config: &EpicboxConfig,
        tor_config: TorConfig,
        wallet_version: &String,
        broker: &mut EpicboxBroker,
        reconnections: &mut u32,
        listen: &mut Listen,
        reply: Reply,
    ) -> (step: Step<()>)
        requires
            counts_reconnection(*old(broker), *old(listen), reply) ==> old(listen).counted(
                *old(reconnections),
            ) < u32::MAX,
        ensures
            exists|order: Seq<String>|
                {
                    &&& #[trigger] is_onion_order(reply, order)
                    &&& listen_next(
                        *config,
                        tor_config,
                        *wallet_version,
                        *old(broker),
                        *old(reconnections),
                        *old(listen),
                        order,
                        reply,
                    ) == (ListenNext {
                        broker: *final(broker),
                        reconnections: *final(reconnections),
                        listen: *final(listen),
                        step: step@,
                    })
                },
    {
        let ghost asked = reply;
        let ghost first_broker = *broker;
        let ghost first_listen = *listen;
        let ghost first_count = *reconnections;
        let ghost mut order: Seq<String> = known_onions(reply->Finalized_0->Ok_0);
        let step = match &mut listen.phase {
            ListenPhase::Ready => match reply {
                Reply::Begin => {
                    listen.phase = ListenPhase::Deriving;
                    Step::ask(derive_own_address(config))
                },
                _ => Step::idle(),
            },
            ListenPhase::Deriving => match reply {
                Reply::Address(Ok(address)) => {
                    let url = relay_url(config, &address);
                    listen.phase = ListenPhase::Connecting { address };
                    Step::ask(Effect::Connect { url, read_timeout_secs: None })
                },
                Reply::Address(Err(e)) => {
                    listen.phase = ListenPhase::Done;
                    Step::over(Err(e))
                },
                _ => Step::idle(),
            },
            ListenPhase::Connecting { address } => match reply {
                Reply::Connected(Ok(_)) => {
                    let container = Container::new(config.clone());
                    let started = set_up(
                        &container,
                        address,
                        &listen.wallet_mode,
                        wallet_version,
                        *reconnections,
                        tor_config,
                    );
                    let (fresh, _, mut client) = match started {
                        Ok(session) => session,
                        Err(e) => {
                            return Step::over(Err(e));
                        },
                    };
                    *broker = fresh;
                    let step = broker.subscribe(&mut client, Reply::Begin);
                    *reconnections = client.handler.reconnections;
                    listen.phase = ListenPhase::Running(client);
                    step
                },
                Reply::Connected(Err(text)) => {
                    *reconnections = *reconnections + 1;
                    listen.phase = ListenPhase::Done;
                    Step::over(Err(Error::EpicboxTungstenite(text)))
                },
                _ => Step::idle(),
            },
            ListenPhase::Running(client) => {
                let ghost first_client = *client;
                let step = broker.subscribe(client, reply);
                proof {
                    order = choose|order: Seq<String>|
                        {
                            &&& #[trigger] is_onion_order(asked, order)
                            &&& subscribe_next(first_broker, first_client, order, asked) == (
                            SubscribeNext { broker: *broker, client: *client, step: step@ })
                        };
                }
                *reconnections = client.handler.reconnections;
                step
            },
            ListenPhase::Done => Step::idle(),
        };
        proof {
            assert(is_onion_order(asked, order));
            assert(listen_next(
                *config,
                tor_config,
                *wallet_version,
                first_broker,
                first_count,
                first_listen,
                order,
                asked,
            ) == (ListenNext {
                broker: *broker,
                reconnections: *reconnections,
                listen: *listen,
                step: step@,
            }));
        }
        step
    }
}

} // verus!
