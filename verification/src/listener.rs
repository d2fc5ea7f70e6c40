//! Publishers, subscribers and the listeners that join them, and how the session
//! of a listener starts and stops.
use crate::broker::{post_cancel_tx_next, CancelNext, CancelTx, EpicboxBroker};
use crate::broker::{PostPhase, PostSlate};
use crate::controller::{publish_next, EpicboxController, Publisher};
use crate::effect::{Effect, EffectView, Reply, Step, StepView};
use crate::error::{Error, ErrorView};
use crate::subscribe::EpicboxClient;
use crate::text::{decimal, opt_text, to_decimal};
use crate::wallet::{EpicboxAddress, EpicboxConfig, Slate, TorConfig};
use std::collections::HashMap;
use vstd::prelude::*;

verus! {

/// What is said where no connection to the relay can be made.
pub const CONNECTION_ERR_MSG: &'static str =
    "\nCan't connect to the epicbox server!\nCheck your epic-wallet.toml settings and make sure epicbox domain is correct.\n";

/// The relay's port without TLS, where the address names none.
pub const DEFAULT_EPICBOX_PORT_80: u16 = 80;

/// The relay's port with TLS, where the address names none.
pub const DEFAULT_EPICBOX_PORT_443: u16 = 443;

/// How long a read of a one-shot session waits, in seconds.
pub const READ_TIMEOUT_SECS: u64 = 1;

/// Which of the wallet's keys its address comes from.
pub const ADDRESS_INDEX: u32 = 0;

/// Sends requests in the name of one address.
#[derive(Debug, PartialEq, Eq)]
pub struct EpicboxPublisher {
    pub address: EpicboxAddress,
    pub wallet_mode: String,
}

/// Receives for one address.
#[derive(Debug, PartialEq, Eq)]
pub struct EpicboxSubscriber {
    pub address: EpicboxAddress,
    pub wallet_mode: String,
}

/// A publisher and a subscriber on one connection.
#[derive(Debug, PartialEq, Eq)]
pub struct EpicboxListener {
    pub address: EpicboxAddress,
    pub publisher: EpicboxPublisher,
    pub subscriber: EpicboxSubscriber,
}

/// What a listener listens on.
#[derive(Copy, Clone, Eq, PartialEq, Debug, Hash)]
pub enum ListenerInterface {
    Epicbox,
}

/// How far the publication of a Slate has come.
#[derive(Debug, PartialEq, Eq)]
pub enum PublishPhase {
    Ready,
    Parsing,
    Posting(PostSlate),
    Done,
}

/// Publishing a Slate to an address given as text.
#[derive(Debug, PartialEq, Eq)]
pub struct Publish {
    pub slate: Slate,
    /// The version in which the Slate goes out.
    pub version: u16,
    pub to: String,
    pub epicboxtxid: Option<String>,
    pub phase: PublishPhase,
}

impl Clone for EpicboxPublisher {
    fn clone(&self) -> (r: Self)
        ensures
            r == *self,
    {
        EpicboxPublisher { address: self.address.clone(), wallet_mode: self.wallet_mode.clone() }
    }
}

impl Clone for EpicboxSubscriber {
    fn clone(&self) -> (r: Self)
        ensures
            r == *self,
    {
        EpicboxSubscriber { address: self.address.clone(), wallet_mode: self.wallet_mode.clone() }
    }
}

impl ListenerInterface {
    /// The name of an interface.
    pub open spec fn text(&self) -> Seq<char> {
        match self {
            ListenerInterface::Epicbox => "Epicbox"@,
        }
    }

    /// The key of an interface among the listeners of a container.
    pub open spec fn key(&self) -> u64 {
        match self {
            ListenerInterface::Epicbox => 0,
        }
    }

    /// Names the interface.
    pub fn to_string(&self) -> (r: String)
        ensures
            r@ == self.text(),
    {
        match self {
            ListenerInterface::Epicbox => "Epicbox".to_string(),
        }
    }

    /// Numbers the interface.
    pub fn to_key(&self) -> (r: u64)
        ensures
            r == self.key(),
    {
        match self {
            ListenerInterface::Epicbox => 0,
        }
    }
}

/// The broker and the publication of a Slate after a step.
#[verifier::ext_equal]
pub struct PublishNext {
    pub broker: EpicboxBroker,
    pub publish: Publish,
    pub step: StepView<()>,
}

/// One step of publishing a Slate: read the address, then post the Slate there
/// and leave the connection open, for the acknowledgement is still to come.
pub open spec fn publish_to_next(
    broker: EpicboxBroker,
    publish: Publish,
    sender: EpicboxAddress,
    reply: Reply,
) -> PublishNext {
    let at = |phase: PublishPhase, step: StepView<()>|
        PublishNext { broker, publish: Publish { phase, ..publish }, step };
    let posting = |post: PostSlate, reply: Reply|
        {
            let next = publish_next(broker, post, sender, reply);
            PublishNext {
                broker: next.broker,
                publish: Publish { phase: PublishPhase::Posting(next.post), ..publish },
                step: next.step,
            }
        };
    match publish.phase {
        PublishPhase::Ready => match reply {
            Reply::Begin => at(
                PublishPhase::Parsing,
                StepView::ask(EffectView::ParseAddress(publish.to@)),
            ),
            _ => at(publish.phase, StepView::idle()),
        },
        PublishPhase::Parsing => match reply {
            Reply::Address(Ok(to)) => posting(
                PostSlate {
                    slate: publish.slate,
                    version: publish.version,
                    to,
                    close_connection: false,
                    epicboxtxid: publish.epicboxtxid,
                    phase: PostPhase::Ready,
                },
                Reply::Begin,
            ),
            Reply::Address(Err(e)) => at(PublishPhase::Done, StepView::over(Err(e@))),
            _ => at(publish.phase, StepView::idle()),
        },
        PublishPhase::Posting(post) => posting(post, reply),
        PublishPhase::Done => at(publish.phase, StepView::idle()),
    }
}

/// A running session that can publish and cancel.
pub trait Listener: Sized {
    /// What the listener listens on.
    spec fn listens_on(&self) -> ListenerInterface;

    /// The address that it listens for.
    spec fn own_address(&self) -> EpicboxAddress;

    /// The address in whose name it publishes.
    spec fn publishes_as(&self) -> EpicboxAddress;

    fn interface(&self) -> (r: ListenerInterface)
        ensures
            r == self.listens_on(),
    ;

    /// The address without its scheme.
    fn address(&self) -> (r: String)
        ensures
            r@ == self.own_address().stripped@,
    ;

    /// Takes the publication of a Slate one step further.
    fn publish(&self, broker: &mut EpicboxBroker, publish: &mut Publish, reply: Reply) -> (step:
        Step<()>)
        ensures
            publish_to_next(*old(broker), *old(publish), self.publishes_as(), reply) == (
            PublishNext { broker: *final(broker), publish: *final(publish), step: step@ }),
    ;

    /// Takes a CancelTx one step further.
    fn cancel(&self, broker: &EpicboxBroker, cancel: &mut CancelTx, reply: Reply) -> (step: Step<
        (),
    >)
        ensures
            post_cancel_tx_next(*broker, *old(cancel), self.publishes_as(), reply) == (CancelNext {
                cancel: *final(cancel),
                step: step@,
            }),
    ;

    /// Asks the listener's subscriber to end.
    fn stop(self, broker: &mut EpicboxBroker)
        ensures
            *final(broker) == (EpicboxBroker { stopping: true, ..*old(broker) }),
    ;
}

impl EpicboxPublisher {
    /// Creates a publisher.
    pub fn new(address: EpicboxAddress, wallet_mode: String) -> (r: Result<Self, Error>)
        ensures
            r == Ok::<Self, Error>(EpicboxPublisher { address, wallet_mode }),
    {
        Ok(EpicboxPublisher { address, wallet_mode })
    }
}

impl Publisher for EpicboxPublisher {
    open spec fn sender(&self) -> EpicboxAddress {
        self.address
    }

    fn post_slate(&self, broker: &mut EpicboxBroker, post: &mut PostSlate, reply: Reply) -> (step:
        Step<()>) {
        let step = broker.post_slate(post, &self.address, reply);
        if post.close_connection {
            match &step.done {
                Some(Ok(_)) => broker.stop(),
                _ => {},
            }
        }
        step
    }

    fn cancel_tx(&self, broker: &EpicboxBroker, cancel: &mut CancelTx, reply: Reply) -> (step: Step<
        (),
    >) {
        broker.post_cancel_tx(cancel, &self.address, reply)
    }
}

impl EpicboxSubscriber {
    /// Creates the subscriber that goes with a publisher.
    pub fn new(publisher: &EpicboxPublisher) -> (r: Result<Self, Error>)
        ensures
            r == Ok::<Self, Error>(
                EpicboxSubscriber {
                    address: publisher.address,
                    wallet_mode: publisher.wallet_mode,
                },
            ),
    {
        Ok(
            EpicboxSubscriber {
                address: publisher.address.clone(),
                wallet_mode: publisher.wallet_mode.clone(),
            },
        )
    }

    /// Sets up the loop that the subscriber runs.
    pub fn start<P: Publisher>(&self, handler: EpicboxController<P>, wallet_version: String) -> (r:
        EpicboxClient<P>)
        ensures
            r == EpicboxClient::fresh(handler, self.address, self.wallet_mode, wallet_version),
    {
        EpicboxClient::new(handler, self.address.clone(), self.wallet_mode.clone(), wallet_version)
    }

    /// Asks the loop to end.
    pub fn stop(&self, broker: &mut EpicboxBroker)
        ensures
            *final(broker) == (EpicboxBroker { stopping: true, ..*old(broker) }),
    {
        broker.stop();
    }
}

impl Publish {
    /// Prepares to publish a Slate.
    pub fn new(slate: &Slate, version: u16, to: &String, epicboxtxid: Option<&String>) -> (r: Self)
        ensures
            r == (Publish {
                slate: *slate,
                version,
                to: *to,
                epicboxtxid: match epicboxtxid {
                    Some(txid) => Some(*txid),
                    None => None,
                },
                phase: PublishPhase::Ready,
            }),
    {
        Publish {
            slate: slate.clone(),
            version,
            to: to.clone(),
            epicboxtxid: match epicboxtxid {
                Some(txid) => Some(txid.clone()),
                None => None,
            },
            phase: PublishPhase::Ready,
        }
    }
}

impl Listener for EpicboxListener {
    open spec fn listens_on(&self) -> ListenerInterface {
        ListenerInterface::Epicbox
    }

    open spec fn own_address(&self) -> EpicboxAddress {
        self.address
    }

    open spec fn publishes_as(&self) -> EpicboxAddress {
        self.publisher.address
    }

    fn interface(&self) -> (r: ListenerInterface) {
        ListenerInterface::Epicbox
    }

    fn address(&self) -> (r: String) {
        self.address.stripped.clone()
    }

    fn publish(&self, broker: &mut EpicboxBroker, publish: &mut Publish, reply: Reply) -> (step:
        Step<()>) {
        match &mut publish.phase {
            PublishPhase::Ready => match reply {
                Reply::Begin => {
                    publish.phase = PublishPhase::Parsing;
                    Step::ask(Effect::ParseAddress(publish.to.clone()))
                },
                _ => Step::idle(),
            },
            PublishPhase::Parsing => match reply {
                Reply::Address(Ok(to)) => {
                    let mut post = PostSlate::new(
                        &publish.slate,
                        publish.version,
                        &to,
                        false,
                        publish.epicboxtxid.as_ref(),
                    );
                    let step = self.publisher.post_slate(broker, &mut post, Reply::Begin);
                    publish.phase = PublishPhase::Posting(post);
                    step
                },
                Reply::Address(Err(e)) => {
                    publish.phase = PublishPhase::Done;
                    Step::over(Err(e))
                },
                _ => Step::idle(),
            },
            PublishPhase::Posting(post) => self.publisher.post_slate(broker, post, reply),
            PublishPhase::Done => Step::idle(),
        }
    }

    fn cancel(&self, broker: &EpicboxBroker, cancel: &mut CancelTx, reply: Reply) -> (step: Step<
        (),
    >) {
        self.publisher.cancel_tx(broker, cancel, reply)
    }

    fn stop(self, broker: &mut EpicboxBroker) {
        self.subscriber.stop(broker);
    }
}

/// The listeners of one wallet account.
pub struct Container {
    pub config: EpicboxConfig,
    pub account: String,
    /// The listener on each interface, by the interface's key.
    pub listeners: HashMap<u64, EpicboxListener>,
}

/// What a `Container` holds.
#[verifier::ext_equal]
pub struct ContainerView {
    pub config: EpicboxConfig,
    pub account: Seq<char>,
    pub listeners: Map<u64, EpicboxListener>,
}

impl View for Container {
    type V = ContainerView;

    open spec fn view(&self) -> ContainerView {
        ContainerView {
            config: self.config,
            account: self.account@,
            listeners: self.listeners@,
        }
    }
}

impl ContainerView {
    /// A container without listeners.
    pub open spec fn fresh(config: EpicboxConfig) -> Self {
        ContainerView { config, account: "default"@, listeners: Map::empty() }
    }

    /// The listener on an interface.
    pub open spec fn listener(self, interface: ListenerInterface) -> Result<
        EpicboxListener,
        ErrorView,
    > {
        if self.listeners.contains_key(interface.key()) {
            Ok(self.listeners[interface.key()])
        } else {
            Err(ErrorView::NoListener(interface.text()))
        }
    }

    /// The container with a listener on an interface.
    pub open spec fn with(self, interface: ListenerInterface, listener: EpicboxListener) -> Self {
        ContainerView { listeners: self.listeners.insert(interface.key(), listener), ..self }
    }

    /// The container without the listener on an interface.
    pub open spec fn without(self, interface: ListenerInterface) -> Self {
        ContainerView { listeners: self.listeners.remove(interface.key()), ..self }
    }
}

impl Container {
    /// Creates a container without listeners.
    pub fn new(config: EpicboxConfig) -> (r: Container)
        ensures
            r@ == ContainerView::fresh(config),
    {
        Container {
            config,
            account: "default".to_string(),
            listeners: HashMap::with_capacity(4),
        }
    }

    /// Finds the listener on an interface.
    pub fn listener(&self, interface: ListenerInterface) -> (r: Result<&EpicboxListener, Error>)
        ensures
            self@.listener(interface) == (match r {
                Ok(listener) => Ok(*listener),
                Err(e) => Err(e@),
            }),
    {
        broadcast use vstd::std_specs::hash::group_hash_axioms;

        match self.listeners.get(&interface.to_key()) {
            Some(listener) => Ok(listener),
            None => Err(Error::NoListener(interface.to_string())),
        }
    }

    /// Puts a listener on an interface.
    pub fn insert(&mut self, interface: ListenerInterface, listener: EpicboxListener)
        ensures
            final(self)@ == old(self)@.with(interface, listener),
    {
        broadcast use vstd::std_specs::hash::group_hash_axioms;

        self.listeners.insert(interface.to_key(), listener);
    }
}

/// What is left to do for a stopped listener: close the websocket and wait for the
/// subscriber to end.
pub open spec fn stop_effects(was_running: bool) -> Seq<EffectView> {
    if was_running {
        seq![EffectView::CloseSocket, EffectView::JoinListener]
    } else {
        seq![]
    }
}

/// Removes and stops the one-shot listener session, if present. Closes the websocket
/// and joins the subscriber, as the effects say.
pub fn stop_epicbox_listener(container: &mut Container, broker: &mut EpicboxBroker) -> (effects:
    Vec<Effect>)
    ensures
        effects@.map_values(|e: Effect| e@) == stop_effects(
            old(container)@.listener(ListenerInterface::Epicbox) is Ok,
        ),
        final(container)@ == old(container)@.without(ListenerInterface::Epicbox),
        *final(broker) == (if old(container)@.listener(ListenerInterface::Epicbox) is Ok {
            EpicboxBroker { stopping: true, ..*old(broker) }
        } else {
            *old(broker)
        }),
{
    broadcast use vstd::std_specs::hash::group_hash_axioms;

    let mut effects = Vec::new();
    match container.listeners.remove(&ListenerInterface::Epicbox.to_key()) {
        Some(listener) => {
            listener.stop(broker);
            effects.push(Effect::CloseSocket);
            effects.push(Effect::JoinListener);
        },
        None => {
            assert(container@ =~= old(container)@.without(ListenerInterface::Epicbox));
        },
    }
    assert(effects@.map_values(|e: Effect| e@) =~= stop_effects(
        old(container)@.listener(ListenerInterface::Epicbox) is Ok,
    ));
    effects
}

/// Whether the relay is reached without TLS.
pub open spec fn is_unsecure(config: EpicboxConfig) -> bool {
    config.epicbox_protocol_unsecure == Some(true)
}

/// Where the relay of an address is reached: the scheme goes by the settings, the
/// port by the address or else by the scheme.
pub open spec fn relay_url_text(config: EpicboxConfig, address: EpicboxAddress) -> Seq<char> {
    let scheme = if is_unsecure(config) {
        "ws://"@
    } else {
        "wss://"@
    };
    let port = match address.port {
        Some(port) => port,
        None => if is_unsecure(config) {
            DEFAULT_EPICBOX_PORT_80
        } else {
            DEFAULT_EPICBOX_PORT_443
        },
    };
    scheme + address.domain@ + ":"@ + decimal(port as nat)
}

/// Writes where the relay of an address is reached.
pub fn relay_url(config: &EpicboxConfig, address: &EpicboxAddress) -> (url: String)
    ensures
        url@ == relay_url_text(*config, *address),
{
    let unsecure = match config.epicbox_protocol_unsecure {
        Some(unsecure) => unsecure,
        None => false,
    };
    if unsecure {
        let port = address.port.unwrap_or(DEFAULT_EPICBOX_PORT_80);
        "ws://".to_string().concat(address.domain.as_str()).concat(":").concat(
            to_decimal(port).as_str(),
        )
    } else {
        let port = address.port.unwrap_or(DEFAULT_EPICBOX_PORT_443);
        "wss://".to_string().concat(address.domain.as_str()).concat(":").concat(
            to_decimal(port).as_str(),
        )
    }
}

/// The wallet's own address, to be derived for the relay in the settings.
pub open spec fn own_address_query(config: EpicboxConfig) -> EffectView {
    EffectView::DeriveAddress {
        index: ADDRESS_INDEX,
        domain: opt_text(config.epicbox_domain),
        port: config.epicbox_port,
    }
}

/// Asks for the wallet's own address.
pub fn derive_own_address(config: &EpicboxConfig) -> (effect: Effect)
    ensures
        effect@ == own_address_query(*config),
{
    Effect::DeriveAddress {
        index: ADDRESS_INDEX,
        domain: config.epicbox_domain.clone(),
        port: config.epicbox_port,
    }
}

/// The listener of an address: its publisher and the subscriber that goes with it.
pub open spec fn listener_of(address: EpicboxAddress, wallet_mode: String) -> EpicboxListener {
    EpicboxListener {
        address,
        publisher: EpicboxPublisher { address, wallet_mode },
        subscriber: EpicboxSubscriber { address, wallet_mode },
    }
}

/// The loop that the subscriber of an address runs.
pub open spec fn client_of(
    address: EpicboxAddress,
    wallet_mode: String,
    wallet_version: String,
    reconnections: u32,
    tor_config: TorConfig,
) -> EpicboxClient<EpicboxPublisher> {
    EpicboxClient::fresh(
        EpicboxController {
            publisher: EpicboxPublisher { address, wallet_mode },
            reconnections,
            tor_config,
        },
        address,
        wallet_mode,
        wallet_version,
    )
}

/// Sets up the two sides of a connection over one fresh broker.
pub(crate) fn set_up(
    container: &Container,
    address: &EpicboxAddress,
    wallet_mode: &String,
    wallet_version: &String,
    reconnections: u32,
    tor_config: TorConfig,
) -> (r: Result<(EpicboxBroker, EpicboxListener, EpicboxClient<EpicboxPublisher>), Error>)
    ensures
        r == Ok::<(EpicboxBroker, EpicboxListener, EpicboxClient<EpicboxPublisher>), Error>(
            (
                EpicboxBroker::fresh(),
                listener_of(*address, *wallet_mode),
                client_of(*address, *wallet_mode, *wallet_version, reconnections, tor_config),
            ),
        ),
{
    let publisher = EpicboxPublisher::new(address.clone(), wallet_mode.clone())?;
    let broker = EpicboxBroker::new()?;
    let subscriber = EpicboxSubscriber::new(&publisher)?;
    let controller = EpicboxController::new(
        container,
        publisher.clone(),
        reconnections,
        tor_config,
    )?;
    let client = subscriber.start(controller, wallet_version.clone());
    Ok((broker, EpicboxListener { address: address.clone(), publisher, subscriber }, client))
}

/// How far the start of a one-shot session has come.
#[derive(Debug, PartialEq, Eq)]
pub enum StartPhase {
    Ready,
    Deriving,
    Connecting { address: EpicboxAddress },
    Done,
}

/// Starting a one-shot session.
#[derive(Debug, PartialEq, Eq)]
pub struct Starting {
    pub wallet_mode: String,
    pub phase: StartPhase,
}

/// The broker and the start of a session after a step.
#[verifier::ext_equal]
pub struct StartNext {
    pub broker: EpicboxBroker,
    pub starting: Starting,
    pub step: StepView<EpicboxListener>,
}

/// The reply says that no connection to the relay could be made, which a one-shot
/// session does not survive.
pub open spec fn fails_to_connect(starting: Starting, reply: Reply) -> bool {
    starting.phase is Connecting && (reply matches Reply::Connected(Err(_)))
}

/// One step of starting a one-shot session: derive the wallet's address, connect to
/// its relay with a read timeout, and run the subscriber's loop beside the session,
/// both on one fresh broker. The outcome is the listener.
pub open spec fn start_next(
    config: EpicboxConfig,
    tor_config: TorConfig,
    wallet_version: String,
    broker: EpicboxBroker,
    starting: Starting,
    reply: Reply,
) -> StartNext {
    let at = |phase: StartPhase, step: StepView<EpicboxListener>|
        StartNext { broker, starting: Starting { phase, ..starting }, step };
    match (starting.phase, reply) {
        (StartPhase::Ready, Reply::Begin) => at(
            StartPhase::Deriving,
            StepView::ask(own_address_query(config)),
        ),
        (StartPhase::Deriving, Reply::Address(Ok(address))) => at(
            StartPhase::Connecting { address },
            StepView::ask(
                EffectView::Connect {
                    url: relay_url_text(config, address),
                    read_timeout_secs: Some(READ_TIMEOUT_SECS),
                },
            ),
        ),
        (StartPhase::Deriving, Reply::Address(Err(e))) => at(
            StartPhase::Done,
            StepView::over(Err(e@)),
        ),
        (StartPhase::Connecting { address }, Reply::Connected(Ok(_))) => StartNext {
            broker: EpicboxBroker::fresh(),
            starting: Starting { phase: StartPhase::Done, ..starting },
            step: StepView {
                effects: seq![
                    EffectView::RunSubscriber(
                        client_of(address, starting.wallet_mode, wallet_version, 0, tor_config),
                    ),
                ],
                done: Some(Ok(listener_of(address, starting.wallet_mode))),
            },
        },
        _ => at(starting.phase, StepView::idle()),
    }
}

impl Starting {
    /// Prepares to start a session that sends.
    pub fn new() -> (r: Self)
        ensures
            r.wallet_mode@ == "send"@,
            r.phase == StartPhase::Ready,
    {
        Starting { wallet_mode: "send".to_string(), phase: StartPhase::Ready }
    }
}

/// Takes the start of a one-shot session one step further. Start it with
/// `Reply::Begin`. Whoever cannot connect fails with `CONNECTION_ERR_MSG` instead of
/// going on.
pub fn start_epicbox(
    container: &Container,
    config: &EpicboxConfig,
    tor_config: TorConfig,
    wallet_version: &String,
    broker: &mut EpicboxBroker,
    starting: &mut Starting,
    reply: Reply,
) -> (step: Step<EpicboxListener>)
    requires
        !fails_to_connect(*old(starting), reply),
    ensures
        start_next(
            *config,
            tor_config,
            *wallet_version,
            *old(broker),
            *old(starting),
            reply,
        ) == (StartNext { broker: *final(broker), starting: *final(starting), step: step@ }),
{
    match &starting.phase {
        StartPhase::Ready => match reply {
            Reply::Begin => {
                starting.phase = StartPhase::Deriving;
                Step::ask(derive_own_address(config))
            },
            _ => Step::idle(),
        },
        StartPhase::Deriving => match reply {
            Reply::Address(Ok(address)) => {
                let url = relay_url(config, &address);
                starting.phase = StartPhase::Connecting { address };
                Step::ask(Effect::Connect { url, read_timeout_secs: Some(READ_TIMEOUT_SECS) })
            },
            Reply::Address(Err(e)) => {
                starting.phase = StartPhase::Done;
                Step::over(Err(e))
            },
            _ => Step::idle(),
        },
        StartPhase::Connecting { address } => match reply {
            Reply::Connected(Ok(_)) => {
                let set = set_up(
                    container,
                    address,
                    &starting.wallet_mode,
                    wallet_version,
                    0,
                    tor_config,
                );
                let (fresh, listener, client) = match set {
                    Ok(session) => session,
                    Err(e) => {
                        return Step::over(Err(e));
                    },
                };
                *broker = fresh;
                starting.phase = StartPhase::Done;
                let mut effects = Vec::new();
                effects.push(Effect::RunSubscriber(client));
                Step::over(Ok(listener)).preceded_by(effects)
            },
            _ => Step::idle(),
        },
        StartPhase::Done => Step::idle(),
    }
}

} // verus!
