use epicbox::broker::{BrokerEvent, EpicboxBroker};
use epicbox::channel::{
    wait_for, CancelSession, EpicboxChannel, EpicboxListenChannel, Listen, ListenPhase, SendSlate,
    WaitPhase, Want,
};
use epicbox::effect::{Effect, Incoming, ReadError, Reply, Step};
use epicbox::error::Error;
use epicbox::listener::{
    relay_url, start_epicbox, stop_epicbox_listener, Container, EpicboxListener, Listener,
    ListenerInterface, Publish, Starting, CONNECTION_ERR_MSG,
};
use epicbox::protocol::{ProtocolRequest, ProtocolRequestV2, ProtocolResponseV2};
use epicbox::text::to_decimal;
use epicbox::wallet::{EpicboxAddress, EpicboxConfig, Slate, TorConfig};
use uuid::Uuid;

fn text(s: &str) -> String {
    String::from(s)
}

fn address(name: &str) -> EpicboxAddress {
    EpicboxAddress {
        public_key: format!("{}-key", name),
        domain: text("relay.example"),
        port: None,
        stripped: format!("{}@relay.example", name),
        full: format!("epicbox://{}@relay.example", name),
    }
}

fn config(domain: &str) -> EpicboxConfig {
    EpicboxConfig {
        epicbox_domain: Some(text(domain)),
        epicbox_port: Some(8443),
        epicbox_protocol_unsecure: None,
    }
}

fn slate(id: u128) -> Slate {
    Slate {
        id: Uuid::from_u128(id),
        version: 3,
        num_participants: 2,
        participant_data: 1,
        has_inputs: true,
        content: format!("slate {}", id),
    }
}

/// A start of a session with what it works on.
struct Start {
    container: Container,
    broker: EpicboxBroker,
    starting: Starting,
}

impl Start {
    fn new() -> Self {
        let mut broker = EpicboxBroker::new().unwrap();
        broker.stopping = true;
        Start {
            container: Container::new(config("relay.example")),
            broker,
            starting: Starting::new(),
        }
    }

    fn step(&mut self, reply: Reply) -> Step<EpicboxListener> {
        start_epicbox(
            &self.container,
            &config("relay.example"),
            TorConfig { use_tor_listener: true },
            &text("4.0.0"),
            &mut self.broker,
            &mut self.starting,
            reply,
        )
    }
}

fn listener() -> EpicboxListener {
    let mut start = Start::new();
    start.step(Reply::Begin);
    start.step(Reply::Address(Ok(address("alice"))));
    start.step(Reply::Connected(Ok(()))).done.unwrap().unwrap()
}

fn ack() -> BrokerEvent {
    BrokerEvent::PostAck { slate_id: Uuid::from_u128(7), epicboxtxid: text("tx-1") }
}

#[test]
fn numbers_are_written_in_decimal() {
    assert_eq!(to_decimal(0), "0");
    assert_eq!(to_decimal(9), "9");
    assert_eq!(to_decimal(10), "10");
    assert_eq!(to_decimal(443), "443");
    assert_eq!(to_decimal(65535), "65535");
    for port in vec![7u16, 80, 443, 8443, 40500] {
        assert_eq!(to_decimal(port).parse::<u16>(), Ok(port));
    }
}

#[test]
fn relay_is_reached_by_scheme_domain_and_port() {
    let mut settings = config("unread");
    let mut own = address("alice");
    assert_eq!(relay_url(&settings, &own), "wss://relay.example:443");
    own.port = Some(8443);
    assert_eq!(relay_url(&settings, &own), "wss://relay.example:8443");
    settings.epicbox_protocol_unsecure = Some(false);
    assert_eq!(relay_url(&settings, &own), "wss://relay.example:8443");
    settings.epicbox_protocol_unsecure = Some(true);
    assert_eq!(relay_url(&settings, &own), "ws://relay.example:8443");
    own.port = None;
    assert_eq!(relay_url(&settings, &own), "ws://relay.example:80");
}

#[test]
fn missing_connection_is_explained() {
    assert_eq!(
        CONNECTION_ERR_MSG,
        "\nCan't connect to the epicbox server!\nCheck your epic-wallet.toml settings and make sure epicbox domain is correct.\n"
    );
}

#[test]
fn one_shot_session_starts_in_sending_mode() {
    let mut start = Start::new();
    let step = start.step(Reply::Begin);
    assert_eq!(
        step.effects,
        vec![Effect::DeriveAddress {
            index: 0,
            domain: Some(text("relay.example")),
            port: Some(8443),
        }]
    );
    let step = start.step(Reply::Address(Ok(address("alice"))));
    assert_eq!(
        step.effects,
        vec![Effect::Connect {
            url: text("wss://relay.example:443"),
            read_timeout_secs: Some(1),
        }]
    );
    let step = start.step(Reply::Connected(Ok(())));
    let listener = step.done.unwrap().unwrap();
    assert_eq!(start.broker, EpicboxBroker::new().unwrap());
    assert_eq!(listener.address, address("alice"));
    assert_eq!(listener.publisher.address, address("alice"));
    assert_eq!(listener.publisher.wallet_mode, "send");
    assert_eq!(listener.subscriber.address, address("alice"));
    match &step.effects[..] {
        [Effect::RunSubscriber(client)] => {
            assert_eq!(client.handler.publisher, listener.publisher);
            assert_eq!(client.wallet_mode, "send");
            assert_eq!(client.wallet_version, "4.0.0");
            assert_eq!(client.handler.reconnections, 0);
            assert!(client.handler.tor_config.use_tor_listener);
            assert!(client.first_run);
            assert_eq!(client.challenge, None);
        }
        other => panic!("{:?}", other),
    }
}

#[test]
fn one_shot_session_needs_an_address() {
    let mut start = Start::new();
    start.step(Reply::Begin);
    let step = start.step(Reply::Address(Err(Error::Wallet(text("no seed")))));
    assert_eq!(step.done, Some(Err(Error::Wallet(text("no seed")))));
}

#[test]
fn listener_knows_its_interface_and_address() {
    let listener = listener();
    assert_eq!(listener.interface(), ListenerInterface::Epicbox);
    assert_eq!(Listener::address(&listener), "alice@relay.example");
    assert_eq!(ListenerInterface::Epicbox.to_string(), "Epicbox");
    let mut broker = EpicboxBroker::new().unwrap();
    listener.stop(&mut broker);
    assert!(broker.stopping);
}

#[test]
fn container_finds_what_was_put_in() {
    let mut container = Container::new(config("relay.example"));
    assert_eq!(container.account, "default");
    assert_eq!(container.config, config("relay.example"));
    assert_eq!(
        container.listener(ListenerInterface::Epicbox),
        Err(Error::NoListener(text("Epicbox")))
    );
    container.insert(ListenerInterface::Epicbox, listener());
    assert_eq!(container.listener(ListenerInterface::Epicbox), Ok(&listener()));
}

#[test]
fn stopped_listener_is_gone() {
    let mut container = Container::new(config("relay.example"));
    let mut broker = EpicboxBroker::new().unwrap();
    assert_eq!(stop_epicbox_listener(&mut container, &mut broker), vec![]);
    assert!(!broker.stopping);
    container.insert(ListenerInterface::Epicbox, listener());
    assert_eq!(
        stop_epicbox_listener(&mut container, &mut broker),
        vec![Effect::CloseSocket, Effect::JoinListener]
    );
    assert!(broker.stopping);
    assert_eq!(
        container.listener(ListenerInterface::Epicbox),
        Err(Error::NoListener(text("Epicbox")))
    );
}

#[test]
fn listener_publishes_to_an_address_in_text() {
    let listener = listener();
    let mut broker = EpicboxBroker::new().unwrap();
    let mut publish = Publish::new(&slate(7), 2, &text("bob"), Some(&text("tx-1")));
    let step = listener.publish(&mut broker, &mut publish, Reply::Begin);
    assert_eq!(step.effects, vec![Effect::ParseAddress(text("bob"))]);
    let step = listener.publish(&mut broker, &mut publish, Reply::Address(Ok(address("bob"))));
    assert_eq!(step.effects, vec![Effect::Seal { slate: slate(7), to: address("bob"), version: 2 }]);
    listener.publish(&mut broker, &mut publish, Reply::Sealed(Ok(text("sealed"))));
    let step = listener.publish(&mut broker, &mut publish, Reply::Signed(Ok(text("sig"))));
    assert_eq!(step.effects, vec![Effect::Sign(text("tx-1"))]);
    listener.publish(&mut broker, &mut publish, Reply::Signed(Ok(text("txsig"))));
    let step = listener.publish(&mut broker, &mut publish, Reply::Sent(Ok(())));
    assert_eq!(step.done, Some(Ok(())));
    assert!(!broker.stopping);

    let mut publish = Publish::new(&slate(7), 2, &text("???"), None);
    listener.publish(&mut broker, &mut publish, Reply::Begin);
    let failure = Reply::Address(Err(Error::Wallet(text("bad address"))));
    let step = listener.publish(&mut broker, &mut publish, failure);
    assert_eq!(step.done, Some(Err(Error::Wallet(text("bad address")))));
}

#[test]
fn wait_ends_with_the_wanted_event() {
    let mut phase = WaitPhase::Ready;
    let want = Want::PostAck;
    assert_eq!(want.wait(&mut phase, Reply::Begin).effects, vec![Effect::Clock]);
    assert_eq!(
        want.wait(&mut phase, Reply::Remaining(9_000)).effects,
        vec![Effect::Receive(9_000)]
    );
    let other = Reply::Event(Some(BrokerEvent::Made));
    assert_eq!(want.wait(&mut phase, other).effects, vec![Effect::Clock]);
    want.wait(&mut phase, Reply::Remaining(5));
    let step = want.wait(&mut phase, Reply::Event(Some(ack())));
    assert_eq!(step.effects, vec![]);
    assert_eq!(step.done, Some(Ok(true)));
}

#[test]
fn wait_takes_any_predicate_and_stops_at_the_first_match() {
    let mut events = vec![BrokerEvent::Subscribed, BrokerEvent::Made, BrokerEvent::Subscribed];
    let want = |event: &BrokerEvent| matches!(event, BrokerEvent::Made);
    let mut phase = WaitPhase::Ready;
    let mut reply = Reply::Begin;
    let done = loop {
        let step = wait_for(want, &mut phase, reply);
        if let Some(done) = step.done {
            break done;
        }
        reply = match &step.effects[..] {
            [Effect::Clock] => Reply::Remaining(1_000),
            [Effect::Receive(1_000)] => Reply::Event(Some(events.remove(0))),
            other => panic!("{:?}", other),
        };
    };
    assert_eq!(done, Ok(true));
    assert_eq!(events, vec![BrokerEvent::Subscribed]);
    let step = wait_for(want, &mut phase, Reply::Event(Some(BrokerEvent::Made)));
    assert_eq!(step.effects, vec![]);
    assert_eq!(step.done, None);
}

#[test]
fn wait_gives_up_without_time_or_events() {
    let want = Want::Subscribed;
    let mut phase = WaitPhase::CheckingClock;
    assert_eq!(want.wait(&mut phase, Reply::Remaining(0)).done, Some(Ok(false)));
    let mut phase = WaitPhase::Receiving;
    assert_eq!(want.wait(&mut phase, Reply::Event(None)).done, Some(Ok(false)));
}

#[test]
fn wanted_cancellation_is_of_the_same_transaction() {
    let want = Want::Cancelled { epicboxtxid: text("tx-1") };
    assert!(want.is_met_by(&BrokerEvent::Cancelled { epicboxtxid: text("tx-1") }));
    assert!(!want.is_met_by(&BrokerEvent::Cancelled { epicboxtxid: text("tx-2") }));
    assert!(!want.is_met_by(&ack()));
    assert!(Want::Subscribed.is_met_by(&BrokerEvent::Subscribed));
    assert!(!Want::Subscribed.is_met_by(&BrokerEvent::Made));
    assert!(Want::Made.is_met_by(&BrokerEvent::Made));
}

/// Deriving the wallet's address for a relay.
fn derives(domain: &str) -> Vec<Effect> {
    vec![Effect::DeriveAddress { index: 0, domain: Some(text(domain)), port: Some(8443) }]
}

/// The effects of a step after the one that runs the subscriber.
fn beside_subscriber(step: &Step<()>) -> &[Effect] {
    match &step.effects[..] {
        [Effect::RunSubscriber(client), rest @ ..] => {
            assert_eq!(client.wallet_mode, "send");
            assert_eq!(client.address, address("alice"));
            rest
        }
        other => panic!("{:?}", other),
    }
}

/// A sending session with what it works on.
struct Sending {
    channel: EpicboxChannel,
    container: Container,
    broker: EpicboxBroker,
    send: SendSlate,
}

impl Sending {
    fn new(epicbox_config: Option<EpicboxConfig>) -> Self {
        Sending {
            channel: EpicboxChannel::new(&text("bob"), epicbox_config).unwrap(),
            container: Container::new(config("elsewhere")),
            broker: EpicboxBroker::new().unwrap(),
            send: SendSlate::new(&slate(7)),
        }
    }

    fn step(&mut self, reply: Reply) -> Step<()> {
        self.channel.send(
            &config("default"),
            TorConfig { use_tor_listener: false },
            &text("4.0.0"),
            &mut self.container,
            &mut self.broker,
            &mut self.send,
            reply,
        )
    }

    /// Takes the session up to the wait for the acknowledgement.
    fn sent() -> Self {
        let mut session = Sending::new(None);
        session.step(Reply::Begin);
        session.step(Reply::Address(Ok(address("alice"))));
        session.step(Reply::Connected(Ok(())));
        session.step(Reply::Address(Ok(address("bob"))));
        session.step(Reply::Sealed(Ok(text("sealed"))));
        session.step(Reply::Signed(Ok(text("sig"))));
        let step = session.step(Reply::Sent(Ok(())));
        assert_eq!(step.effects, vec![Effect::SetDeadline(10), Effect::Clock]);
        assert_eq!(step.done, None);
        session
    }
}

#[test]
fn sending_uses_its_own_settings_or_the_default_ones() {
    let mut session = Sending::new(None);
    let step = session.step(Reply::Begin);
    assert_eq!(step.effects, derives("default"));
    assert_eq!(session.container.config, config("default"));
    let mut session = Sending::new(Some(config("own")));
    let step = session.step(Reply::Begin);
    assert_eq!(step.effects, derives("own"));
    assert_eq!(session.channel.clone(), session.channel);
}

#[test]
fn sent_slate_has_no_identifier_and_awaits_its_acknowledgement() {
    let mut session = Sending::new(None);
    session.step(Reply::Begin);
    session.step(Reply::Address(Ok(address("alice"))));
    let step = session.step(Reply::Connected(Ok(())));
    assert_eq!(*beside_subscriber(&step), [Effect::ParseAddress(text("bob"))]);
    let step = session.step(Reply::Address(Ok(address("bob"))));
    assert_eq!(step.effects, vec![Effect::Seal { slate: slate(7), to: address("bob"), version: 2 }]);
    session.step(Reply::Sealed(Ok(text("sealed"))));
    let step = session.step(Reply::Signed(Ok(text("sig"))));
    assert_eq!(
        step.effects,
        vec![Effect::Post(ProtocolRequest::PostSlate {
            from: text("alice@relay.example"),
            to: text("bob@relay.example"),
            str: text("sealed"),
            signature: text("sig"),
            epicboxtxid: None,
            epicboxtxidsig: None,
        })]
    );
    session.step(Reply::Sent(Ok(())));
    let step = session.step(Reply::Remaining(10));
    assert_eq!(step.effects, vec![Effect::Receive(10)]);
    let step = session.step(Reply::Event(Some(BrokerEvent::Subscribed)));
    assert_eq!(step.effects, vec![Effect::Clock]);
    session.step(Reply::Remaining(5));
    assert!(!session.broker.stopping);
    let step = session.step(Reply::Event(Some(ack())));
    assert_eq!(step.effects, vec![
            Effect::CloseSocket,
            Effect::JoinListener,
            Effect::HandBack { slate: slate(7), version: 2 },
        ]);
    assert_eq!(step.done, Some(Ok(())));
    assert!(session.broker.stopping);
    assert!(session.container.listener(ListenerInterface::Epicbox).is_err());
}

#[test]
fn slate_counts_as_sent_without_an_acknowledgement() {
    let mut session = Sending::sent();
    let step = session.step(Reply::Remaining(0));
    assert_eq!(step.effects, vec![
            Effect::CloseSocket,
            Effect::JoinListener,
            Effect::HandBack { slate: slate(7), version: 2 },
        ]);
    assert_eq!(step.done, Some(Ok(())));
    let mut session = Sending::sent();
    session.step(Reply::Remaining(1));
    let step = session.step(Reply::Event(None));
    assert_eq!(step.done, Some(Ok(())));
}

#[test]
fn sending_fails_where_starting_or_publishing_fails() {
    let mut session = Sending::new(None);
    session.step(Reply::Begin);
    let step = session.step(Reply::Address(Err(Error::Wallet(text("no seed")))));
    assert_eq!(step.effects, vec![]);
    assert_eq!(step.done, Some(Err(Error::Wallet(text("no seed")))));

    let mut session = Sending::new(None);
    session.step(Reply::Begin);
    session.step(Reply::Address(Ok(address("alice"))));
    session.step(Reply::Connected(Ok(())));
    let step = session.step(Reply::Address(Err(Error::Wallet(text("bad address")))));
    assert_eq!(step.effects, vec![Effect::CloseSocket, Effect::JoinListener]);
    assert_eq!(step.done, Some(Err(Error::Wallet(text("bad address")))));
    assert!(session.broker.stopping);
}

#[test]
fn sending_fails_where_its_listener_is_gone() {
    let mut session = Sending::new(None);
    session.step(Reply::Begin);
    session.step(Reply::Address(Ok(address("alice"))));
    session.step(Reply::Connected(Ok(())));
    stop_epicbox_listener(&mut session.container, &mut session.broker);
    let step = session.step(Reply::Address(Ok(address("bob"))));
    assert_eq!(step.done, Some(Err(Error::NoListener(text("Epicbox")))));
}

/// A cancelling session with what it works on.
struct Cancelling {
    channel: EpicboxChannel,
    container: Container,
    broker: EpicboxBroker,
    cancel: CancelSession,
}

impl Cancelling {
    fn started() -> Self {
        let mut session = Cancelling {
            channel: EpicboxChannel::new(&text("unread"), None).unwrap(),
            container: Container::new(config("elsewhere")),
            broker: EpicboxBroker::new().unwrap(),
            cancel: CancelSession::new(&text("tx-1")),
        };
        let step = session.step(Reply::Begin);
        assert_eq!(step.effects, derives("default"));
        session.step(Reply::Address(Ok(address("alice"))));
        let step = session.step(Reply::Connected(Ok(())));
        assert_eq!(*beside_subscriber(&step), [Effect::SetDeadline(10), Effect::Clock]);
        session
    }

    fn requested() -> Self {
        let mut session = Cancelling::started();
        session.step(Reply::Remaining(10));
        session.broker.subscribed = true;
        session.step(Reply::Event(Some(BrokerEvent::Subscribed)));
        session.step(Reply::Signed(Ok(text("sig"))));
        let step = session.step(Reply::Sent(Ok(())));
        assert_eq!(step.effects, vec![Effect::SetDeadline(10), Effect::Clock]);
        session
    }

    fn step(&mut self, reply: Reply) -> Step<()> {
        self.channel.cancel(
            &config("default"),
            TorConfig { use_tor_listener: false },
            &text("4.0.0"),
            &mut self.container,
            &mut self.broker,
            &mut self.cancel,
            reply,
        )
    }
}

#[test]
fn cancelling_asks_the_relay_once_subscribed() {
    let mut session = Cancelling::started();
    let step = session.step(Reply::Remaining(10));
    assert_eq!(step.effects, vec![Effect::Receive(10)]);
    session.broker.subscribed = true;
    let step = session.step(Reply::Event(Some(BrokerEvent::Subscribed)));
    assert_eq!(step.effects, vec![Effect::Sign(text("tx-1"))]);
    let step = session.step(Reply::Signed(Ok(text("sig"))));
    assert_eq!(
        step.effects,
        vec![Effect::Send(ProtocolRequestV2::CancelTx {
            address: text("alice-key"),
            epicboxtxid: text("tx-1"),
            signature: text("sig"),
        })]
    );
}

#[test]
fn cancelling_succeeds_once_confirmed() {
    let mut session = Cancelling::requested();
    session.step(Reply::Remaining(10));
    let other = BrokerEvent::Cancelled { epicboxtxid: text("tx-2") };
    let step = session.step(Reply::Event(Some(other)));
    assert_eq!(step.effects, vec![Effect::Clock]);
    session.step(Reply::Remaining(5));
    let confirmed = BrokerEvent::Cancelled { epicboxtxid: text("tx-1") };
    let step = session.step(Reply::Event(Some(confirmed)));
    assert_eq!(step.effects, vec![Effect::CloseSocket, Effect::JoinListener]);
    assert_eq!(step.done, Some(Ok(())));
    assert!(session.broker.stopping);
}

#[test]
fn cancelling_fails_without_a_subscription() {
    let mut session = Cancelling::started();
    let step = session.step(Reply::Remaining(0));
    assert_eq!(step.effects, vec![Effect::CloseSocket, Effect::JoinListener]);
    assert_eq!(
        step.done,
        Some(Err(Error::EpicboxTungstenite(text(
            "Could not send CancelTx: Epicbox session ended or the subscription did not establish within 10s"
        ))))
    );
}

#[test]
fn cancelling_fails_without_a_confirmation() {
    let mut session = Cancelling::requested();
    session.step(Reply::Remaining(10));
    let step = session.step(Reply::Event(None));
    assert_eq!(step.effects, vec![Effect::CloseSocket, Effect::JoinListener]);
    assert_eq!(
        step.done,
        Some(Err(Error::EpicboxTungstenite(text(
            "No TransactionCancelled response from relay for [tx-1]; local transaction was not confirmed cancelled"
        ))))
    );
}

#[test]
fn cancelling_fails_where_starting_or_requesting_fails() {
    let mut session = Cancelling::started();
    session.step(Reply::Remaining(10));
    session.broker.subscribed = true;
    session.step(Reply::Event(Some(BrokerEvent::Subscribed)));
    session.step(Reply::Signed(Ok(text("sig"))));
    let step = session.step(Reply::Sent(Err(text("gone"))));
    assert_eq!(step.effects, vec![Effect::CloseSocket, Effect::JoinListener]);
    assert_eq!(
        step.done,
        Some(Err(Error::EpicboxTungstenite(text("Could not send CancelTx: gone"))))
    );

    let mut session = Cancelling::started();
    session.cancel = CancelSession::new(&text("tx-1"));
    session.step(Reply::Begin);
    let step = session.step(Reply::Address(Err(Error::Wallet(text("no seed")))));
    assert_eq!(step.done, Some(Err(Error::Wallet(text("no seed")))));
}

/// A listening session with what it works on.
struct Listening {
    channel: EpicboxListenChannel,
    broker: EpicboxBroker,
    reconnections: u32,
    listen: Listen,
}

impl Listening {
    fn new(reconnections: u32) -> Self {
        Listening {
            channel: EpicboxListenChannel::new().unwrap(),
            broker: EpicboxBroker::new().unwrap(),
            reconnections,
            listen: Listen::new(),
        }
    }

    fn step(&mut self, reply: Reply) -> Step<()> {
        self.channel.listen(
            &config("relay.example"),
            TorConfig { use_tor_listener: false },
            &text("4.0.0"),
            &mut self.broker,
            &mut self.reconnections,
            &mut self.listen,
            reply,
        )
    }

    /// Takes the session up to its first read.
    fn reading(reconnections: u32) -> Self {
        let mut session = Listening::new(reconnections);
        session.step(Reply::Begin);
        session.step(Reply::Address(Ok(address("alice"))));
        let step = session.step(Reply::Connected(Ok(())));
        assert_eq!(step.effects, vec![Effect::CheckNode]);
        let step = session.step(Reply::NodeSynced(true));
        assert_eq!(step.effects, vec![Effect::Read]);
        session
    }
}

#[test]
fn listening_connects_to_the_relay_of_its_address() {
    let mut session = Listening::new(0);
    let step = session.step(Reply::Begin);
    assert_eq!(
        step.effects,
        vec![Effect::DeriveAddress {
            index: 0,
            domain: Some(text("relay.example")),
            port: Some(8443),
        }]
    );
    let step = session.step(Reply::Address(Ok(address("alice"))));
    assert_eq!(step.effects, vec![Effect::Connect {
            url: text("wss://relay.example:443"),
            read_timeout_secs: None,
        }]);
}

#[test]
fn failed_connection_counts_as_a_reconnection() {
    let mut session = Listening::new(2);
    session.step(Reply::Begin);
    session.step(Reply::Address(Ok(address("alice"))));
    let step = session.step(Reply::Connected(Err(text("refused"))));
    assert_eq!(step.done, Some(Err(Error::EpicboxTungstenite(text("refused")))));
    assert_eq!(session.reconnections, 3);
    assert_eq!(session.listen.phase, ListenPhase::Done);
}

#[test]
fn listening_needs_an_address() {
    let mut session = Listening::new(2);
    session.step(Reply::Begin);
    let step = session.step(Reply::Address(Err(Error::Wallet(text("no seed")))));
    assert_eq!(step.done, Some(Err(Error::Wallet(text("no seed")))));
    assert_eq!(session.reconnections, 2);
}

#[test]
fn listening_answers_the_relay_in_listener_mode() {
    let mut session = Listening::reading(2);
    let challenge = ProtocolResponseV2::Challenge { str: text("first") };
    let step = session.step(Reply::Read(Ok(Incoming::Text(Some(challenge)))));
    assert_eq!(
        step.effects,
        vec![Effect::Send(ProtocolRequestV2::ClientDetails {
            wallet_version: text("4.0.0"),
            wallet_mode: text("listener"),
            protocol_version: text("3.0.0"),
        })]
    );
    assert_eq!(session.reconnections, 0);
}

#[test]
fn lost_listening_connection_counts_as_a_reconnection() {
    let mut session = Listening::reading(2);
    let step = session.step(Reply::Read(Err(ReadError::Other)));
    assert_eq!(step.done, Some(Err(Error::EpicboxWebsocketAbnormalTermination)));
    assert_eq!(session.reconnections, 3);
}
