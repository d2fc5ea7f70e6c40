use epicbox::broker::{BrokerEvent, CancelTx, EpicboxBroker, PendingPost, PostSlate};
use epicbox::controller::{EpicboxController, Publisher, SubscriptionHandler};
use epicbox::effect::{
    DecodedSlate, Effect, FinalizedSlate, Incoming, ReadError, Reply, Step,
};
use epicbox::error::{CloseReason, Error};
use epicbox::listener::{Container, EpicboxPublisher, EpicboxSubscriber};
use epicbox::protocol::{
    ProtocolError, ProtocolRequest, ProtocolRequestV2, ProtocolResponseV2,
};
use epicbox::subscribe::{ClientPhase, EpicboxClient};
use epicbox::wallet::{EpicboxAddress, EpicboxConfig, Slate, TorConfig};
use uuid::Uuid;

type Client = EpicboxClient<EpicboxPublisher>;

fn text(s: &str) -> String {
    String::from(s)
}

fn address(name: &str) -> EpicboxAddress {
    EpicboxAddress {
        public_key: format!("{}-key", name),
        domain: text("relay.example"),
        port: None,
        stripped: format!("{}@relay.example", name),
        full: format!("epicbox://{}@relay.example", name),
    }
}

fn controller(mode: &str, reconnections: u32) -> EpicboxController<EpicboxPublisher> {
    let config = EpicboxConfig {
        epicbox_domain: None,
        epicbox_port: None,
        epicbox_protocol_unsecure: None,
    };
    let publisher = EpicboxPublisher::new(address("alice"), text(mode)).unwrap();
    let tor_config = TorConfig { use_tor_listener: false };
    EpicboxController::new(&Container::new(config), publisher, reconnections, tor_config).unwrap()
}

fn client(mode: &str) -> Client {
    let publisher = EpicboxPublisher::new(address("alice"), text(mode)).unwrap();
    let subscriber = EpicboxSubscriber::new(&publisher).unwrap();
    assert_eq!(subscriber.clone(), subscriber);
    subscriber.start(controller(mode, 3), text("4.0.0"))
}

fn broker() -> EpicboxBroker {
    EpicboxBroker::new().unwrap()
}

/// Starts the loop and takes it up to its next read.
fn up_to_read(broker: &mut EpicboxBroker, client: &mut Client) {
    if client.phase == ClientPhase::Ready {
        let step = broker.subscribe(client, Reply::Begin);
        assert_eq!(step.effects, vec![Effect::CheckNode]);
    }
    let step = broker.subscribe(client, Reply::NodeSynced(true));
    assert_eq!(step.effects, vec![Effect::Read]);
    assert_eq!(step.done, None);
}

/// Lets the loop read a response.
fn reads(broker: &mut EpicboxBroker, client: &mut Client, response: ProtocolResponseV2) -> Step<()> {
    up_to_read(broker, client);
    broker.subscribe(client, Reply::Read(Ok(Incoming::Text(Some(response)))))
}

fn challenge(str: &str) -> ProtocolResponseV2 {
    ProtocolResponseV2::Challenge { str: text(str) }
}

fn delivery(epicboxtxid: Option<String>) -> ProtocolResponseV2 {
    ProtocolResponseV2::Slate {
        from: text("bob"),
        str: text("sealed"),
        challenge: text("unread"),
        signature: text("bob-sig"),
        ver: text("3.0.0"),
        epicboxmsgid: text("msg-1"),
        epicboxtxid,
    }
}

fn slate() -> Slate {
    Slate {
        id: Uuid::from_u128(7),
        version: 2,
        num_participants: 2,
        participant_data: 1,
        has_inputs: true,
        content: text("a slate"),
    }
}

fn subscribe_request(signature: &str) -> Effect {
    Effect::Send(ProtocolRequestV2::Subscribe {
        address: text("alice-key"),
        ver: text("3.0.0"),
        signature: text(signature),
    })
}

/// Takes a new loop through its first challenge.
fn subscribed(mode: &str) -> (EpicboxBroker, Client) {
    let mut broker = broker();
    let mut client = client(mode);
    reads(&mut broker, &mut client, challenge("first"));
    broker.subscribe(&mut client, Reply::Sent(Ok(())));
    broker.subscribe(&mut client, Reply::Signed(Ok(text("first-sig"))));
    let step = broker.subscribe(&mut client, Reply::Sent(Ok(())));
    assert_eq!(
        step.effects,
        vec![Effect::Emit(BrokerEvent::Subscribed), Effect::CheckNode]
    );
    assert!(broker.subscribed);
    (broker, client)
}

#[test]
fn loop_pauses_while_the_node_is_not_synced() {
    let mut broker = broker();
    let mut client = client("listener");
    broker.subscribe(&mut client, Reply::Begin);
    let step = broker.subscribe(&mut client, Reply::NodeSynced(false));
    assert_eq!(step.effects, vec![Effect::Sleep(5), Effect::CheckNode]);
    let step = broker.subscribe(&mut client, Reply::NodeSynced(true));
    assert_eq!(step.effects, vec![Effect::Read]);
}

#[test]
fn first_challenge_is_answered_with_details_and_subscription() {
    let mut broker = broker();
    let mut client = client("listener");
    let step = reads(&mut broker, &mut client, challenge("first"));
    assert_eq!(
        step.effects,
        vec![Effect::Send(ProtocolRequestV2::ClientDetails {
            wallet_version: text("4.0.0"),
            wallet_mode: text("listener"),
            protocol_version: text("3.0.0"),
        })]
    );
    assert_eq!(client.handler.reconnections, 0);
    let step = broker.subscribe(&mut client, Reply::Sent(Ok(())));
    assert_eq!(step.effects, vec![Effect::Sign(text("first"))]);
    let step = broker.subscribe(&mut client, Reply::Signed(Ok(text("first-sig"))));
    assert_eq!(step.effects, vec![subscribe_request("first-sig")]);
    assert!(!broker.subscribed);
    let step = broker.subscribe(&mut client, Reply::Sent(Ok(())));
    assert_eq!(
        step.effects,
        vec![Effect::Emit(BrokerEvent::Subscribed), Effect::CheckNode]
    );
    assert!(broker.subscribed);
}

#[test]
fn later_challenge_is_answered_without_details() {
    let (mut broker, mut client) = subscribed("listener");
    let step = reads(&mut broker, &mut client, challenge("second"));
    assert_eq!(step.effects, vec![Effect::Sign(text("second"))]);
    assert_eq!(client.challenge, Some(text("second")));
}

#[test]
fn unsent_details_end_the_loop() {
    let mut broker = broker();
    let mut client = client("listener");
    reads(&mut broker, &mut client, challenge("first"));
    let step = broker.subscribe(&mut client, Reply::Sent(Err(text("gone"))));
    assert_eq!(step.effects, vec![]);
    assert_eq!(
        step.done,
        Some(Err(Error::EpicboxTungstenite(text(
            "Could not send 'ClientDetails' request! gone"
        ))))
    );
    assert_eq!(client.phase, ClientPhase::Ended);
    let step = broker.subscribe(&mut client, Reply::NodeSynced(true));
    assert_eq!(step.effects, vec![]);
    assert_eq!(step.done, None);
}

#[test]
fn failed_signature_of_a_challenge_ends_the_loop() {
    let (mut broker, mut client) = subscribed("listener");
    reads(&mut broker, &mut client, challenge("second"));
    let failure = Err(Error::Wallet(text("locked")));
    let step = broker.subscribe(&mut client, Reply::Signed(failure));
    assert_eq!(step.done, Some(Err(Error::Wallet(text("locked")))));
}

#[test]
fn unsent_subscription_is_not_told() {
    let mut broker = broker();
    let mut client = client("listener");
    reads(&mut broker, &mut client, challenge("first"));
    broker.subscribe(&mut client, Reply::Sent(Ok(())));
    broker.subscribe(&mut client, Reply::Signed(Ok(text("first-sig"))));
    let step = broker.subscribe(&mut client, Reply::Sent(Err(text("gone"))));
    assert_eq!(step.effects, reports(Error::EpicboxTungstenite(text("gone"))));
    assert_eq!(step.done, None);
    assert!(!broker.subscribed);
}

#[test]
fn handled_slate_is_acknowledged_by_its_message() {
    let (mut broker, mut client) = subscribed("listener");
    let step = reads(&mut broker, &mut client, delivery(Some(text("tx-1"))));
    assert_eq!(
        step.effects,
        vec![Effect::Decode {
            from: text("bob"),
            str: text("sealed"),
            signature: text("bob-sig"),
        }]
    );
    let decoded = DecodedSlate { from: address("bob"), slate: slate() };
    let step = broker.subscribe(&mut client, Reply::Decoded(Ok(decoded)));
    assert_eq!(
        step.effects,
        vec![Effect::ReceiveTx {
            slate: slate(),
            address: Some(text("epicbox://bob@relay.example")),
        }]
    );
    let received = || Slate { participant_data: 2, content: text("received"), ..slate() };
    let step = broker.subscribe(&mut client, Reply::Received(Ok(received())));
    assert_eq!(
        step.effects,
        vec![Effect::StoreTxId { slate_id: Uuid::from_u128(7), candidate: text("tx-1") }]
    );
    let step = broker.subscribe(&mut client, Reply::Stored(Ok(text("stable"))));
    assert_eq!(
        step.effects,
        vec![Effect::Seal { slate: received(), to: address("bob"), version: 2 }]
    );
    broker.subscribe(&mut client, Reply::Sealed(Ok(text("resealed"))));
    broker.subscribe(&mut client, Reply::Signed(Ok(text("sig"))));
    let step = broker.subscribe(&mut client, Reply::Signed(Ok(text("txsig"))));
    assert_eq!(
        step.effects,
        vec![Effect::Post(ProtocolRequest::PostSlate {
            from: text("alice@relay.example"),
            to: text("bob@relay.example"),
            str: text("resealed"),
            signature: text("sig"),
            epicboxtxid: Some(text("stable")),
            epicboxtxidsig: Some(text("txsig")),
        })]
    );
    let step = broker.subscribe(&mut client, Reply::Sent(Ok(())));
    assert_eq!(step.effects, vec![Effect::Sign(text("first"))]);
    let step = broker.subscribe(&mut client, Reply::Signed(Ok(text("again-sig"))));
    assert_eq!(step.effects, vec![subscribe_request("again-sig")]);
    let step = broker.subscribe(&mut client, Reply::Sent(Ok(())));
    assert_eq!(step.effects, vec![Effect::Sign(text("msg-1"))]);
    let step = broker.subscribe(&mut client, Reply::Signed(Ok(text("made-sig"))));
    assert_eq!(
        step.effects,
        vec![Effect::Send(ProtocolRequestV2::Made {
            address: text("alice-key"),
            signature: text("made-sig"),
            ver: text("3.0.0"),
            epicboxmsgid: text("msg-1"),
        })]
    );
    let step = broker.subscribe(&mut client, Reply::Sent(Ok(())));
    assert_eq!(
        step.effects,
        vec![Effect::Emit(BrokerEvent::Made), Effect::CheckNode]
    );
}

#[test]
fn older_relay_lends_its_message_identifier() {
    let (mut broker, mut client) = subscribed("listener");
    reads(&mut broker, &mut client, delivery(None));
    let decoded = DecodedSlate { from: address("bob"), slate: slate() };
    broker.subscribe(&mut client, Reply::Decoded(Ok(decoded)));
    let step = broker.subscribe(&mut client, Reply::Received(Ok(slate())));
    assert_eq!(
        step.effects,
        vec![Effect::StoreTxId { slate_id: Uuid::from_u128(7), candidate: text("msg-1") }]
    );
}

/// Lets the loop handle a delivered Slate that every participant has signed.
fn handles(broker: &mut EpicboxBroker, client: &mut Client) -> Step<()> {
    reads(broker, client, delivery(None));
    let complete = || Slate { participant_data: 2, ..slate() };
    let decoded = DecodedSlate { from: address("bob"), slate: complete() };
    let step = broker.subscribe(client, Reply::Decoded(Ok(decoded)));
    assert_eq!(step.effects, vec![Effect::FinalizeTx(complete())]);
    let finalized = FinalizedSlate { slate: complete(), onion_addresses: None };
    broker.subscribe(client, Reply::Finalized(Ok(finalized)));
    broker.subscribe(client, Reply::Posted(Ok(())));
    broker.subscribe(client, Reply::InMempool(Ok(false)));
    broker.subscribe(client, Reply::Stored(Ok(text("stable"))))
}

/// The steps where a failure is reported and the loop goes on.
fn reports(error: Error) -> Vec<Effect> {
    vec![Effect::Report(error), Effect::CheckNode]
}

#[test]
fn failed_slate_is_not_acknowledged() {
    let (mut broker, mut client) = subscribed("listener");
    reads(&mut broker, &mut client, delivery(None));
    let failure = Err(Error::Wallet(text("bad proof")));
    let step = broker.subscribe(&mut client, Reply::Decoded(failure));
    assert_eq!(step.effects, reports(Error::Wallet(text("bad proof"))));

    reads(&mut broker, &mut client, delivery(None));
    let decoded = DecodedSlate { from: address("bob"), slate: slate() };
    broker.subscribe(&mut client, Reply::Decoded(Ok(decoded)));
    let step = broker.subscribe(&mut client, Reply::Received(Err(text("refused"))));
    assert_eq!(step.effects, reports(Error::EpicboxReceiveTx(text("refused"))));
    assert_eq!(step.done, None);

    reads(&mut broker, &mut client, delivery(None));
    let decoded = DecodedSlate { from: address("bob"), slate: slate() };
    broker.subscribe(&mut client, Reply::Decoded(Ok(decoded)));
    broker.subscribe(&mut client, Reply::Received(Ok(slate())));
    let failure = Err(Error::Wallet(text("disk full")));
    let step = broker.subscribe(&mut client, Reply::Stored(failure));
    assert_eq!(step.effects, reports(Error::Wallet(text("disk full"))));
}

#[test]
fn slate_before_any_challenge_is_not_acknowledged() {
    let mut broker = broker();
    let mut client = client("listener");
    let step = handles(&mut broker, &mut client);
    assert_eq!(step.effects, vec![Effect::CheckNode]);
}

#[test]
fn unsent_renewal_or_made_leaves_the_slate_unacknowledged() {
    let (mut broker, mut client) = subscribed("listener");
    let step = handles(&mut broker, &mut client);
    assert_eq!(step.effects, vec![Effect::Sign(text("first"))]);
    broker.subscribe(&mut client, Reply::Signed(Ok(text("sig"))));
    let step = broker.subscribe(&mut client, Reply::Sent(Err(text("gone"))));
    assert_eq!(step.effects, reports(Error::EpicboxTungstenite(text("gone"))));

    handles(&mut broker, &mut client);
    broker.subscribe(&mut client, Reply::Signed(Ok(text("sig"))));
    broker.subscribe(&mut client, Reply::Sent(Ok(())));
    let failure = Err(Error::Wallet(text("locked")));
    let step = broker.subscribe(&mut client, Reply::Signed(failure));
    assert_eq!(step.effects, reports(Error::Wallet(text("locked"))));
    assert_eq!(step.done, None);

    handles(&mut broker, &mut client);
    broker.subscribe(&mut client, Reply::Signed(Ok(text("sig"))));
    broker.subscribe(&mut client, Reply::Sent(Ok(())));
    broker.subscribe(&mut client, Reply::Signed(Ok(text("made-sig"))));
    let step = broker.subscribe(&mut client, Reply::Sent(Err(text("gone"))));
    assert_eq!(
        step.effects,
        reports(Error::EpicboxTungstenite(text("Could not send 'Made' request! gone")))
    );
}

#[test]
fn cancellation_is_told_after_the_wallet_was_asked() {
    let (mut broker, mut client) = subscribed("listener");
    let cancelled = ProtocolResponseV2::TransactionCancelled { epicboxtxid: text("tx-1") };
    let step = reads(&mut broker, &mut client, cancelled);
    assert_eq!(
        step.effects,
        vec![Effect::CancelLocally { epicboxtxid: text("tx-1"), slate_id: None }]
    );
    let failure = Err(Error::Wallet(text("already finalized")));
    let step = broker.subscribe(&mut client, Reply::CancelledLocally(failure));
    assert_eq!(
        step.effects,
        vec![
            Effect::Report(Error::Wallet(text("already finalized"))),
            Effect::Emit(BrokerEvent::Cancelled { epicboxtxid: text("tx-1") }),
            Effect::Sign(text("first")),
        ]
    );
    let step = broker.subscribe(&mut client, Reply::Signed(Ok(text("sig"))));
    assert_eq!(step.effects, vec![subscribe_request("sig")]);
    let step = broker.subscribe(&mut client, Reply::Sent(Ok(())));
    assert_eq!(step.effects, vec![Effect::CheckNode]);
}

#[test]
fn sending_session_does_not_renew_after_a_cancellation() {
    let (mut broker, mut client) = subscribed("send");
    let cancelled = ProtocolResponseV2::TransactionCancelled { epicboxtxid: text("tx-1") };
    reads(&mut broker, &mut client, cancelled);
    let step = broker.subscribe(&mut client, Reply::CancelledLocally(Ok(())));
    assert_eq!(
        step.effects,
        vec![
            Effect::Emit(BrokerEvent::Cancelled { epicboxtxid: text("tx-1") }),
            Effect::CheckNode,
        ]
    );
}

#[test]
fn unchallenged_session_does_not_renew_after_a_cancellation() {
    let mut broker = broker();
    let mut client = client("listener");
    let cancelled = ProtocolResponseV2::TransactionCancelled { epicboxtxid: text("tx-1") };
    reads(&mut broker, &mut client, cancelled);
    let step = broker.subscribe(&mut client, Reply::CancelledLocally(Ok(())));
    assert_eq!(
        step.effects,
        vec![
            Effect::Emit(BrokerEvent::Cancelled { epicboxtxid: text("tx-1") }),
            Effect::CheckNode,
        ]
    );
}

/// The identifier that is stored for an acknowledged post.
fn acknowledged(carried: Option<&str>, epicboxtxid: Option<&str>, epicboxmsgid: Option<&str>) -> Vec<Effect> {
    let (mut broker, mut client) = subscribed("send");
    broker.pending_post = Some(PendingPost {
        slate_id: Uuid::from_u128(7),
        epicboxtxid: carried.map(text),
    });
    let ok = ProtocolResponseV2::Okay {
        epicboxmsgid: epicboxmsgid.map(text),
        epicboxtxid: epicboxtxid.map(text),
    };
    let step = reads(&mut broker, &mut client, ok);
    assert_eq!(broker.pending_post, None);
    step.effects
}

fn stores(candidate: &str) -> Vec<Effect> {
    vec![Effect::StoreTxId { slate_id: Uuid::from_u128(7), candidate: text(candidate) }]
}

#[test]
fn acknowledgement_prefers_the_known_identifier() {
    assert_eq!(acknowledged(Some("known"), Some("tx-1"), Some("msg-1")), stores("known"));
    assert_eq!(acknowledged(Some("known"), None, Some("msg-1")), stores("known"));
    assert_eq!(acknowledged(None, Some("tx-1"), Some("msg-1")), stores("tx-1"));
    assert_eq!(acknowledged(None, Some("tx-1"), None), stores("tx-1"));
    assert_eq!(acknowledged(None, None, Some("msg-1")), stores("msg-1"));
}

#[test]
fn acknowledgement_is_told_with_the_stored_identifier() {
    let (mut broker, mut client) = subscribed("send");
    let pending = || PendingPost { slate_id: Uuid::from_u128(7), epicboxtxid: None };
    let ok = || ProtocolResponseV2::Okay { epicboxmsgid: None, epicboxtxid: Some(text("tx-1")) };
    broker.pending_post = Some(pending());
    reads(&mut broker, &mut client, ok());
    let step = broker.subscribe(&mut client, Reply::Stored(Ok(text("older"))));
    assert_eq!(
        step.effects,
        vec![
            Effect::Emit(BrokerEvent::PostAck {
                slate_id: Uuid::from_u128(7),
                epicboxtxid: text("older"),
            }),
            Effect::CheckNode,
        ]
    );

    broker.pending_post = Some(pending());
    reads(&mut broker, &mut client, ok());
    let failure = Err(Error::Wallet(text("disk full")));
    let step = broker.subscribe(&mut client, Reply::Stored(failure));
    assert_eq!(step.effects, reports(Error::Wallet(text("disk full"))));
}

#[test]
fn plain_ok_keeps_the_pending_post() {
    let (mut broker, mut client) = subscribed("send");
    broker.pending_post = Some(PendingPost { slate_id: Uuid::from_u128(7), epicboxtxid: None });
    let ok = ProtocolResponseV2::Okay { epicboxmsgid: None, epicboxtxid: None };
    let step = reads(&mut broker, &mut client, ok);
    assert_eq!(step.effects, vec![Effect::CheckNode]);
    assert_eq!(
        broker.pending_post,
        Some(PendingPost { slate_id: Uuid::from_u128(7), epicboxtxid: None })
    );
}

#[test]
fn ok_with_nothing_pending_is_passed_over() {
    let (mut broker, mut client) = subscribed("send");
    let ok = ProtocolResponseV2::Okay {
        epicboxmsgid: Some(text("msg-1")),
        epicboxtxid: Some(text("tx-1")),
    };
    let step = reads(&mut broker, &mut client, ok);
    assert_eq!(step.effects, vec![Effect::CheckNode]);
}

#[test]
fn other_responses_and_frames_are_passed_over() {
    let (mut broker, mut client) = subscribed("listener");
    let version = ProtocolResponseV2::GetVersion { str: text("3.0.0") };
    assert_eq!(reads(&mut broker, &mut client, version).effects, vec![Effect::CheckNode]);
    let error = ProtocolResponseV2::Error {
        kind: ProtocolError::InvalidRequest,
        description: text("unread"),
    };
    assert_eq!(reads(&mut broker, &mut client, error).effects, vec![Effect::CheckNode]);
    for incoming in vec![
        Incoming::Text(None),
        Incoming::Binary(None),
        Incoming::Ping,
        Incoming::Pong,
        Incoming::Frame,
    ] {
        up_to_read(&mut broker, &mut client);
        let step = broker.subscribe(&mut client, Reply::Read(Ok(incoming)));
        assert_eq!(step.effects, vec![Effect::CheckNode]);
        assert_eq!(step.done, None);
    }
}

#[test]
fn binary_responses_count_like_text() {
    let mut broker = broker();
    let mut client = client("listener");
    up_to_read(&mut broker, &mut client);
    let read = Reply::Read(Ok(Incoming::Binary(Some(challenge("first")))));
    broker.subscribe(&mut client, read);
    assert_eq!(client.challenge, Some(text("first")));
    assert_eq!(client.handler.reconnections, 0);
}

#[test]
fn unreadable_text_does_not_reset_the_count() {
    let mut broker = broker();
    let mut client = client("listener");
    up_to_read(&mut broker, &mut client);
    broker.subscribe(&mut client, Reply::Read(Ok(Incoming::Text(None))));
    assert_eq!(client.handler.reconnections, 3);
}

#[test]
fn quiet_read_goes_on() {
    for quiet in vec![ReadError::WouldBlock, ReadError::TimedOut] {
        let mut broker = broker();
        let mut client = client("listener");
        up_to_read(&mut broker, &mut client);
        let step = broker.subscribe(&mut client, Reply::Read(Err(quiet)));
        assert_eq!(step.effects, vec![Effect::CheckNode]);
        assert_eq!(client.handler.reconnections, 3);
    }
}

#[test]
fn lost_connection_ends_the_loop_abnormally() {
    let mut broker = broker();
    let mut client = client("listener");
    up_to_read(&mut broker, &mut client);
    let step = broker.subscribe(&mut client, Reply::Read(Err(ReadError::Other)));
    assert_eq!(
        step.effects,
        vec![
            Effect::OnClose(CloseReason::Abnormal(Error::EpicboxWebsocketAbnormalTermination)),
            Effect::CloseSocket,
        ]
    );
    assert_eq!(step.done, Some(Err(Error::EpicboxWebsocketAbnormalTermination)));
    assert_eq!(client.handler.reconnections, 4);
}

#[test]
fn closed_connection_ends_the_loop_normally() {
    let mut broker = broker();
    let mut client = client("listener");
    up_to_read(&mut broker, &mut client);
    let step = broker.subscribe(&mut client, Reply::Read(Ok(Incoming::Close)));
    assert_eq!(
        step.effects,
        vec![Effect::OnClose(CloseReason::Normal), Effect::CloseSocket]
    );
    assert_eq!(step.done, Some(Ok(())));
    assert_eq!(client.handler.reconnections, 3);
}

#[test]
fn stopped_loop_ends_whatever_was_read() {
    let mut broker = broker();
    let mut client = client("listener");
    up_to_read(&mut broker, &mut client);
    broker.stop();
    let step = broker.subscribe(&mut client, Reply::Read(Err(ReadError::Other)));
    assert_eq!(step.effects, vec![Effect::OnClose(CloseReason::Normal)]);
    assert_eq!(step.done, Some(Ok(())));
    assert_eq!(client.handler.reconnections, 3);
}

#[test]
fn handler_names_what_it_wants_done() {
    let handler = controller("listener", 0);
    let id = Uuid::from_u128(7);
    assert_eq!(
        handler.on_post_slate_ack(&id, &text("tx-1")),
        Effect::StoreTxId { slate_id: id, candidate: text("tx-1") }
    );
    assert_eq!(
        handler.on_tx_cancelled(&text("tx-1")),
        Effect::CancelLocally { epicboxtxid: text("tx-1"), slate_id: None }
    );
    assert_eq!(
        handler.process_tx_cancelled(&text("tx-2")),
        Effect::CancelLocally { epicboxtxid: text("tx-2"), slate_id: None }
    );
    assert_eq!(
        handler.on_close(CloseReason::Normal),
        Effect::OnClose(CloseReason::Normal)
    );
}

#[test]
fn publisher_and_subscriber_share_one_broker() {
    let publisher = EpicboxPublisher::new(address("alice"), text("send")).unwrap();
    let (mut broker, mut client) = subscribed("send");

    // The loop's subscription lets the publisher's CancelTx pass.
    let mut cancel = CancelTx::new(&text("tx-1"));
    let step = publisher.cancel_tx(&broker, &mut cancel, Reply::Begin);
    assert_eq!(step.effects, vec![Effect::Sign(text("tx-1"))]);

    // The publisher's post is pending for the loop, once.
    let mut post = PostSlate::new(&slate(), 2, &address("bob"), false, None);
    publisher.post_slate(&mut broker, &mut post, Reply::Begin);
    publisher.post_slate(&mut broker, &mut post, Reply::Sealed(Ok(text("sealed"))));
    publisher.post_slate(&mut broker, &mut post, Reply::Signed(Ok(text("sig"))));
    publisher.post_slate(&mut broker, &mut post, Reply::Sent(Ok(())));
    let ok = || ProtocolResponseV2::Okay { epicboxmsgid: None, epicboxtxid: Some(text("tx-1")) };
    let step = reads(&mut broker, &mut client, ok());
    assert_eq!(
        step.effects,
        vec![Effect::StoreTxId { slate_id: Uuid::from_u128(7), candidate: text("tx-1") }]
    );
    broker.subscribe(&mut client, Reply::Stored(Ok(text("tx-1"))));
    let step = reads(&mut broker, &mut client, ok());
    assert_eq!(step.effects, vec![Effect::CheckNode]);

    // Stopping the subscriber stops the broker of both.
    let subscriber = EpicboxSubscriber::new(&publisher).unwrap();
    subscriber.stop(&mut broker);
    up_to_read(&mut broker, &mut client);
    let step = broker.subscribe(&mut client, Reply::Read(Err(ReadError::TimedOut)));
    assert_eq!(step.done, Some(Ok(())));
}

#[test]
fn acknowledgement_and_response_carry_the_identifier_that_the_wallet_keeps() {
    let (mut broker, mut client) = subscribed("listener");
    broker.pending_post = Some(PendingPost { slate_id: Uuid::from_u128(7), epicboxtxid: None });
    let ok = ProtocolResponseV2::Okay { epicboxmsgid: None, epicboxtxid: Some(text("first")) };
    let step = reads(&mut broker, &mut client, ok);
    assert_eq!(step.effects, stores("first"));
    let step = broker.subscribe(&mut client, Reply::Stored(Ok(text("first"))));
    assert_eq!(
        step.effects[0],
        Effect::Emit(BrokerEvent::PostAck {
            slate_id: Uuid::from_u128(7),
            epicboxtxid: text("first"),
        })
    );

    // The same Slate is delivered under another identifier; the wallet keeps the first.
    reads(&mut broker, &mut client, delivery(Some(text("second"))));
    let decoded = DecodedSlate { from: address("bob"), slate: slate() };
    broker.subscribe(&mut client, Reply::Decoded(Ok(decoded)));
    let step = broker.subscribe(&mut client, Reply::Received(Ok(slate())));
    assert_eq!(step.effects, stores("second"));
    broker.subscribe(&mut client, Reply::Stored(Ok(text("first"))));
    broker.subscribe(&mut client, Reply::Sealed(Ok(text("sealed"))));
    broker.subscribe(&mut client, Reply::Signed(Ok(text("sig"))));
    let step = broker.subscribe(&mut client, Reply::Signed(Ok(text("txsig"))));
    match &step.effects[..] {
        [Effect::Post(ProtocolRequest::PostSlate { epicboxtxid, .. })] => {
            assert_eq!(*epicboxtxid, Some(text("first")));
        }
        other => panic!("{:?}", other),
    }
}
