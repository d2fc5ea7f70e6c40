use epicbox::broker::{BrokerEvent, CancelPhase, CancelTx, EpicboxBroker, PendingPost, PostPhase, PostSlate};
use epicbox::controller::Publisher;
use epicbox::effect::{Effect, Reply};
use epicbox::error::Error;
use epicbox::listener::EpicboxPublisher;
use epicbox::protocol::{ProtocolRequest, ProtocolRequestV2};
use epicbox::wallet::{EpicboxAddress, Slate};
use uuid::Uuid;

fn text(s: &str) -> String {
    String::from(s)
}

fn address(name: &str) -> EpicboxAddress {
    EpicboxAddress {
        public_key: format!("{}-key", name),
        domain: text("relay.example"),
        port: None,
        stripped: format!("{}@relay.example", name),
        full: format!("epicbox://{}@relay.example", name),
    }
}

fn slate(id: u128) -> Slate {
    Slate {
        id: Uuid::from_u128(id),
        version: 3,
        num_participants: 2,
        participant_data: 1,
        has_inputs: true,
        content: format!("slate {}", id),
    }
}

fn broker() -> EpicboxBroker {
    EpicboxBroker::new().unwrap()
}

fn publisher() -> EpicboxPublisher {
    EpicboxPublisher::new(address("alice"), text("send")).unwrap()
}

/// Takes a post up to the signature of its message.
fn sealed_and_signed(broker: &mut EpicboxBroker, post: &mut PostSlate) {
    let from = address("alice");
    let step = broker.post_slate(post, &from, Reply::Begin);
    assert_eq!(
        step.effects,
        vec![Effect::Seal { slate: slate(7), to: address("bob"), version: 2 }]
    );
    let step = broker.post_slate(post, &from, Reply::Sealed(Ok(text("sealed"))));
    assert_eq!(step.effects, vec![Effect::Sign(text("sealed"))]);
    assert_eq!(step.done, None);
}

#[test]
fn fresh_broker_has_nothing_pending() {
    assert_eq!(
        broker(),
        EpicboxBroker { pending_post: None, subscribed: false, stopping: false }
    );
}

#[test]
fn first_post_goes_out_without_identifier() {
    let mut broker = broker();
    let from = address("alice");
    let id = Uuid::from_u128(7);
    let mut post = PostSlate::new(&slate(7), 2, &address("bob"), false, None);
    sealed_and_signed(&mut broker, &mut post);
    let step = broker.post_slate(&mut post, &from, Reply::Signed(Ok(text("sig"))));
    assert_eq!(
        step.effects,
        vec![Effect::Post(ProtocolRequest::PostSlate {
            from: text("alice@relay.example"),
            to: text("bob@relay.example"),
            str: text("sealed"),
            signature: text("sig"),
            epicboxtxid: None,
            epicboxtxidsig: None,
        })]
    );
    assert_eq!(
        broker.pending_post,
        Some(PendingPost { slate_id: id, epicboxtxid: None })
    );
    let step = broker.post_slate(&mut post, &from, Reply::Sent(Ok(())));
    assert_eq!(step.effects, vec![]);
    assert_eq!(step.done, Some(Ok(())));
    assert!(broker.pending_post.is_some());
}

#[test]
fn known_identifier_is_signed_on_its_own() {
    let mut broker = broker();
    let from = address("alice");
    let id = Uuid::from_u128(7);
    let mut post = PostSlate::new(&slate(7), 2, &address("bob"), false, Some(&text("tx-1")));
    sealed_and_signed(&mut broker, &mut post);
    let step = broker.post_slate(&mut post, &from, Reply::Signed(Ok(text("sig"))));
    assert_eq!(step.effects, vec![Effect::Sign(text("tx-1"))]);
    assert_eq!(broker.pending_post, None);
    let step = broker.post_slate(&mut post, &from, Reply::Signed(Ok(text("txsig"))));
    assert_eq!(
        step.effects,
        vec![Effect::Post(ProtocolRequest::PostSlate {
            from: text("alice@relay.example"),
            to: text("bob@relay.example"),
            str: text("sealed"),
            signature: text("sig"),
            epicboxtxid: Some(text("tx-1")),
            epicboxtxidsig: Some(text("txsig")),
        })]
    );
    assert_eq!(
        broker.pending_post,
        Some(PendingPost { slate_id: id, epicboxtxid: Some(text("tx-1")) })
    );
}

#[test]
fn second_post_is_refused_while_one_is_pending() {
    let mut broker = broker();
    let pending = PendingPost { slate_id: Uuid::from_u128(1), epicboxtxid: None };
    broker.pending_post = Some(pending);
    let mut post = PostSlate::new(&slate(7), 2, &address("bob"), false, None);
    sealed_and_signed(&mut broker, &mut post);
    let step = broker.post_slate(&mut post, &address("alice"), Reply::Signed(Ok(text("sig"))));
    assert_eq!(step.effects, vec![]);
    assert_eq!(
        step.done,
        Some(Err(Error::EpicboxTungstenite(text(
            "Cannot post a second Slate while a relay acknowledgement is pending"
        ))))
    );
    assert_eq!(
        broker.pending_post,
        Some(PendingPost { slate_id: Uuid::from_u128(1), epicboxtxid: None })
    );
}

#[test]
fn failed_send_withdraws_the_pending_post() {
    let mut broker = broker();
    let from = address("alice");
    let mut post = PostSlate::new(&slate(7), 2, &address("bob"), false, None);
    sealed_and_signed(&mut broker, &mut post);
    broker.post_slate(&mut post, &from, Reply::Signed(Ok(text("sig"))));
    let step = broker.post_slate(&mut post, &from, Reply::Sent(Err(text("broken pipe"))));
    assert_eq!(
        step.done,
        Some(Err(Error::EpicboxTungstenite(text(
            "Could not send PostSlate: broken pipe"
        ))))
    );
    assert_eq!(broker.pending_post, None);
    assert_eq!(post.phase, PostPhase::Done);
}

#[test]
fn post_fails_where_sealing_or_signing_fails() {
    let from = address("alice");
    let mut broker = broker();
    let mut post = PostSlate::new(&slate(7), 2, &address("bob"), false, None);
    broker.post_slate(&mut post, &from, Reply::Begin);
    let failure = Err(Error::Wallet(text("no key")));
    let step = broker.post_slate(&mut post, &from, Reply::Sealed(failure));
    assert_eq!(step.done, Some(Err(Error::Wallet(text("no key")))));

    let mut post = PostSlate::new(&slate(7), 2, &address("bob"), false, Some(&text("tx-1")));
    sealed_and_signed(&mut broker, &mut post);
    broker.post_slate(&mut post, &from, Reply::Signed(Ok(text("sig"))));
    let failure = Err(Error::Wallet(text("locked")));
    let step = broker.post_slate(&mut post, &from, Reply::Signed(failure));
    assert_eq!(step.done, Some(Err(Error::Wallet(text("locked")))));
    assert_eq!(broker.pending_post, None);
}

#[test]
fn unawaited_reply_changes_nothing() {
    let mut broker = broker();
    let mut post = PostSlate::new(&slate(7), 2, &address("bob"), false, None);
    let step = broker.post_slate(&mut post, &address("alice"), Reply::Sent(Ok(())));
    assert_eq!(step.effects, vec![]);
    assert_eq!(step.done, None);
    assert_eq!(post.phase, PostPhase::Ready);
}

#[test]
fn publisher_stops_the_subscriber_only_on_request() {
    let publisher = publisher();
    for close_connection in vec![true, false] {
        let mut broker = broker();
        let mut post = PostSlate::new(&slate(7), 2, &address("bob"), close_connection, None);
        publisher.post_slate(&mut broker, &mut post, Reply::Begin);
        publisher.post_slate(&mut broker, &mut post, Reply::Sealed(Ok(text("sealed"))));
        publisher.post_slate(&mut broker, &mut post, Reply::Signed(Ok(text("sig"))));
        assert!(!broker.stopping);
        let step = publisher.post_slate(&mut broker, &mut post, Reply::Sent(Ok(())));
        assert_eq!(step.done, Some(Ok(())));
        assert_eq!(broker.stopping, close_connection);
    }
}

#[test]
fn publisher_does_not_stop_after_a_failed_send() {
    let publisher = publisher();
    let mut broker = broker();
    let mut post = PostSlate::new(&slate(7), 2, &address("bob"), true, None);
    publisher.post_slate(&mut broker, &mut post, Reply::Begin);
    publisher.post_slate(&mut broker, &mut post, Reply::Sealed(Ok(text("sealed"))));
    publisher.post_slate(&mut broker, &mut post, Reply::Signed(Ok(text("sig"))));
    publisher.post_slate(&mut broker, &mut post, Reply::Sent(Err(text("gone"))));
    assert!(!broker.stopping);
}

#[test]
fn cancel_tx_needs_a_subscription() {
    let broker = broker();
    let mut cancel = CancelTx::new(&text("tx-1"));
    let step = broker.post_cancel_tx(&mut cancel, &address("alice"), Reply::Begin);
    assert_eq!(step.effects, vec![]);
    assert_eq!(
        step.done,
        Some(Err(Error::EpicboxTungstenite(text(
            "CancelTx requires an active Epicbox subscription on this connection"
        ))))
    );
    assert_eq!(cancel.phase, CancelPhase::Done);
}

#[test]
fn cancel_tx_signs_and_sends_the_identifier() {
    let publisher = publisher();
    let mut broker = broker();
    broker.subscribed = true;
    let mut cancel = CancelTx::new(&text("tx-1"));
    let step = publisher.cancel_tx(&broker, &mut cancel, Reply::Begin);
    assert_eq!(step.effects, vec![Effect::Sign(text("tx-1"))]);
    let step = publisher.cancel_tx(&broker, &mut cancel, Reply::Signed(Ok(text("sig"))));
    assert_eq!(
        step.effects,
        vec![Effect::Send(ProtocolRequestV2::CancelTx {
            address: text("alice-key"),
            epicboxtxid: text("tx-1"),
            signature: text("sig"),
        })]
    );
    let step = publisher.cancel_tx(&broker, &mut cancel, Reply::Sent(Ok(())));
    assert_eq!(step.done, Some(Ok(())));
}

#[test]
fn cancel_tx_fails_where_signing_or_sending_fails() {
    let mut broker = broker();
    broker.subscribed = true;
    let from = address("alice");
    let mut cancel = CancelTx::new(&text("tx-1"));
    broker.post_cancel_tx(&mut cancel, &from, Reply::Begin);
    let failure = Err(Error::Wallet(text("locked")));
    let step = broker.post_cancel_tx(&mut cancel, &from, Reply::Signed(failure));
    assert_eq!(step.done, Some(Err(Error::Wallet(text("locked")))));

    let mut cancel = CancelTx::new(&text("tx-1"));
    broker.post_cancel_tx(&mut cancel, &from, Reply::Begin);
    broker.post_cancel_tx(&mut cancel, &from, Reply::Signed(Ok(text("sig"))));
    let step = broker.post_cancel_tx(&mut cancel, &from, Reply::Sent(Err(text("gone"))));
    assert_eq!(
        step.done,
        Some(Err(Error::EpicboxTungstenite(text("Could not send CancelTx: gone"))))
    );
}

#[test]
fn events_clone_to_themselves() {
    let ack = BrokerEvent::PostAck { slate_id: Uuid::from_u128(9), epicboxtxid: text("tx-1") };
    assert_eq!(ack.clone(), ack);
    let cancelled = BrokerEvent::Cancelled { epicboxtxid: text("tx-1") };
    assert_eq!(cancelled.clone(), cancelled);
    assert_ne!(BrokerEvent::Made.clone(), BrokerEvent::Subscribed);
}
