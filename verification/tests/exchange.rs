use epicbox::broker::{EpicboxBroker, PendingPost};
use epicbox::controller::{
    onion_order, EpicboxController, IncomingSlate, SlateExchange, SubscriptionHandler,
};
use epicbox::effect::{Effect, FinalizedSlate, Reply};
use epicbox::error::Error;
use epicbox::listener::{Container, EpicboxPublisher};
use epicbox::protocol::ProtocolRequest;
use epicbox::wallet::{EpicboxAddress, EpicboxConfig, Slate, TorConfig};
use uuid::Uuid;

type Controller = EpicboxController<EpicboxPublisher>;

fn text(s: &str) -> String {
    String::from(s)
}

fn address(name: &str) -> EpicboxAddress {
    EpicboxAddress {
        public_key: format!("{}-key", name),
        domain: text("relay.example"),
        port: None,
        stripped: format!("{}@relay.example", name),
        full: format!("epicbox://{}@relay.example", name),
    }
}

fn controller(use_tor_listener: bool) -> Controller {
    let config = EpicboxConfig {
        epicbox_domain: None,
        epicbox_port: None,
        epicbox_protocol_unsecure: None,
    };
    let publisher = EpicboxPublisher::new(address("alice"), text("listener")).unwrap();
    EpicboxController::new(&Container::new(config), publisher, 0, TorConfig { use_tor_listener })
        .unwrap()
}

fn slate(num_participants: usize, participant_data: usize, has_inputs: bool) -> Slate {
    Slate {
        id: Uuid::from_u128(7),
        version: 3,
        num_participants,
        participant_data,
        has_inputs,
        content: format!("{} of {}", participant_data, num_participants),
    }
}

/// The Slate that the wallet gives back as finalized.
fn done() -> Slate {
    Slate { id: Uuid::from_u128(8), content: text("finalized"), ..slate(2, 2, true) }
}

fn finalized(onions: Option<Vec<String>>) -> Reply {
    Reply::Finalized(Ok(FinalizedSlate {
        slate: done(),
        onion_addresses: onions,
    }))
}

fn awaits_mempool() -> Vec<Effect> {
    vec![Effect::WaitForTxInMempool {
        slate_id: Uuid::from_u128(8),
        interval_secs: 1,
        attempts: 240,
    }]
}

/// An incoming Slate that every participant has signed, taken up to its
/// finalization.
fn finalizing(controller: &Controller) -> IncomingSlate {
    let mut incoming = IncomingSlate::new(None, slate(2, 2, true));
    let step = controller.process_incoming_slate(&mut incoming, Reply::Begin);
    assert_eq!(step.effects, vec![Effect::FinalizeTx(slate(2, 2, true))]);
    incoming
}

#[test]
fn new_transaction_is_received() {
    let controller = controller(false);
    let mut incoming = IncomingSlate::new(Some(text("bob")), slate(2, 1, true));
    let step = controller.process_incoming_slate(&mut incoming, Reply::Begin);
    assert_eq!(step.effects, vec![Effect::ReceiveTx { slate: slate(2, 1, true), address: Some(text("bob")) }]);
    let received = slate(2, 2, true);
    let step = controller.process_incoming_slate(&mut incoming, Reply::Received(Ok(received)));
    assert_eq!(step.effects, vec![]);
    assert_eq!(step.done, Some(Ok(false)));
    assert_eq!(incoming.slate, slate(2, 2, true));
}

#[test]
fn refused_transaction_says_why() {
    let controller = controller(false);
    let mut incoming = IncomingSlate::new(None, slate(2, 1, true));
    controller.process_incoming_slate(&mut incoming, Reply::Begin);
    let step = controller.process_incoming_slate(&mut incoming, Reply::Received(Err(text("twice"))));
    assert_eq!(step.done, Some(Err(Error::EpicboxReceiveTx(text("twice")))));
}

#[test]
fn invoice_is_left_as_it_is() {
    let controller = controller(false);
    let mut incoming = IncomingSlate::new(None, slate(2, 1, false));
    let step = controller.process_incoming_slate(&mut incoming, Reply::Begin);
    assert_eq!(step.effects, vec![]);
    assert_eq!(step.done, Some(Ok(false)));
    assert_eq!(incoming.slate, slate(2, 1, false));
}

#[test]
fn finalized_transaction_goes_to_the_node_without_tor() {
    let controller = controller(false);
    let mut incoming = finalizing(&controller);
    let onions = Some(vec![text("a.onion")]);
    let step = controller.process_incoming_slate(&mut incoming, finalized(onions));
    assert_eq!(step.effects, vec![Effect::PostTx { slate: done(), fluff: false }]);
    let step = controller.process_incoming_slate(&mut incoming, Reply::Posted(Ok(())));
    assert_eq!(step.effects, awaits_mempool());
    let step = controller.process_incoming_slate(&mut incoming, Reply::InMempool(Ok(true)));
    assert_eq!(step.effects, vec![Effect::UpdateMempoolStatus(done())]);
    let step = controller.process_incoming_slate(&mut incoming, Reply::MempoolUpdated(Ok(())));
    assert_eq!(step.done, Some(Ok(true)));
}

#[test]
fn finalized_transaction_goes_to_the_node_without_a_known_onion() {
    let controller = controller(true);
    for onions in vec![None, Some(vec![])] {
        let mut incoming = finalizing(&controller);
        let step = controller.process_incoming_slate(&mut incoming, finalized(onions));
        assert_eq!(step.effects, vec![Effect::PostTx { slate: done(), fluff: false }]);
    }
}

#[test]
fn finalized_transaction_goes_to_some_known_onion() {
    let controller = controller(true);
    let onions = vec![text("a.onion"), text("b.onion"), text("c.onion")];
    let mut incoming = finalizing(&controller);
    let step = controller.process_incoming_slate(&mut incoming, finalized(Some(onions.clone())));
    match &step.effects[0] {
        Effect::PostTxTor { slate, url } => {
            assert_eq!(*slate, done());
            assert!(onions.contains(url));
        }
        other => panic!("{:?}", other),
    }
    let step = controller.process_incoming_slate(&mut incoming, Reply::Posted(Ok(())));
    assert_eq!(step.effects, awaits_mempool());
}

#[test]
fn failed_tor_post_falls_back_to_the_node() {
    let controller = controller(true);
    let mut incoming = finalizing(&controller);
    let step = controller.process_incoming_slate(&mut incoming, finalized(Some(vec![text("a.onion")])));
    assert_eq!(step.effects, vec![Effect::PostTxTor { slate: done(), url: text("a.onion") }]);
    let failure = Err(Error::Wallet(text("unreachable")));
    let step = controller.process_incoming_slate(&mut incoming, Reply::Posted(failure));
    assert_eq!(step.effects, vec![Effect::PostTx { slate: done(), fluff: false }]);
    let failure = Err(Error::Wallet(text("rejected")));
    let step = controller.process_incoming_slate(&mut incoming, Reply::Posted(failure));
    assert_eq!(step.done, Some(Err(Error::Wallet(text("rejected")))));
}

#[test]
fn transaction_that_is_not_seen_counts_as_finalized() {
    let controller = controller(false);
    for found in vec![Ok(false), Err(Error::Wallet(text("node down")))] {
        let mut incoming = finalizing(&controller);
        controller.process_incoming_slate(&mut incoming, finalized(None));
        controller.process_incoming_slate(&mut incoming, Reply::Posted(Ok(())));
        let step = controller.process_incoming_slate(&mut incoming, Reply::InMempool(found));
        assert_eq!(step.effects, vec![]);
        assert_eq!(step.done, Some(Ok(true)));
    }
}

#[test]
fn failed_finalization_or_update_is_an_error() {
    let controller = controller(false);
    let mut incoming = finalizing(&controller);
    let failure = Reply::Finalized(Err(Error::Wallet(text("bad sum"))));
    let step = controller.process_incoming_slate(&mut incoming, failure);
    assert_eq!(step.done, Some(Err(Error::Wallet(text("bad sum")))));

    let mut incoming = finalizing(&controller);
    controller.process_incoming_slate(&mut incoming, finalized(None));
    controller.process_incoming_slate(&mut incoming, Reply::Posted(Ok(())));
    controller.process_incoming_slate(&mut incoming, Reply::InMempool(Ok(true)));
    let failure = Reply::MempoolUpdated(Err(Error::Wallet(text("no entry"))));
    let step = controller.process_incoming_slate(&mut incoming, failure);
    assert_eq!(step.done, Some(Err(Error::Wallet(text("no entry")))));
}

#[test]
fn known_order_decides_the_onion() {
    let order = vec![text("b.onion"), text("a.onion")];
    let tor = controller(true);
    let mut incoming = finalizing(&tor);
    let step = tor.post_finalized(&mut incoming, done(), &order);
    assert_eq!(step.effects, vec![Effect::PostTxTor { slate: done(), url: text("b.onion") }]);
    let plain = controller(false);
    let mut incoming = finalizing(&plain);
    let step = plain.post_finalized(&mut incoming, done(), &order);
    assert_eq!(step.effects, vec![Effect::PostTx { slate: done(), fluff: false }]);
}

#[test]
fn shuffling_keeps_the_onions_and_moves_them() {
    let onions: Vec<String> = (0..64).map(|i| format!("{}.onion", i)).collect();
    let mut moved = false;
    for _ in 0..4 {
        let order = onion_order(Some(onions.clone()));
        moved = moved || order != onions;
        let mut sorted = order.clone();
        sorted.sort();
        let mut expected = onions.clone();
        expected.sort();
        assert_eq!(sorted, expected);
    }
    assert!(moved);
    assert_eq!(onion_order(None), Vec::<String>::new());
}

#[test]
fn response_carries_the_stable_identifier() {
    let controller = controller(false);
    let mut broker = EpicboxBroker::new().unwrap();
    let mut exchange = SlateExchange::new(&address("bob"), &slate(2, 1, true), &text("msg-1"));
    let step = controller.on_slate(&mut broker, &mut exchange, Reply::Begin);
    assert_eq!(
        step.effects,
        vec![Effect::ReceiveTx {
            slate: slate(2, 1, true),
            address: Some(text("epicbox://bob@relay.example")),
        }]
    );
    let step = controller.on_slate(&mut broker, &mut exchange, Reply::Received(Ok(slate(2, 2, true))));
    assert_eq!(
        step.effects,
        vec![Effect::StoreTxId { slate_id: Uuid::from_u128(7), candidate: text("msg-1") }]
    );
    let step = controller.on_slate(&mut broker, &mut exchange, Reply::Stored(Ok(text("tx-1"))));
    assert_eq!(step.effects, vec![Effect::Seal { slate: slate(2, 2, true), to: address("bob"), version: 3 }]);
    let step = controller.on_slate(&mut broker, &mut exchange, Reply::Sealed(Ok(text("sealed"))));
    assert_eq!(step.effects, vec![Effect::Sign(text("sealed"))]);
    let step = controller.on_slate(&mut broker, &mut exchange, Reply::Signed(Ok(text("sig"))));
    assert_eq!(step.effects, vec![Effect::Sign(text("tx-1"))]);
    let step = controller.on_slate(&mut broker, &mut exchange, Reply::Signed(Ok(text("txsig"))));
    assert_eq!(
        step.effects,
        vec![Effect::Post(ProtocolRequest::PostSlate {
            from: text("alice@relay.example"),
            to: text("bob@relay.example"),
            str: text("sealed"),
            signature: text("sig"),
            epicboxtxid: Some(text("tx-1")),
            epicboxtxidsig: Some(text("txsig")),
        })]
    );
    assert_eq!(
        broker.pending_post,
        Some(PendingPost { slate_id: Uuid::from_u128(7), epicboxtxid: Some(text("tx-1")) })
    );
    let step = controller.on_slate(&mut broker, &mut exchange, Reply::Sent(Ok(())));
    assert_eq!(step.done, Some(Ok(())));
    assert!(!broker.stopping);
}

#[test]
fn finalized_slate_gets_no_response() {
    let controller = controller(false);
    let mut broker = EpicboxBroker::new().unwrap();
    let mut exchange = SlateExchange::new(&address("bob"), &slate(2, 2, true), &text("tx-1"));
    controller.on_slate(&mut broker, &mut exchange, Reply::Begin);
    controller.on_slate(&mut broker, &mut exchange, finalized(None));
    controller.on_slate(&mut broker, &mut exchange, Reply::Posted(Ok(())));
    let step = controller.on_slate(&mut broker, &mut exchange, Reply::InMempool(Ok(false)));
    assert_eq!(
        step.effects,
        vec![Effect::StoreTxId { slate_id: Uuid::from_u128(7), candidate: text("tx-1") }]
    );
    let step = controller.on_slate(&mut broker, &mut exchange, Reply::Stored(Ok(text("tx-1"))));
    assert_eq!(step.effects, vec![]);
    assert_eq!(step.done, Some(Ok(())));
    assert_eq!(broker.pending_post, None);
}

#[test]
fn failed_processing_or_storing_ends_the_exchange() {
    let controller = controller(false);
    let mut broker = EpicboxBroker::new().unwrap();
    let mut exchange = SlateExchange::new(&address("bob"), &slate(2, 1, true), &text("msg-1"));
    controller.on_slate(&mut broker, &mut exchange, Reply::Begin);
    let step = controller.on_slate(&mut broker, &mut exchange, Reply::Received(Err(text("twice"))));
    assert_eq!(step.done, Some(Err(Error::EpicboxReceiveTx(text("twice")))));

    let mut exchange = SlateExchange::new(&address("bob"), &slate(2, 1, true), &text("msg-1"));
    controller.on_slate(&mut broker, &mut exchange, Reply::Begin);
    controller.on_slate(&mut broker, &mut exchange, Reply::Received(Ok(slate(2, 2, true))));
    let failure = Reply::Stored(Err(Error::Wallet(text("disk full"))));
    let step = controller.on_slate(&mut broker, &mut exchange, failure);
    assert_eq!(step.done, Some(Err(Error::Wallet(text("disk full")))));
    assert_eq!(broker.pending_post, None);
}
