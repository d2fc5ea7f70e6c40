use epicbox::protocol::{
    ProtocolError, ProtocolRequest, ProtocolRequestV2, ProtocolResponse, ProtocolResponseV2,
};

fn text(s: &str) -> String {
    String::from(s)
}

fn some(s: &str) -> Option<String> {
    Some(String::from(s))
}

#[test]
fn errors_are_described() {
    assert_eq!(ProtocolError::UnknownError.to_string(), "unknown error!");
    assert_eq!(ProtocolError::InvalidRequest.to_string(), "invalid request!");
    assert_eq!(ProtocolError::InvalidSignature.to_string(), "invalid signature!");
    assert_eq!(ProtocolError::InvalidChallenge.to_string(), "invalid challenge!");
    assert_eq!(
        ProtocolError::TooManySubscriptions.to_string(),
        "too many subscriptions!"
    );
}

#[test]
fn requests_are_described() {
    assert_eq!(ProtocolRequest::Challenge.to_string(), "Challenge");
    assert_eq!(
        ProtocolRequest::Subscribe {
            address: text("alice"),
            signature: text("ff"),
        }
        .to_string(),
        "Subscribe to alice"
    );
    assert_eq!(
        ProtocolRequest::Unsubscribe { address: text("alice") }.to_string(),
        "Unsubscribe from alice"
    );
}

#[test]
fn first_post_names_no_transaction() {
    let request = ProtocolRequest::PostSlate {
        from: text("alice"),
        to: text("bob"),
        str: text("sealed"),
        signature: text("ff"),
        epicboxtxid: None,
        epicboxtxidsig: None,
    };
    assert_eq!(request.to_string(), "PostSlate from alice to bob");
}

#[test]
fn later_post_names_its_transaction() {
    let request = ProtocolRequest::PostSlate {
        from: text("alice"),
        to: text("bob"),
        str: text("sealed"),
        signature: text("ff"),
        epicboxtxid: some("tx-1"),
        epicboxtxidsig: some("ee"),
    };
    assert_eq!(
        request.to_string(),
        "PostSlate from alice to bob for epicboxtxid tx-1"
    );
}

#[test]
fn second_version_requests_are_described() {
    assert_eq!(ProtocolRequestV2::Challenge.to_string(), "Challenge");
    assert_eq!(
        ProtocolRequestV2::Subscribe {
            address: text("alice"),
            ver: text("3.0.0"),
            signature: text("ff"),
        }
        .to_string(),
        "Subscribe to alice"
    );
    assert_eq!(
        ProtocolRequestV2::PostSlate {
            from: text("alice"),
            to: text("bob"),
            str: text("sealed"),
            signature: text("ff"),
            epicboxtxid: None,
            epicboxtxidsig: None,
        }
        .to_string(),
        "PostSlate from alice to bob"
    );
    assert_eq!(
        ProtocolRequestV2::PostSlate {
            from: text("alice"),
            to: text("bob"),
            str: text("sealed"),
            signature: text("ff"),
            epicboxtxid: some("tx-1"),
            epicboxtxidsig: None,
        }
        .to_string(),
        "PostSlate from alice to bob for epicboxtxid tx-1"
    );
    assert_eq!(
        ProtocolRequestV2::Unsubscribe { address: text("alice") }.to_string(),
        "Unsubscribe from alice"
    );
    assert_eq!(
        ProtocolRequestV2::Made {
            address: text("alice"),
            signature: text("ff"),
            ver: text("3.0.0"),
            epicboxmsgid: text("msg-1"),
        }
        .to_string(),
        "Made for epicboxmsgid msg-1"
    );
    assert_eq!(
        ProtocolRequestV2::ClientDetails {
            wallet_version: text("4.0.0"),
            wallet_mode: text("listener"),
            protocol_version: text("3.0.0"),
        }
        .to_string(),
        "Wallet Version 4.0.0, Wallet Mode listener, Protocol Version 3.0.0"
    );
    assert_eq!(
        ProtocolRequestV2::CancelTx {
            address: text("alice"),
            epicboxtxid: text("tx-1"),
            signature: text("ff"),
        }
        .to_string(),
        "CancelTx for epicboxtxid tx-1 as alice"
    );
}

#[test]
fn responses_are_described() {
    assert_eq!(ProtocolResponse::Okay.to_string(), "Ok");
    assert_eq!(
        ProtocolResponse::Error {
            kind: ProtocolError::InvalidSignature,
            description: text("unread"),
        }
        .to_string(),
        "error: invalid signature!"
    );
    assert_eq!(
        ProtocolResponse::Challenge { str: text("abc") }.to_string(),
        "Challenge abc"
    );
    assert_eq!(
        ProtocolResponse::Slate {
            from: text("bob"),
            str: text("sealed"),
            signature: text("ff"),
            challenge: text("abc"),
        }
        .to_string(),
        "Slate from bob"
    );
}

#[test]
fn second_version_responses_are_described() {
    assert_eq!(
        ProtocolResponseV2::Error {
            kind: ProtocolError::TooManySubscriptions,
            description: text("unread"),
        }
        .to_string(),
        "error: too many subscriptions!"
    );
    assert_eq!(
        ProtocolResponseV2::Challenge { str: text("abc") }.to_string(),
        "Challenge abc"
    );
    assert_eq!(
        ProtocolResponseV2::GetVersion { str: text("3.0.0") }.to_string(),
        "Version 3.0.0"
    );
    assert_eq!(
        ProtocolResponseV2::TransactionCancelled { epicboxtxid: text("tx-1") }.to_string(),
        "transaction tx-1 cancelled on relay"
    );
}

#[test]
fn ok_names_the_identifiers_that_it_has() {
    let ok = |epicboxmsgid: Option<String>, epicboxtxid: Option<String>| {
        ProtocolResponseV2::Okay { epicboxmsgid, epicboxtxid }.to_string()
    };
    assert_eq!(
        ok(some("msg-1"), some("tx-1")),
        "Ok (epicboxmsgid msg-1, epicboxtxid tx-1)"
    );
    assert_eq!(ok(some("msg-1"), None), "Ok (epicboxmsgid msg-1)");
    assert_eq!(ok(None, some("tx-1")), "Ok (epicboxtxid tx-1)");
    assert_eq!(ok(None, None), "Ok");
}

#[test]
fn delivered_slate_names_the_identifiers_that_it_has() {
    let slate = |epicboxtxid: Option<String>| {
        ProtocolResponseV2::Slate {
            from: text("bob"),
            str: text("sealed"),
            challenge: text("abc"),
            signature: text("ff"),
            ver: text("3.0.0"),
            epicboxmsgid: text("msg-1"),
            epicboxtxid,
        }
        .to_string()
    };
    assert_eq!(slate(None), "Slate from bob with epicboxmsgid msg-1");
    assert_eq!(
        slate(some("tx-1")),
        "Slate from bob with epicboxmsgid msg-1 for epicboxtxid tx-1"
    );
}
