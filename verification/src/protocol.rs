//! Requests and responses exchanged with an Epicbox relay, and the one-line
//! text that describes each of them.
use crate::text::opt_text;
use vstd::prelude::*;

verus! {

/// Why a relay refused a request.
#[derive(Debug, PartialEq, Eq)]
pub enum ProtocolError {
    UnknownError,
    InvalidRequest,
    InvalidSignature,
    InvalidChallenge,
    TooManySubscriptions,
}

impl ProtocolError {
    /// The text for a relay error.
    pub open spec fn text(&self) -> Seq<char> {
        match self {
            ProtocolError::UnknownError => "unknown error!"@,
            ProtocolError::InvalidRequest => "invalid request!"@,
            ProtocolError::InvalidSignature => "invalid signature!"@,
            ProtocolError::InvalidChallenge => "invalid challenge!"@,
            ProtocolError::TooManySubscriptions => "too many subscriptions!"@,
        }
    }

    /// Describes the error.
    pub fn to_string(&self) -> (r: String)
        ensures
            r@ == self.text(),
    {
        match self {
            ProtocolError::UnknownError => "unknown error!".to_string(),
            ProtocolError::InvalidRequest => "invalid request!".to_string(),
            ProtocolError::InvalidSignature => "invalid signature!".to_string(),
            ProtocolError::InvalidChallenge => "invalid challenge!".to_string(),
            ProtocolError::TooManySubscriptions => "too many subscriptions!".to_string(),
        }
    }
}

/// A request in the first protocol version.
#[derive(Debug, PartialEq, Eq)]
pub enum ProtocolRequest {
    Challenge,
    Subscribe { address: String, signature: String },
    PostSlate {
        from: String,
        to: String,
        str: String,
        signature: String,
        /// Stable transaction-wide identifier.
        ///
        /// This is absent from the initial PostSlate because the destination
        /// relay creates it. Later negotiation states carry it forward.
        epicboxtxid: Option<String>,
        /// Signature by the posting wallet over epicboxtxid.
        epicboxtxidsig: Option<String>,
    },
    Unsubscribe { address: String },
}

/// A request in the second protocol version.
#[derive(Debug, PartialEq, Eq)]
pub enum ProtocolRequestV2 {
    Challenge,
    Subscribe { address: String, ver: String, signature: String },
    PostSlate {
        from: String,
        to: String,
        str: String,
        signature: String,
        epicboxtxid: Option<String>,
        epicboxtxidsig: Option<String>,
    },
    Unsubscribe { address: String },
    Made {
        address: String,
        signature: String,
        ver: String,
        /// Per-message delivery identifier.
        epicboxmsgid: String,
    },
    ClientDetails { wallet_version: String, wallet_mode: String, protocol_version: String },
    CancelTx {
        address: String,
        /// Stable transaction-wide identifier.
        epicboxtxid: String,
        /// Signature over epicboxtxid.
        signature: String,
    },
}

/// What a `ProtocolRequest` carries, as characters.
pub enum RequestView {
    Challenge,
    Subscribe { address: Seq<char>, signature: Seq<char> },
    PostSlate {
        from: Seq<char>,
        to: Seq<char>,
        str: Seq<char>,
        signature: Seq<char>,
        epicboxtxid: Option<Seq<char>>,
        epicboxtxidsig: Option<Seq<char>>,
    },
    Unsubscribe { address: Seq<char> },
}

/// What a `ProtocolRequestV2` carries, as characters.
pub enum RequestV2View {
    Challenge,
    Subscribe { address: Seq<char>, ver: Seq<char>, signature: Seq<char> },
    PostSlate {
        from: Seq<char>,
        to: Seq<char>,
        str: Seq<char>,
        signature: Seq<char>,
        epicboxtxid: Option<Seq<char>>,
        epicboxtxidsig: Option<Seq<char>>,
    },
    Unsubscribe { address: Seq<char> },
    Made { address: Seq<char>, signature: Seq<char>, ver: Seq<char>, epicboxmsgid: Seq<char> },
    ClientDetails {
        wallet_version: Seq<char>,
        wallet_mode: Seq<char>,
        protocol_version: Seq<char>,
    },
    CancelTx { address: Seq<char>, epicboxtxid: Seq<char>, signature: Seq<char> },
}

impl View for ProtocolRequest {
    type V = RequestView;

    open spec fn view(&self) -> RequestView {
        match self {
            ProtocolRequest::Challenge => RequestView::Challenge,
            ProtocolRequest::Subscribe { address, signature } => RequestView::Subscribe {
                address: address@,
                signature: signature@,
            },
            ProtocolRequest::PostSlate {
                from,
                to,
                str,
                signature,
                epicboxtxid,
                epicboxtxidsig,
            } => RequestView::PostSlate {
                from: from@,
                to: to@,
                str: str@,
                signature: signature@,
                epicboxtxid: opt_text(*epicboxtxid),
                epicboxtxidsig: opt_text(*epicboxtxidsig),
            },
            ProtocolRequest::Unsubscribe { address } => RequestView::Unsubscribe {
                address: address@,
            },
        }
    }
}

impl View for ProtocolRequestV2 {
    type V = RequestV2View;

    open spec fn view(&self) -> RequestV2View {
        match self {
            ProtocolRequestV2::Challenge => RequestV2View::Challenge,
            ProtocolRequestV2::Subscribe { address, ver, signature } => RequestV2View::Subscribe {
                address: address@,
                ver: ver@,
                signature: signature@,
            },
            ProtocolRequestV2::PostSlate {
                from,
                to,
                str,
                signature,
                epicboxtxid,
                epicboxtxidsig,
            } => RequestV2View::PostSlate {
                from: from@,
                to: to@,
                str: str@,
                signature: signature@,
                epicboxtxid: opt_text(*epicboxtxid),
                epicboxtxidsig: opt_text(*epicboxtxidsig),
            },
            ProtocolRequestV2::Unsubscribe { address } => RequestV2View::Unsubscribe {
                address: address@,
            },
            ProtocolRequestV2::Made { address, signature, ver, epicboxmsgid } =>
                RequestV2View::Made {
                    address: address@,
                    signature: signature@,
                    ver: ver@,
                    epicboxmsgid: epicboxmsgid@,
                },
            ProtocolRequestV2::ClientDetails { wallet_version, wallet_mode, protocol_version } =>
                RequestV2View::ClientDetails {
                    wallet_version: wallet_version@,
                    wallet_mode: wallet_mode@,
                    protocol_version: protocol_version@,
                },
            ProtocolRequestV2::CancelTx { address, epicboxtxid, signature } =>
                RequestV2View::CancelTx {
                    address: address@,
                    epicboxtxid: epicboxtxid@,
                    signature: signature@,
                },
        }
    }
}

/// The text for a PostSlate; a known transaction is named, a new one is not.
pub open spec fn post_slate_text(
    from: Seq<char>,
    to: Seq<char>,
    epicboxtxid: Option<Seq<char>>,
) -> Seq<char> {
    let route = "PostSlate from "@ + from + " to "@ + to;
    match epicboxtxid {
        Some(txid) => route + " for epicboxtxid "@ + txid,
        None => route,
    }
}

/// Describes a PostSlate of either protocol version.
fn describe_post_slate(from: &String, to: &String, epicboxtxid: &Option<String>) -> (r: String)
    ensures
        r@ == post_slate_text(from@, to@, opt_text(*epicboxtxid)),
{
    let route = "PostSlate from ".to_string().concat(from.as_str()).concat(" to ").concat(
        to.as_str(),
    );
    match epicboxtxid {
        Some(txid) => route.concat(" for epicboxtxid ").concat(txid.as_str()),
        None => route,
    }
}

impl ProtocolRequest {
    /// The text for a request.
    pub open spec fn text(&self) -> Seq<char> {
        match self@ {
            RequestView::Challenge => "Challenge"@,
            RequestView::Subscribe { address, signature } => "Subscribe to "@ + address,
            RequestView::PostSlate {
                from,
                to,
                str,
                signature,
                epicboxtxid,
                epicboxtxidsig,
            } => post_slate_text(from, to, epicboxtxid),
            RequestView::Unsubscribe { address } => "Unsubscribe from "@ + address,
        }
    }

    /// Describes the request.
    pub fn to_string(&self) -> (r: String)
        ensures
            r@ == self.text(),
    {
        match self {
            ProtocolRequest::Challenge => "Challenge".to_string(),
            ProtocolRequest::Subscribe { address, .. } => "Subscribe to ".to_string().concat(
                address.as_str(),
            ),
            ProtocolRequest::PostSlate { from, to, epicboxtxid, .. } => describe_post_slate(
                from,
                to,
                epicboxtxid,
            ),
            ProtocolRequest::Unsubscribe { address } => "Unsubscribe from ".to_string().concat(
                address.as_str(),
            ),
        }
    }
}

impl ProtocolRequestV2 {
    /// The text for a request.
    pub open spec fn text(&self) -> Seq<char> {
        match self@ {
            RequestV2View::Challenge => "Challenge"@,
            RequestV2View::Subscribe { address, ver, signature } => "Subscribe to "@ + address,
            RequestV2View::PostSlate {
                from,
                to,
                str,
                signature,
                epicboxtxid,
                epicboxtxidsig,
            } => post_slate_text(from, to, epicboxtxid),
            RequestV2View::Unsubscribe { address } => "Unsubscribe from "@ + address,
            RequestV2View::Made { address, signature, ver, epicboxmsgid } =>
                "Made for epicboxmsgid "@ + epicboxmsgid,
            RequestV2View::ClientDetails { wallet_version, wallet_mode, protocol_version } =>
                "Wallet Version "@ + wallet_version + ", Wallet Mode "@ + wallet_mode
                    + ", Protocol Version "@ + protocol_version,
            RequestV2View::CancelTx { address, epicboxtxid, signature } =>
                "CancelTx for epicboxtxid "@ + epicboxtxid + " as "@ + address,
        }
    }

    /// Describes the request.
    pub fn to_string(&self) -> (r: String)
        ensures
            r@ == self.text(),
    {
        match self {
            ProtocolRequestV2::Challenge => "Challenge".to_string(),
            ProtocolRequestV2::Subscribe { address, .. } => "Subscribe to ".to_string().concat(
                address.as_str(),
            ),
            ProtocolRequestV2::PostSlate { from, to, epicboxtxid, .. } => describe_post_slate(
                from,
                to,
                epicboxtxid,
            ),
            ProtocolRequestV2::Unsubscribe { address } => "Unsubscribe from ".to_string().concat(
                address.as_str(),
            ),
            ProtocolRequestV2::Made { epicboxmsgid, .. } => "Made for epicboxmsgid ".to_string()
                .concat(epicboxmsgid.as_str()),
            ProtocolRequestV2::ClientDetails { wallet_version, wallet_mode, protocol_version } =>
                "Wallet Version ".to_string().concat(wallet_version.as_str()).concat(
                    ", Wallet Mode ",
                ).concat(wallet_mode.as_str()).concat(", Protocol Version ").concat(
                    protocol_version.as_str(),
                ),
            ProtocolRequestV2::CancelTx { address, epicboxtxid, .. } =>
                "CancelTx for epicboxtxid ".to_string().concat(epicboxtxid.as_str()).concat(
                    " as ",
                ).concat(address.as_str()),
        }
    }
}

/// A response in the first protocol version.
#[derive(Debug, PartialEq, Eq)]
pub enum ProtocolResponse {
    Okay,
    Error { kind: ProtocolError, description: String },
    Challenge { str: String },
    Slate { from: String, str: String, signature: String, challenge: String },
}

/// A response in the second protocol version.
#[derive(Debug, PartialEq, Eq)]
pub enum ProtocolResponseV2 {
    Okay {
        /// Per-message identifier returned for the newly queued Slate.
        epicboxmsgid: Option<String>,
        /// Stable transaction-wide identifier.
        epicboxtxid: Option<String>,
    },
    Error { kind: ProtocolError, description: String },
    Challenge { str: String },
    Slate {
        from: String,
        str: String,
        challenge: String,
        signature: String,
        /// Existing version 2/3 relays add this for subscribed clients.
        ver: String,
        /// Required per-message identifier used by Made.
        epicboxmsgid: String,
        /// Stable transaction identifier. Older relays may omit it.
        epicboxtxid: Option<String>,
    },
    GetVersion { str: String },
    /// Positive transaction-wide cancellation confirmation.
    TransactionCancelled { epicboxtxid: String },
}

impl ProtocolResponse {
    /// The text for a response.
    pub open spec fn text(&self) -> Seq<char> {
        match self {
            ProtocolResponse::Okay => "Ok"@,
            ProtocolResponse::Error { kind, .. } => "error: "@ + kind.text(),
            ProtocolResponse::Challenge { str } => "Challenge "@ + str@,
            ProtocolResponse::Slate { from, .. } => "Slate from "@ + from@,
        }
    }

    /// Describes the response.
    pub fn to_string(&self) -> (r: String)
        ensures
            r@ == self.text(),
    {
        match self {
            ProtocolResponse::Okay => "Ok".to_string(),
            ProtocolResponse::Error { kind, .. } => "error: ".to_string().concat(
                kind.to_string().as_str(),
            ),
            ProtocolResponse::Challenge { str } => "Challenge ".to_string().concat(str.as_str()),
            ProtocolResponse::Slate { from, .. } => "Slate from ".to_string().concat(from.as_str()),
        }
    }
}

impl ProtocolResponseV2 {
    /// The text for a response.
    pub open spec fn text(&self) -> Seq<char> {
        match self {
            ProtocolResponseV2::Okay { epicboxmsgid, epicboxtxid } => match (
                opt_text(*epicboxmsgid),
                opt_text(*epicboxtxid),
            ) {
                (Some(msgid), Some(txid)) => "Ok (epicboxmsgid "@ + msgid + ", epicboxtxid "@ + txid
                    + ")"@,
                (Some(msgid), None) => "Ok (epicboxmsgid "@ + msgid + ")"@,
                (None, Some(txid)) => "Ok (epicboxtxid "@ + txid + ")"@,
                (None, None) => "Ok"@,
            },
            ProtocolResponseV2::Error { kind, .. } => "error: "@ + kind.text(),
            ProtocolResponseV2::Challenge { str } => "Challenge "@ + str@,
            ProtocolResponseV2::GetVersion { str } => "Version "@ + str@,
            ProtocolResponseV2::TransactionCancelled { epicboxtxid } => "transaction "@
                + epicboxtxid@ + " cancelled on relay"@,
            ProtocolResponseV2::Slate { from, epicboxmsgid, epicboxtxid, .. } => {
                let message = "Slate from "@ + from@ + " with epicboxmsgid "@ + epicboxmsgid@;
                match opt_text(*epicboxtxid) {
                    Some(txid) => message + " for epicboxtxid "@ + txid,
                    None => message,
                }
            },
        }
    }

    /// Describes the response.
    pub fn to_string(&self) -> (r: String)
        ensures
            r@ == self.text(),
    {
        match self {
            ProtocolResponseV2::Okay { epicboxmsgid, epicboxtxid } => match (
                epicboxmsgid,
                epicboxtxid,
            ) {
                (Some(msgid), Some(txid)) => "Ok (epicboxmsgid ".to_string().concat(
                    msgid.as_str(),
                ).concat(", epicboxtxid ").concat(txid.as_str()).concat(")"),
                (Some(msgid), None) => "Ok (epicboxmsgid ".to_string().concat(
                    msgid.as_str(),
                ).concat(")"),
                (None, Some(txid)) => "Ok (epicboxtxid ".to_string().concat(txid.as_str()).concat(
                    ")",
                ),
                (None, None) => "Ok".to_string(),
            },
            ProtocolResponseV2::Error { kind, .. } => "error: ".to_string().concat(
                kind.to_string().as_str(),
            ),
            ProtocolResponseV2::Challenge { str } => "Challenge ".to_string().concat(str.as_str()),
            ProtocolResponseV2::GetVersion { str } => "Version ".to_string().concat(str.as_str()),
            ProtocolResponseV2::TransactionCancelled { epicboxtxid } => "transaction ".to_string()
                .concat(epicboxtxid.as_str()).concat(" cancelled on relay"),
            ProtocolResponseV2::Slate { from, epicboxmsgid, epicboxtxid, .. } => {
                let message = "Slate from ".to_string().concat(from.as_str()).concat(
                    " with epicboxmsgid ",
                ).concat(epicboxmsgid.as_str());
                match epicboxtxid {
                    Some(txid) => message.concat(" for epicboxtxid ").concat(txid.as_str()),
                    None => message,
                }
            },
        }
    }
}

} // verus!
