//! The state that a relay connection shares between its subscriber and its
//! publisher, and the two requests that publishers make over it.
use crate::effect::{Effect, EffectView, Reply, Step, StepView};
use crate::error::{Error, ErrorView};
use crate::protocol::{ProtocolRequest, ProtocolRequestV2, RequestV2View, RequestView};
use crate::text::opt_text;
use crate::wallet::{EpicboxAddress, Slate};
use uuid::Uuid;
use vstd::prelude::*;

verus! {

/// What a session tells whoever waits on it.
#[derive(Debug, PartialEq, Eq)]
pub enum BrokerEvent {
    Subscribed,
    PostAck { slate_id: Uuid, epicboxtxid: String },
    Made,
    Cancelled { epicboxtxid: String },
}

impl Clone for BrokerEvent {
    fn clone(&self) -> (r: Self)
        ensures
            r == *self,
    {
        match self {
            BrokerEvent::Subscribed => BrokerEvent::Subscribed,
            BrokerEvent::PostAck { slate_id, epicboxtxid } => BrokerEvent::PostAck {
                slate_id: slate_id.clone(),
                epicboxtxid: epicboxtxid.clone(),
            },
            BrokerEvent::Made => BrokerEvent::Made,
            BrokerEvent::Cancelled { epicboxtxid } => BrokerEvent::Cancelled {
                epicboxtxid: epicboxtxid.clone(),
            },
        }
    }
}

/// Metadata for one PostSlate that is waiting for its relay acknowledgement.
///
/// `epicboxtxid` is absent for the initial state, because the destination
/// relay creates the stable transaction identifier. Every later state carries
/// the already-established identifier forward.
#[derive(Debug, PartialEq, Eq)]
pub struct PendingPost {
    pub slate_id: Uuid,
    pub epicboxtxid: Option<String>,
}

/// The shared state of one relay connection.
#[derive(Debug, PartialEq, Eq)]
pub struct EpicboxBroker {
    /// The PostSlate whose acknowledgement is outstanding.
    pub pending_post: Option<PendingPost>,
    /// A Subscribe was sent on this connection.
    pub subscribed: bool,
    /// The subscriber is to end after its current read.
    pub stopping: bool,
}

/// How far a PostSlate has come.
#[derive(Debug, PartialEq, Eq)]
pub enum PostPhase {
    Ready,
    Sealing,
    SigningMessage { message: String },
    SigningId { message: String, signature: String },
    Sending,
    Done,
}

/// Posting a Slate to another wallet.
#[derive(Debug, PartialEq, Eq)]
pub struct PostSlate {
    pub slate: Slate,
    /// The version in which the Slate goes out.
    pub version: u16,
    pub to: EpicboxAddress,
    /// Stop the subscriber once the Slate is out.
    pub close_connection: bool,
    pub epicboxtxid: Option<String>,
    pub phase: PostPhase,
}

/// How far a CancelTx has come.
#[derive(Debug, PartialEq, Eq)]
pub enum CancelPhase {
    Ready,
    Signing,
    Sending,
    Done,
}

/// Asking the relay to cancel a transaction.
#[derive(Debug, PartialEq, Eq)]
pub struct CancelTx {
    pub epicboxtxid: String,
    pub phase: CancelPhase,
}

impl Clone for PostPhase {
    fn clone(&self) -> (r: Self)
        ensures
            r == *self,
    {
        match self {
            PostPhase::Ready => PostPhase::Ready,
            PostPhase::Sealing => PostPhase::Sealing,
            PostPhase::SigningMessage { message } => PostPhase::SigningMessage {
                message: message.clone(),
            },
            PostPhase::SigningId { message, signature } => PostPhase::SigningId {
                message: message.clone(),
                signature: signature.clone(),
            },
            PostPhase::Sending => PostPhase::Sending,
            PostPhase::Done => PostPhase::Done,
        }
    }
}

/// The broker and a PostSlate after a step.
#[verifier::ext_equal]
pub struct PostNext {
    pub broker: EpicboxBroker,
    pub post: PostSlate,
    pub step: StepView<()>,
}

/// The request that posts a sealed Slate. The transaction identifier, where the
/// transaction has one, goes along with a signature of its own.
pub open spec fn post_request(
    post: PostSlate,
    from: EpicboxAddress,
    message: Seq<char>,
    signature: Seq<char>,
    epicboxtxidsig: Option<Seq<char>>,
) -> RequestView {
    RequestView::PostSlate {
        from: from.stripped@,
        to: post.to.stripped@,
        str: message,
        signature,
        epicboxtxid: opt_text(post.epicboxtxid),
        epicboxtxidsig,
    }
}

/// Registers a signed PostSlate and sends it, unless another one is pending.
pub open spec fn register_post(
    broker: EpicboxBroker,
    post: PostSlate,
    request: RequestView,
) -> PostNext {
    if broker.pending_post is Some {
        PostNext {
            broker,
            post: PostSlate { phase: PostPhase::Done, ..post },
            step: StepView::over(
                Err(
                    ErrorView::EpicboxTungstenite(
                        "Cannot post a second Slate while a relay acknowledgement is pending"@,
                    ),
                ),
            ),
        }
    } else {
        PostNext {
            broker: EpicboxBroker {
                pending_post: Some(
                    PendingPost { slate_id: post.slate.id, epicboxtxid: post.epicboxtxid },
                ),
                ..broker
            },
            post: PostSlate { phase: PostPhase::Sending, ..post },
            step: StepView::ask(EffectView::Post(request)),
        }
    }
}

/// One step of a PostSlate: seal the Slate, sign the message, sign the
/// transaction identifier where there is one, register the post, send it. The
/// registration is withdrawn where sending fails.
pub open spec fn post_slate_next(
    broker: EpicboxBroker,
    post: PostSlate,
    from: EpicboxAddress,
    reply: Reply,
) -> PostNext {
    let at = |phase: PostPhase, step: StepView<()>|
        PostNext { broker, post: PostSlate { phase, ..post }, step };
    match (post.phase, reply) {
        (PostPhase::Ready, Reply::Begin) => at(
            PostPhase::Sealing,
            StepView::ask(
                EffectView::Seal { slate: post.slate, to: post.to, version: post.version },
            ),
        ),
        (PostPhase::Sealing, Reply::Sealed(Ok(message))) => at(
            PostPhase::SigningMessage { message },
            StepView::ask(EffectView::Sign(message@)),
        ),
        (PostPhase::Sealing, Reply::Sealed(Err(e))) => at(PostPhase::Done, StepView::over(Err(e@))),
        (PostPhase::SigningMessage { message }, Reply::Signed(Ok(signature))) => {
            match post.epicboxtxid {
                Some(txid) => at(
                    PostPhase::SigningId { message, signature },
                    StepView::ask(EffectView::Sign(txid@)),
                ),
                None => register_post(
                    broker,
                    post,
                    post_request(post, from, message@, signature@, None),
                ),
            }
        },
        (PostPhase::SigningMessage { message }, Reply::Signed(Err(e))) => at(
            PostPhase::Done,
            StepView::over(Err(e@)),
        ),
        (PostPhase::SigningId { message, signature }, Reply::Signed(Ok(txidsig))) => register_post(
            broker,
            post,
            post_request(post, from, message@, signature@, Some(txidsig@)),
        ),
        (PostPhase::SigningId { message, signature }, Reply::Signed(Err(e))) => at(
            PostPhase::Done,
            StepView::over(Err(e@)),
        ),
        (PostPhase::Sending, Reply::Sent(Ok(_))) => at(PostPhase::Done, StepView::over(Ok(()))),
        (PostPhase::Sending, Reply::Sent(Err(text))) => PostNext {
            broker: EpicboxBroker { pending_post: None, ..broker },
            post: PostSlate { phase: PostPhase::Done, ..post },
            step: StepView::over(
                Err(ErrorView::EpicboxTungstenite("Could not send PostSlate: "@ + text@)),
            ),
        },
        _ => at(post.phase, StepView::idle()),
    }
}

/// A CancelTx after a step.
#[verifier::ext_equal]
pub struct CancelNext {
    pub cancel: CancelTx,
    pub step: StepView<()>,
}

/// One step of a CancelTx: only on a connection with a subscription, sign the
/// transaction identifier and send the request.
pub open spec fn post_cancel_tx_next(
    broker: EpicboxBroker,
    cancel: CancelTx,
    from: EpicboxAddress,
    reply: Reply,
) -> CancelNext {
    let at = |phase: CancelPhase, step: StepView<()>|
        CancelNext { cancel: CancelTx { phase, ..cancel }, step };
    match (cancel.phase, reply) {
        (CancelPhase::Ready, Reply::Begin) => if broker.subscribed {
            at(CancelPhase::Signing, StepView::ask(EffectView::Sign(cancel.epicboxtxid@)))
        } else {
            at(
                CancelPhase::Done,
                StepView::over(
                    Err(
                        ErrorView::EpicboxTungstenite(
                            "CancelTx requires an active Epicbox subscription on this connection"@,
                        ),
                    ),
                ),
            )
        },
        (CancelPhase::Signing, Reply::Signed(Ok(signature))) => at(
            CancelPhase::Sending,
            StepView::ask(
                EffectView::Send(
                    RequestV2View::CancelTx {
                        address: from.public_key@,
                        epicboxtxid: cancel.epicboxtxid@,
                        signature: signature@,
                    },
                ),
            ),
        ),
        (CancelPhase::Signing, Reply::Signed(Err(e))) => at(
            CancelPhase::Done,
            StepView::over(Err(e@)),
        ),
        (CancelPhase::Sending, Reply::Sent(Ok(_))) => at(CancelPhase::Done, StepView::over(Ok(()))),
        (CancelPhase::Sending, Reply::Sent(Err(text))) => at(
            CancelPhase::Done,
            StepView::over(
                Err(ErrorView::EpicboxTungstenite("Could not send CancelTx: "@ + text@)),
            ),
        ),
        _ => at(cancel.phase, StepView::idle()),
    }
}

impl PostSlate {
    /// Prepares to post a Slate.
    pub fn new(
        slate: &Slate,
        version: u16,
        to: &EpicboxAddress,
        close_connection: bool,
        epicboxtxid: Option<&String>,
    ) -> (r: Self)
        ensures
            r == (PostSlate {
                slate: *slate,
                version,
                to: *to,
                close_connection,
                epicboxtxid: match epicboxtxid {
                    Some(txid) => Some(*txid),
                    None => None,
                },
                phase: PostPhase::Ready,
            }),
    {
        PostSlate {
            slate: slate.clone(),
            version,
            to: to.clone(),
            close_connection,
            epicboxtxid: match epicboxtxid {
                Some(txid) => Some(txid.clone()),
                None => None,
            },
            phase: PostPhase::Ready,
        }
    }
}

impl CancelTx {
    /// Prepares to cancel a transaction.
    pub fn new(epicboxtxid: &String) -> (r: Self)
        ensures
            r == (CancelTx { epicboxtxid: *epicboxtxid, phase: CancelPhase::Ready }),
    {
        CancelTx { epicboxtxid: epicboxtxid.clone(), phase: CancelPhase::Ready }
    }
}

impl EpicboxBroker {
    /// The state of a fresh connection.
    pub open spec fn fresh() -> Self {
        EpicboxBroker { pending_post: None, subscribed: false, stopping: false }
    }

    /// Creates the state for a fresh connection.
    pub fn new() -> (r: Result<Self, Error>)
        ensures
            r == Ok::<Self, Error>(EpicboxBroker::fresh()),
    {
        Ok(EpicboxBroker { pending_post: None, subscribed: false, stopping: false })
    }

    /// Asks the subscriber to end.
    pub fn stop(&mut self)
        ensures
            *final(self) == (EpicboxBroker { stopping: true, ..*old(self) }),
    {
        self.stopping = true;
    }

    /// Registers a signed PostSlate, unless another one is pending.
    fn register(&mut self, post: &mut PostSlate, request: ProtocolRequest) -> (step: Step<()>)
        ensures
            register_post(*old(self), *old(post), request@) == (PostNext {
                broker: *final(self),
                post: *final(post),
                step: step@,
            }),
    {
        if self.pending_post.is_some() {
            post.phase = PostPhase::Done;
            return Step::over(
                Err(
                    Error::EpicboxTungstenite(
                        "Cannot post a second Slate while a relay acknowledgement is pending".to_string(),
                    ),
                ),
            );
        }
        self.pending_post =
        Some(
            PendingPost {
                slate_id: post.slate.id.clone(),
                epicboxtxid: post.epicboxtxid.clone(),
            },
        );
        post.phase = PostPhase::Sending;
        Step::ask(Effect::Post(request))
    }

    /// Takes a PostSlate one step further.
    pub fn post_slate(&mut self, post: &mut PostSlate, from: &EpicboxAddress, reply: Reply) -> (step:
        Step<()>)
        ensures
            post_slate_next(*old(self), *old(post), *from, reply) == (PostNext {
                broker: *final(self),
                post: *final(post),
                step: step@,
            }),
    {
        let phase = post.phase.clone();
        match (phase, reply) {
            (PostPhase::Ready, Reply::Begin) => {
                post.phase = PostPhase::Sealing;
                Step::ask(
                    Effect::Seal {
                        slate: post.slate.clone(),
                        to: post.to.clone(),
                        version: post.version,
                    },
                )
            },
            (PostPhase::Sealing, Reply::Sealed(Ok(message))) => {
                post.phase = PostPhase::SigningMessage { message: message.clone() };
                Step::ask(Effect::Sign(message))
            },
            (PostPhase::Sealing, Reply::Sealed(Err(e))) => {
                post.phase = PostPhase::Done;
                Step::over(Err(e))
            },
            (PostPhase::SigningMessage { message }, Reply::Signed(Ok(signature))) => {
                match &post.epicboxtxid {
                    Some(txid) => {
                        let txid = txid.clone();
                        post.phase = PostPhase::SigningId { message, signature };
                        Step::ask(Effect::Sign(txid))
                    },
                    None => {
                        let request = ProtocolRequest::PostSlate {
                            from: from.stripped.clone(),
                            to: post.to.stripped.clone(),
                            str: message,
                            signature,
                            epicboxtxid: None,
                            epicboxtxidsig: None,
                        };
                        self.register(post, request)
                    },
                }
            },
            (PostPhase::SigningMessage { message: _ }, Reply::Signed(Err(e))) => {
                post.phase = PostPhase::Done;
                Step::over(Err(e))
            },
            (PostPhase::SigningId { message, signature }, Reply::Signed(Ok(epicboxtxidsig))) => {
                let request = ProtocolRequest::PostSlate {
                    from: from.stripped.clone(),
                    to: post.to.stripped.clone(),
                    str: message,
                    signature,
                    epicboxtxid: post.epicboxtxid.clone(),
                    epicboxtxidsig: Some(epicboxtxidsig),
                };
                self.register(post, request)
            },
            (PostPhase::SigningId { message: _, signature: _ }, Reply::Signed(Err(e))) => {
                post.phase = PostPhase::Done;
                Step::over(Err(e))
            },
            (PostPhase::Sending, Reply::Sent(Ok(_))) => {
                post.phase = PostPhase::Done;
                Step::over(Ok(()))
            },
            (PostPhase::Sending, Reply::Sent(Err(text))) => {
                self.pending_post = None;
                post.phase = PostPhase::Done;
                Step::over(
                    Err(
                        Error::EpicboxTungstenite(
                            "Could not send PostSlate: ".to_string().concat(text.as_str()),
                        ),
                    ),
                )
            },
            _ => Step::idle(),
        }
    }

    /// Takes a CancelTx one step further.
    pub fn post_cancel_tx(
        &self,
        cancel: &mut CancelTx,
        from: &EpicboxAddress,
        reply: Reply,
    ) -> (step: Step<()>)
        ensures
            post_cancel_tx_next(*self, *old(cancel), *from, reply) == (CancelNext {
                cancel: *final(cancel),
                step: step@,
            }),
    {
        match (&cancel.phase, reply) {
            (CancelPhase::Ready, Reply::Begin) => {
                if !self.subscribed {
                    cancel.phase = CancelPhase::Done;
                    return Step::over(
                        Err(
                            Error::EpicboxTungstenite(
                                "CancelTx requires an active Epicbox subscription on this connection".to_string(),
                            ),
                        ),
                    );
                }
                cancel.phase = CancelPhase::Signing;
                Step::ask(Effect::Sign(cancel.epicboxtxid.clone()))
            },
            (CancelPhase::Signing, Reply::Signed(Ok(signature))) => {
                cancel.phase = CancelPhase::Sending;
                Step::ask(
                    Effect::Send(
                        ProtocolRequestV2::CancelTx {
                            address: from.public_key.clone(),
                            epicboxtxid: cancel.epicboxtxid.clone(),
                            signature,
                        },
                    ),
                )
            },
            (CancelPhase::Signing, Reply::Signed(Err(e))) => {
                cancel.phase = CancelPhase::Done;
                Step::over(Err(e))
            },
            (CancelPhase::Sending, Reply::Sent(Ok(_))) => {
                cancel.phase = CancelPhase::Done;
                Step::over(Ok(()))
            },
            (CancelPhase::Sending, Reply::Sent(Err(text))) => {
                cancel.phase = CancelPhase::Done;
                Step::over(
                    Err(
                        Error::EpicboxTungstenite(
                            "Could not send CancelTx: ".to_string().concat(text.as_str()),
                        ),
                    ),
                )
            },
            _ => Step::idle(),
        }
    }
}

} // verus!
