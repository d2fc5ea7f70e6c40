//! Errors of an Epicbox session and the reasons for which it closes.
use vstd::prelude::*;

verus! {

/// What can go wrong in an Epicbox session.
#[derive(Debug, PartialEq, Eq)]
pub enum Error {
    /// The relay connection or a request over it failed.
    EpicboxTungstenite(String),
    /// The wallet could not receive an incoming transaction.
    EpicboxReceiveTx(String),
    /// The websocket ended without a close handshake.
    EpicboxWebsocketAbnormalTermination,
    /// No listener runs on the named interface.
    NoListener(String),
    /// What the wallet, its keys or its node reported.
    Wallet(String),
}

/// What an `Error` carries, as characters.
pub enum ErrorView {
    EpicboxTungstenite(Seq<char>),
    EpicboxReceiveTx(Seq<char>),
    EpicboxWebsocketAbnormalTermination,
    NoListener(Seq<char>),
    Wallet(Seq<char>),
}

impl View for Error {
    type V = ErrorView;

    open spec fn view(&self) -> ErrorView {
        match self {
            Error::EpicboxTungstenite(text) => ErrorView::EpicboxTungstenite(text@),
            Error::EpicboxReceiveTx(text) => ErrorView::EpicboxReceiveTx(text@),
            Error::EpicboxWebsocketAbnormalTermination =>
                ErrorView::EpicboxWebsocketAbnormalTermination,
            Error::NoListener(text) => ErrorView::NoListener(text@),
            Error::Wallet(text) => ErrorView::Wallet(text@),
        }
    }
}

/// Why a session closes.
#[derive(Debug, PartialEq, Eq)]
pub enum CloseReason {
    Normal,
    Abnormal(Error),
}

/// An outcome with its error, if any, taken by its view.
pub open spec fn outcome_view<T>(outcome: Result<T, Error>) -> Result<T, ErrorView> {
    match outcome {
        Ok(value) => Ok(value),
        Err(error) => Err(error@),
    }
}

} // verus!
