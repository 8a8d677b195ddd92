//! The errors that the adapter and its channel client report.

use vstd::prelude::*;
use vstd::string::*;

verus! {

/// A failed exchange with the child process.
#[derive(Debug, Clone, PartialEq, Eq)]
pub enum TransportError {
    /// The channel did not carry the exchange: the connection was refused or
    /// reset, the answer could not be read, or no answer came in time. The
    /// text is the cause as the channel reported it.
    Channel(String),
    /// An answer came, but it does not fit the request that was sent.
    Protocol(String),
}

/// The mathematical value of a [`TransportError`].
pub enum TransportErrorView {
    Channel(Seq<char>),
    Protocol(Seq<char>),
}

impl View for TransportError {
    type V = TransportErrorView;

    open spec fn view(&self) -> TransportErrorView {
        match self {
            TransportError::Channel(cause) => TransportErrorView::Channel(cause@),
            TransportError::Protocol(cause) => TransportErrorView::Protocol(cause@),
        }
    }
}

impl TransportErrorView {
    /// The human-readable cause that the error carries.
    pub open spec fn message(self) -> Seq<char> {
        match self {
            TransportErrorView::Channel(cause) => cause,
            TransportErrorView::Protocol(cause) => cause,
        }
    }

    /// Whether the error reports an answer that broke the protocol.
    pub open spec fn is_protocol_violation(self) -> bool {
        self is Protocol
    }
}

impl TransportError {
    /// The human-readable cause that the error carries.
    pub fn message(&self) -> (text: String)
        ensures
            text@ == self@.message(),
    {
        match self {
            TransportError::Channel(cause) => cause.clone(),
            TransportError::Protocol(cause) => cause.clone(),
        }
    }

    /// Whether the error reports an answer that broke the protocol.
    pub fn is_protocol_violation(&self) -> (yes: bool)
        ensures
            yes == self@.is_protocol_violation(),
    {
        match self {
            TransportError::Channel(_) => false,
            TransportError::Protocol(_) => true,
        }
    }
}

/// What the adapter reports to its host.
#[derive(Debug, Clone, PartialEq, Eq)]
pub enum BackendError {
    /// The configuration was rejected before anything was started.
    Config(String),
    /// The child process did not start, or did not become ready.
    Start(String),
    /// A request was rejected or its exchange with the child failed.
    Inference(String),
    /// The child did not answer the health round trip.
    Unhealthy,
}

/// The mathematical value of a [`BackendError`].
pub enum BackendErrorView {
    Config(Seq<char>),
    Start(Seq<char>),
    Inference(Seq<char>),
    Unhealthy,
}

impl View for BackendError {
    type V = BackendErrorView;

    open spec fn view(&self) -> BackendErrorView {
        match self {
            BackendError::Config(cause) => BackendErrorView::Config(cause@),
            BackendError::Start(cause) => BackendErrorView::Start(cause@),
            BackendError::Inference(cause) => BackendErrorView::Inference(cause@),
            BackendError::Unhealthy => BackendErrorView::Unhealthy,
        }
    }
}

/// The text of [`BackendError::Unhealthy`].
pub open spec fn unhealthy_text() -> Seq<char> {
    "backend is unhealthy"@
}

impl BackendErrorView {
    /// The human-readable cause of the error.
    pub open spec fn message(self) -> Seq<char> {
        match self {
            BackendErrorView::Config(cause) => cause,
            BackendErrorView::Start(cause) => cause,
            BackendErrorView::Inference(cause) => cause,
            BackendErrorView::Unhealthy => unhealthy_text(),
        }
    }
}

impl BackendError {
    /// The human-readable cause of the error.
    pub fn message(&self) -> (text: String)
        ensures
            text@ == self@.message(),
    {
        match self {
            BackendError::Config(cause) => cause.clone(),
            BackendError::Start(cause) => cause.clone(),
            BackendError::Inference(cause) => cause.clone(),
            BackendError::Unhealthy => String::from_str("backend is unhealthy"),
        }
    }
}

} // verus!
