//! The errors that a handler of the RESP side can end with.

use vstd::prelude::*;
use crate::cache_backend::BackendError;

verus! {

/// Why a RESP command was not served.
#[derive(Clone, Debug, PartialEq, Eq)]
pub enum ProxyError {
    /// The backend reported an error, with this text.
    Momento { message: Vec<u8> },
    /// The backend did not answer in time.
    Timeout,
    /// The socket of the client failed, or an argument of the command could
    /// not be read.
    Io { message: Vec<u8> },
    /// The command is not one that the proxy serves.
    UnsupportedCommand { command: Vec<u8> },
    /// Another failure, with the message for the client.
    Custom { message: Vec<u8> },
}

/// What a `ProxyError` holds.
pub enum ProxyErrorView {
    Momento { message: Seq<u8> },
    Timeout,
    Io { message: Seq<u8> },
    UnsupportedCommand { command: Seq<u8> },
    Custom { message: Seq<u8> },
}

impl View for ProxyError {
    type V = ProxyErrorView;

    open spec fn view(&self) -> ProxyErrorView {
        match self {
            ProxyError::Momento { message } => ProxyErrorView::Momento { message: message@ },
            ProxyError::Timeout => ProxyErrorView::Timeout,
            ProxyError::Io { message } => ProxyErrorView::Io { message: message@ },
            ProxyError::UnsupportedCommand { command } => ProxyErrorView::UnsupportedCommand {
                command: command@,
            },
            ProxyError::Custom { message } => ProxyErrorView::Custom { message: message@ },
        }
    }
}

/// The error of a handler whose call to the backend failed with `e`: a
/// missed deadline keeps its kind, everything else is an error of the
/// backend, a failed transport too. Neither closes the connection.
pub open spec fn from_backend(e: BackendError) -> ProxyErrorView {
    match e {
        BackendError::Timeout => ProxyErrorView::Timeout,
        BackendError::Io { message } => ProxyErrorView::Momento { message: message@ },
        BackendError::Remote { code, message } => ProxyErrorView::Momento { message: message@ },
        BackendError::Config { message } => ProxyErrorView::Momento { message: message@ },
    }
}

impl ProxyError {
    /// The error of a handler whose call to the backend failed with `e`.
    pub fn from_backend_error(e: BackendError) -> (error: ProxyError)
        ensures
            error@ == from_backend(e),
    {
        match e {
            BackendError::Timeout => ProxyError::Timeout,
            BackendError::Io { message } => ProxyError::Momento { message },
            BackendError::Remote { code, message } => ProxyError::Momento { message },
            BackendError::Config { message } => ProxyError::Momento { message },
        }
    }

    /// An error of reading a command's arguments, with `message`.
    pub fn invalid(message: Vec<u8>) -> (error: ProxyError)
        ensures
            error@ == (ProxyErrorView::Io { message: message@ }),
    {
        ProxyError::Io { message }
    }
}

} // verus!
