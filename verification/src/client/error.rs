//! How a round trip can fail.

use crate::client::message::Fault;
use vstd::prelude::*;

verus! {

/// The failure of one round trip.
#[derive(Debug, Clone, Copy, PartialEq, Eq, Structural)]
pub enum ClientError {
    /// The device could not be reached, or did not answer in time. The next
    /// attempt may succeed.
    Transport,
    /// What came back could not be authenticated or decrypted, or is not a
    /// payload of the expected form.
    Protocol,
    /// The reply holds another number of values than the request asked for.
    Shape { requested: usize, received: usize },
}

impl Fault {
    /// The fault lies in reaching the device or in waiting for it, not in
    /// what it sent.
    pub open spec fn is_transport(self) -> bool {
        match self {
            Fault::Io => true,
            Fault::Send => true,
            Fault::RecvTimeout => true,
            Fault::RecvDisconnected => true,
            Fault::ResponseTimeout => true,
            Fault::NotFound => true,
            Fault::MacNotBound => false,
            Fault::SerDe => false,
            Fault::Base64Decode => false,
            Fault::ParseInt => false,
            Fault::InvalidVar => false,
            Fault::InvalidValue => false,
        }
    }

    /// The error that the fault is reported as.
    pub open spec fn class(self) -> ClientError {
        if self.is_transport() {
            ClientError::Transport
        } else {
            ClientError::Protocol
        }
    }

    /// The error that the fault is reported as.
    pub fn classify(self) -> (e: ClientError)
        ensures
            e == self.class(),
    {
        match self {
            Fault::Io
            | Fault::Send
            | Fault::RecvTimeout
            | Fault::RecvDisconnected
            | Fault::ResponseTimeout
            | Fault::NotFound => ClientError::Transport,
            Fault::MacNotBound
            | Fault::SerDe
            | Fault::Base64Decode
            | Fault::ParseInt
            | Fault::InvalidVar
            | Fault::InvalidValue => ClientError::Protocol,
        }
    }
}

impl ClientError {
    /// Whether trying again may help.
    pub fn is_retryable(&self) -> (r: bool)
        ensures
            r == !(self is Shape),
    {
        match self {
            ClientError::Transport => true,
            ClientError::Protocol => true,
            ClientError::Shape { .. } => false,
        }
    }
}

} // verus!
