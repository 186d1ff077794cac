//! The conditions a request can end in, none of which brings the server down.

use vstd::prelude::*;

verus! {

/// Why a request was not served.
#[derive(Clone, Copy, Debug, PartialEq, Eq, Structural)]
pub enum ProtocolError {
    /// No handler is registered for the command identifier.
    UnroutableCommand,
    /// The body does not decode into the handler's request type.
    MalformedPayload,
    /// The requested entrance has no record in the static data.
    UnknownEntrance,
    /// The session's connection is gone, so nothing can be sent.
    ChannelClosed,
    /// Stored data breaks an invariant, such as a scene with a repeated group.
    InternalInconsistency,
}

impl ProtocolError {
    /// Whether the connection stays open after this error. Only a closed
    /// channel ends the session.
    pub open spec fn keeps_session(self) -> bool {
        self != ProtocolError::ChannelClosed
    }

    /// Decides whether the connection layer keeps the session after this error.
    pub fn is_recoverable(&self) -> (r: bool)
        ensures
            r == self.keeps_session(),
    {
        match self {
            ProtocolError::ChannelClosed => false,
            _ => true,
        }
    }

    /// A short fixed text for diagnostics.
    pub fn describe(&self) -> (r: &'static str)
        ensures
            r@ == Self::text_of(*self)@,
    {
        match self {
            ProtocolError::UnroutableCommand => "unroutable command",
            ProtocolError::MalformedPayload => "malformed payload",
            ProtocolError::UnknownEntrance => "unknown entrance",
            ProtocolError::ChannelClosed => "channel closed",
            ProtocolError::InternalInconsistency => "internal inconsistency",
        }
    }

    /// The text that `describe` returns for each error.
    pub open spec fn text_of(e: ProtocolError) -> &'static str {
        match e {
            ProtocolError::UnroutableCommand => "unroutable command",
            ProtocolError::MalformedPayload => "malformed payload",
            ProtocolError::UnknownEntrance => "unknown entrance",
            ProtocolError::ChannelClosed => "channel closed",
            ProtocolError::InternalInconsistency => "internal inconsistency",
        }
    }
}

} // verus!
