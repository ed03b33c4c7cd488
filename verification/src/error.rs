//! What can go wrong, by kind.

use crate::codec::{CommandResponse, CommandResponseView};
use crate::session::Phase;
use vstd::prelude::*;

verus! {

/// A required configuration input.
#[derive(Debug, Clone, Copy, PartialEq, Eq, Structural)]
pub enum Setting {
    Url,
    Token,
}

impl Setting {
    /// The name of the environment variable that supplies the input.
    pub open spec fn key_text(self) -> Seq<char> {
        match self {
            Setting::Url => "NEOHUB_URL"@,
            Setting::Token => "NEOHUB_TOKEN"@,
        }
    }

    /// The name of the environment variable that supplies the input.
    pub fn key(self) -> (r: &'static str)
        ensures
            r@ == self.key_text(),
    {
        match self {
            Setting::Url => "NEOHUB_URL",
            Setting::Token => "NEOHUB_TOKEN",
        }
    }
}

/// Where the transport gave way.
#[derive(Debug, Clone, Copy, PartialEq, Eq, Structural)]
pub enum Fault {
    /// The connection could not be opened.
    Connect,
    /// The stream reported an error.
    Stream,
    /// The stream ended where a frame was due.
    Ended,
}

/// A failure of the client, by kind.
#[derive(Debug, Clone, PartialEq, Eq)]
pub enum ClientError {
    /// A required configuration input is missing.
    Config(Setting),
    /// The connection could not be opened, or the stream failed or ended
    /// during an exchange.
    Transport(Fault),
    /// No reply, or no acknowledgement of the close, within the session's
    /// time.
    Timeout,
    /// The frame, carried here, is no reply envelope.
    Decode(Vec<u8>),
    /// The envelope, carried here, has another message type or command id
    /// than the reply to the command must have.
    Protocol(CommandResponse),
    /// The response text, carried here, has not the shape that was expected.
    Payload(String),
    /// The session is in the phase carried here, which does not admit the
    /// operation.
    State(Phase),
}

/// An error as a mathematical value.
pub enum ClientErrorView {
    Config(Setting),
    Transport(Fault),
    Timeout,
    Decode(Seq<u8>),
    Protocol(CommandResponseView),
    Payload(Seq<char>),
    State(Phase),
}

impl View for ClientError {
    type V = ClientErrorView;

    open spec fn view(&self) -> ClientErrorView {
        match *self {
            ClientError::Config(setting) => ClientErrorView::Config(setting),
            ClientError::Transport(fault) => ClientErrorView::Transport(fault),
            ClientError::Timeout => ClientErrorView::Timeout,
            ClientError::Decode(frame) => ClientErrorView::Decode(frame@),
            ClientError::Protocol(reply) => ClientErrorView::Protocol(reply@),
            ClientError::Payload(text) => ClientErrorView::Payload(text@),
            ClientError::State(phase) => ClientErrorView::State(phase),
        }
    }
}

} // verus!
