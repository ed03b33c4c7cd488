//! The life cycle of a session: one connection, one command in flight.
//!
//! The library holds no socket. A session hands out the frame to send and
//! takes what the transport reports back; the caller moves the bytes and
//! keeps the time.

use crate::codec::{
    decode, decoded, encode, exchange_view, request_frame, serialise_str, serialise_void,
    string_command, void_command,
};
use crate::duration::{from_secs, whole_seconds};
use crate::error::{ClientError, ClientErrorView, Fault, Setting};
use crate::identity::{identified, identity_view, Identity, IdentityView};
use crate::json::json_print;
use std::time::Duration;
use vstd::prelude::*;

verus! {

/// The seconds that a session waits where no other time was set.
pub const DEFAULT_TIMEOUT_SECS: u64 = 15;

/// Where a session stands.
#[derive(Debug, Clone, Copy, PartialEq, Eq, Structural)]
pub enum Phase {
    /// The connection is open and no command is in flight.
    Connected,
    /// A command was handed out and its reply has not been taken.
    Awaiting,
    /// The stream failed or the time ran out: no further exchange is valid.
    Failed,
}

/// What the transport reports while a reply is awaited.
#[derive(Debug, Clone, PartialEq, Eq)]
pub enum Event {
    /// A frame arrived; its data.
    Frame(Vec<u8>),
    /// The stream ended.
    Ended,
    /// Sending, flushing or receiving failed.
    Failed,
    /// The session's time ran out, counted from the start of the exchange.
    TimedOut,
}

/// How the close handshake went.
#[derive(Debug, Clone, Copy, PartialEq, Eq, Structural)]
pub enum Shutdown {
    /// The handshake completed.
    Completed,
    /// The stream reported an error.
    Failed,
    /// The session's time ran out.
    TimedOut,
}

/// Whether the server's certificate is checked when the connection is opened.
#[derive(Debug, Clone, Copy, PartialEq, Eq, Structural)]
pub enum Trust {
    /// Whatever certificate the server presents is accepted. The hubs carry
    /// certificates that nothing can vouch for, so this is the default; it is
    /// no protection against an impostor on the network.
    AcceptAny,
    /// The certificate is checked against the trusted roots.
    Verify,
}

/// What is needed to open a session.
#[derive(Debug)]
pub struct Builder {
    url: String,
    token: String,
    timeout: Duration,
    trust: Trust,
}

/// A builder as a mathematical value.
pub struct BuilderView {
    pub url: Seq<char>,
    pub token: Seq<char>,
    pub timeout: Duration,
    pub trust: Trust,
}

/// A session on an open connection.
#[derive(Debug)]
pub struct Client {
    token: String,
    timeout: Duration,
    phase: Phase,
}

/// A session as a mathematical value.
pub struct ClientView {
    pub token: Seq<char>,
    pub timeout: Duration,
    pub phase: Phase,
}

/// A frame to send, or an error, as a mathematical value.
pub open spec fn frame_view(r: Result<String, ClientError>) -> Result<Seq<char>, ClientErrorView> {
    match r {
        Ok(frame) => Ok(frame@),
        Err(e) => Err(e@),
    }
}

/// A builder, or an error, as a mathematical value.
pub open spec fn builder_view(r: Result<Builder, ClientError>) -> Result<
    BuilderView,
    ClientErrorView,
> {
    match r {
        Ok(builder) => Ok(builder@),
        Err(e) => Err(e@),
    }
}

/// A session, or an error, as a mathematical value.
pub open spec fn client_view(r: Result<Client, ClientError>) -> Result<
    ClientView,
    ClientErrorView,
> {
    match r {
        Ok(client) => Ok(client@),
        Err(e) => Err(e@),
    }
}

/// The outcome of a close, as a mathematical value.
pub open spec fn shutdown_view(r: Result<(), ClientError>) -> Result<(), ClientErrorView> {
    match r {
        Ok(()) => Ok(()),
        Err(e) => Err(e@),
    }
}

impl BuilderView {
    /// The builder for `url` and `token` with the default time, which
    /// accepts any certificate.
    pub open spec fn new(url: Seq<char>, token: Seq<char>) -> BuilderView {
        BuilderView {
            url,
            token,
            timeout: whole_seconds(DEFAULT_TIMEOUT_SECS),
            trust: Trust::AcceptAny,
        }
    }

    /// The builder from the two configuration inputs, each as it was found:
    /// the URL is asked for first, then the token.
    pub open spec fn configured(url: Option<Seq<char>>, token: Option<Seq<char>>) -> Result<
        BuilderView,
        ClientErrorView,
    > {
        match (url, token) {
            (Some(url), Some(token)) => Ok(BuilderView::new(url, token)),
            (Some(_), None) => Err(ClientErrorView::Config(Setting::Token)),
            (None, _) => Err(ClientErrorView::Config(Setting::Url)),
        }
    }

    /// The session that results once the transport has tried to open the
    /// connection.
    pub open spec fn connected(self, opened: bool) -> Result<ClientView, ClientErrorView> {
        if opened {
            Ok(ClientView { token: self.token, timeout: self.timeout, phase: Phase::Connected })
        } else {
            Err(ClientErrorView::Transport(Fault::Connect))
        }
    }
}

impl ClientView {
    /// The session in another phase.
    pub open spec fn at(self, phase: Phase) -> ClientView {
        ClientView { phase, ..self }
    }

    /// Handing out a command: a connected session gives the frame and awaits
    /// the reply; any other refuses and stays as it is.
    pub open spec fn begin(self, command: Seq<char>) -> (ClientView, Result<
        Seq<char>,
        ClientErrorView,
    >) {
        if self.phase == Phase::Connected {
            (self.at(Phase::Awaiting), Ok(request_frame(self.token, command)))
        } else {
            (self, Err(ClientErrorView::State(self.phase)))
        }
    }

    /// Taking what the transport reports: a session that awaits a reply reads
    /// a frame and is connected again, whatever the frame held; it fails for
    /// good where the stream ended or failed or the time ran out. A session
    /// that awaits none refuses and stays as it is.
    pub open spec fn complete(self, event: Event) -> (ClientView, Result<
        (Seq<char>, Seq<char>),
        ClientErrorView,
    >) {
        if self.phase == Phase::Awaiting {
            match event {
                Event::Frame(frame) => (self.at(Phase::Connected), decoded(frame@)),
                Event::Ended => (
                    self.at(Phase::Failed),
                    Err(ClientErrorView::Transport(Fault::Ended)),
                ),
                Event::Failed => (
                    self.at(Phase::Failed),
                    Err(ClientErrorView::Transport(Fault::Stream)),
                ),
                Event::TimedOut => (self.at(Phase::Failed), Err(ClientErrorView::Timeout)),
            }
        } else {
            (self, Err(ClientErrorView::State(self.phase)))
        }
    }

    /// Taking what the transport reports to the firmware query: as
    /// `complete`, and the response text is read as the hub's identity.
    pub open spec fn complete_identity(self, event: Event) -> (ClientView, Result<
        IdentityView,
        ClientErrorView,
    >) {
        match self.complete(event) {
            (next, Ok((device_id, response))) => (next, identified(device_id, response)),
            (next, Err(e)) => (next, Err(e)),
        }
    }
}

/// The text of the firmware query.
pub open spec fn firmware_query() -> Seq<char> {
    json_print(void_command("FIRMWARE"@))
}

/// What a close yields.
pub open spec fn closed(outcome: Shutdown) -> Result<(), ClientErrorView> {
    match outcome {
        Shutdown::Completed => Ok(()),
        Shutdown::Failed => Err(ClientErrorView::Transport(Fault::Stream)),
        Shutdown::TimedOut => Err(ClientErrorView::Timeout),
    }
}

impl View for Builder {
    type V = BuilderView;

    closed spec fn view(&self) -> BuilderView {
        BuilderView {
            url: self.url@,
            token: self.token@,
            timeout: self.timeout,
            trust: self.trust,
        }
    }
}

impl View for Client {
    type V = ClientView;

    closed spec fn view(&self) -> ClientView {
        ClientView { token: self.token@, timeout: self.timeout, phase: self.phase }
    }
}

impl Builder {
    /// The address that the connection is opened to.
    pub fn url(&self) -> (r: &str)
        ensures
            r@ == self@.url,
    {
        self.url.as_str()
    }

    /// The token that the session's commands will carry.
    pub fn token(&self) -> (r: &str)
        ensures
            r@ == self@.token,
    {
        self.token.as_str()
    }

    /// Whether the server's certificate is to be checked.
    pub fn policy(&self) -> (r: Trust)
        ensures
            r == self@.trust,
    {
        self.trust
    }

    /// Sets the time that the session waits for a reply and for the close.
    pub fn timeout(self, timeout: Duration) -> (r: Builder)
        ensures
            r@ == (BuilderView { timeout, ..self@ }),
    {
        Builder { url: self.url, token: self.token, timeout, trust: self.trust }
    }

    /// Sets whether the server's certificate is checked.
    pub fn trust(self, trust: Trust) -> (r: Builder)
        ensures
            r@ == (BuilderView { trust, ..self@ }),
    {
        Builder { url: self.url, token: self.token, timeout: self.timeout, trust }
    }

    /// Turns the builder into a session once the transport has tried to open
    /// the connection to `url()`; `opened` says whether it did.
    pub fn connect(self, opened: bool) -> (r: Result<Client, ClientError>)
        ensures
            client_view(r) == self@.connected(opened),
    {
        if opened {
            Ok(Client { token: self.token, timeout: self.timeout, phase: Phase::Connected })
        } else {
            Err(ClientError::Transport(Fault::Connect))
        }
    }
}

impl Client {
    /// A builder from the two configuration inputs, each as it was found in
    /// the environment under `Setting::key`.
    pub fn from_env(url: Option<String>, token: Option<String>) -> (r: Result<
        Builder,
        ClientError,
    >)
        ensures
            builder_view(r) == BuilderView::configured(
                match url {
                    Some(text) => Some(text@),
                    None => None,
                },
                match token {
                    Some(text) => Some(text@),
                    None => None,
                },
            ),
    {
        match url {
            Some(url) => match token {
                Some(token) => Ok(Client::build(url.as_str(), token.as_str())),
                None => Err(ClientError::Config(Setting::Token)),
            },
            None => Err(ClientError::Config(Setting::Url)),
        }
    }

    /// A builder for `url` and `token` with the default time, which accepts
    /// any certificate.
    pub fn build(url: &str, token: &str) -> (r: Builder)
        ensures
            r@ == BuilderView::new(url@, token@),
    {
        Builder {
            url: url.to_owned(),
            token: token.to_owned(),
            timeout: from_secs(DEFAULT_TIMEOUT_SECS),
            trust: Trust::AcceptAny,
        }
    }

    /// The token that the session's commands carry.
    pub fn token(&self) -> (r: &str)
        ensures
            r@ == self@.token,
    {
        self.token.as_str()
    }

    /// Where the session stands.
    pub fn phase(&self) -> (r: Phase)
        ensures
            r == self@.phase,
    {
        self.phase
    }

    /// The time that bounds an exchange, and the close.
    pub fn timeout(&self) -> (r: Duration)
        ensures
            r == self@.timeout,
    {
        self.timeout
    }

    /// Hands out the frame that carries the command text `msg`. The caller
    /// sends and flushes it, and reports what came back to `reply`.
    pub fn raw_message(&mut self, msg: &str) -> (r: Result<String, ClientError>)
        ensures
            (final(self)@, frame_view(r)) == old(self)@.begin(msg@),
    {
        match self.phase {
            Phase::Connected => {
                self.phase = Phase::Awaiting;
                Ok(encode(self.token.as_str(), msg))
            },
            phase => Err(ClientError::State(phase)),
        }
    }

    /// Takes what the transport reports for the command in flight: the hub's
    /// address and the response text, where a frame arrived that is the reply.
    pub fn reply(&mut self, event: Event) -> (r: Result<(String, String), ClientError>)
        ensures
            (final(self)@, exchange_view(r)) == old(self)@.complete(event),
    {
        match self.phase {
            Phase::Awaiting => match event {
                Event::Frame(frame) => {
                    self.phase = Phase::Connected;
                    decode(frame.as_slice())
                },
                Event::Ended => {
                    self.phase = Phase::Failed;
                    Err(ClientError::Transport(Fault::Ended))
                },
                Event::Failed => {
                    self.phase = Phase::Failed;
                    Err(ClientError::Transport(Fault::Stream))
                },
                Event::TimedOut => {
                    self.phase = Phase::Failed;
                    Err(ClientError::Timeout)
                },
            },
            phase => Err(ClientError::State(phase)),
        }
    }

    /// Hands out the frame for a command without an argument.
    pub fn command_void(&mut self, command: &str) -> (r: Result<String, ClientError>)
        ensures
            (final(self)@, frame_view(r)) == old(self)@.begin(
                json_print(void_command(command@)),
            ),
    {
        let text = serialise_void(command);
        self.raw_message(text.as_str())
    }

    /// Hands out the frame for a command with one string argument.
    pub fn command_str(&mut self, command: &str, arg: &str) -> (r: Result<String, ClientError>)
        ensures
            (final(self)@, frame_view(r)) == old(self)@.begin(
                json_print(string_command(command@, arg@)),
            ),
    {
        let text = serialise_str(command, arg);
        self.raw_message(text.as_str())
    }

    /// Hands out the frame for the firmware query. What the transport
    /// reports for it goes to `identity`.
    pub fn identify(&mut self) -> (r: Result<String, ClientError>)
        ensures
            (final(self)@, frame_view(r)) == old(self)@.begin(firmware_query()),
    {
        self.command_void("FIRMWARE")
    }

    /// Takes what the transport reports for the firmware query: the hub's
    /// identity.
    pub fn identity(&mut self, event: Event) -> (r: Result<Identity, ClientError>)
        ensures
            (final(self)@, identity_view(r)) == old(self)@.complete_identity(event),
    {
        match self.reply(event) {
            Ok((device_id, response)) => Identity::from_response(device_id, response.as_str()),
            Err(e) => Err(e),
        }
    }

    /// Ends the session once the transport has run the close handshake under
    /// `timeout()`; `outcome` says how it went. The session is gone either way.
    pub fn disconnect(self, outcome: Shutdown) -> (r: Result<(), ClientError>)
        ensures
            shutdown_view(r) == closed(outcome),
    {
        match outcome {
            Shutdown::Completed => Ok(()),
            Shutdown::Failed => Err(ClientError::Transport(Fault::Stream)),
            Shutdown::TimedOut => Err(ClientError::Timeout),
        }
    }
}

/// An exchange whose time runs out fails with a timeout, and the session
/// yields nothing afterwards: whatever the transport reports later and
/// whatever command is tried, the answer is an error and the session stays
/// failed.
pub proof fn lemma_timeout_is_final(client: ClientView, later: Event, command: Seq<char>)
    requires
        client.phase == Phase::Awaiting,
    ensures
        client.complete(Event::TimedOut).1 == Err::<(Seq<char>, Seq<char>), _>(
            ClientErrorView::Timeout,
        ),
        client.complete(Event::TimedOut).0.phase == Phase::Failed,
        client.complete(Event::TimedOut).0.complete(later) == (
            client.at(Phase::Failed),
            Err::<(Seq<char>, Seq<char>), _>(ClientErrorView::State(Phase::Failed)),
        ),
        client.complete(Event::TimedOut).0.begin(command) == (
            client.at(Phase::Failed),
            Err::<Seq<char>, _>(ClientErrorView::State(Phase::Failed)),
        ),
{
}

/// A session yields a response only for a frame that arrived while it
/// awaited one: in every other phase, and for every other report, the answer
/// is an error.
pub proof fn lemma_response_needs_frame(client: ClientView, event: Event)
    requires
        client.complete(event).1 is Ok,
    ensures
        client.phase == Phase::Awaiting,
        event matches Event::Frame(frame) && client.complete(event).1 == decoded(frame@),
{
}

/// One command at a time: a session that has handed out a command refuses a
/// second one until the first is completed.
pub proof fn lemma_one_in_flight(client: ClientView, first: Seq<char>, second: Seq<char>)
    requires
        client.phase == Phase::Connected,
    ensures
        client.begin(first).0.begin(second) == (
            client.at(Phase::Awaiting),
            Err::<Seq<char>, _>(ClientErrorView::State(Phase::Awaiting)),
        ),
{
}

} // verus!
