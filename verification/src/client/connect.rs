//! The setup of a client session: first a transport, then the handshake.

use crate::client::connection::{
    handshake_step, Handshake, HandshakeError, HandshakeEvent, HandshakeRequest,
};
use vstd::prelude::*;

verus! {

/// Why a client session could not be set up.
pub enum ConnectError<T> {
    /// No transport could be had.
    Connect(T),
    /// The handshake on the transport failed.
    Handshake(HandshakeError),
}

impl<T> ConnectError<T> {
    /// A short description of the kind of failure.
    pub fn description(&self) -> (text: &'static str)
        ensures
            text@ == match self {
                ConnectError::Connect(_) => "error attempting to establish underlying session layer"@,
                ConnectError::Handshake(_) => "error performing HTTP/2.0 handshake"@,
            },
    {
        match self {
            ConnectError::Connect(_) => "error attempting to establish underlying session layer",
            ConnectError::Handshake(_) => "error performing HTTP/2.0 handshake",
        }
    }
}

/// Where the setup of a client session is.
#[derive(Clone, Copy, Debug, PartialEq, Eq, Structural)]
pub enum ConnectFuture {
    /// A transport is being obtained.
    Connecting,
    /// The handshake is under way on the transport.
    Handshaking(Handshake),
    /// The setup is over.
    Done,
}

/// What the driver reports to the setup.
pub enum ConnectEvent<T> {
    /// There is a transport.
    Transport,
    /// No transport could be had.
    TransportFailed(T),
    /// The transport is not there yet; the task will be woken.
    Pending,
    /// News of the handshake.
    Handshake(HandshakeEvent),
}

/// What the setup wants from its driver next.
pub enum ConnectRequest<T> {
    /// Poll for the transport: `Transport`, `TransportFailed` or `Pending`.
    PollTransport,
    /// Start the handshake on the transport, and poll it: the answer comes
    /// back as `Handshake`.
    StartHandshake,
    /// Poll the handshake of the framing layer; the answer comes back as
    /// `Handshake`.
    PollHandshake,
    /// Spawn the task that drives the connection; the answer comes back as
    /// `Handshake`.
    SpawnConnection,
    /// The session is connected: hand out the call handle.
    Connected,
    /// The setup failed with this error.
    Fail(ConnectError<T>),
}

/// The request of a handshake, as a request of the setup.
pub open spec fn connect_lift<T>(request: HandshakeRequest) -> ConnectRequest<T> {
    match request {
        HandshakeRequest::PollHandshake => ConnectRequest::PollHandshake,
        HandshakeRequest::SpawnConnection => ConnectRequest::SpawnConnection,
        HandshakeRequest::Connected => ConnectRequest::Connected,
        HandshakeRequest::Fail(err) => ConnectRequest::Fail(ConnectError::Handshake(err)),
    }
}

/// The request that stands open in the setup.
pub open spec fn connect_open_request<T>(s: ConnectFuture) -> ConnectRequest<T> {
    match s {
        ConnectFuture::Connecting => ConnectRequest::PollTransport,
        ConnectFuture::Handshaking(h) => connect_lift(
            crate::client::connection::handshake_open_request(h),
        ),
        ConnectFuture::Done => ConnectRequest::Connected,
    }
}

/// The setup's transition: the state after `event`, and the answer to it.
///
/// The setup goes from connecting to handshaking when the transport is
/// there, and never back. While handshaking it is the handshake; it is over
/// when the handshake is. Each failure ends it with its own error. An event
/// that does not answer the open request changes nothing.
pub open spec fn connect_step<T>(s: ConnectFuture, event: ConnectEvent<T>) -> (ConnectFuture, ConnectRequest<T>) {
    match (s, event) {
        (ConnectFuture::Connecting, ConnectEvent::Transport) => (
            ConnectFuture::Handshaking(Handshake::Handshaking),
            ConnectRequest::StartHandshake,
        ),
        (ConnectFuture::Connecting, ConnectEvent::TransportFailed(err)) => (
            ConnectFuture::Done,
            ConnectRequest::Fail(ConnectError::Connect(err)),
        ),
        (ConnectFuture::Handshaking(h), ConnectEvent::Handshake(ev)) => {
            let (h1, request) = handshake_step(h, ev);
            (
                if h1 is Done {
                    ConnectFuture::Done
                } else {
                    ConnectFuture::Handshaking(h1)
                },
                connect_lift(request),
            )
        },
        _ => (s, connect_open_request(s)),
    }
}

/// How far the setup has come: connecting, handshaking, over.
pub open spec fn connect_progress(s: ConnectFuture) -> nat {
    match s {
        ConnectFuture::Connecting => 0,
        ConnectFuture::Handshaking(_) => 1,
        ConnectFuture::Done => 2,
    }
}

/// The setup only moves forward: no event takes it back from handshaking
/// to connecting, or out of its end.
pub proof fn law_setup_moves_forward<T>(s: ConnectFuture, event: ConnectEvent<T>)
    ensures
        connect_progress(s) <= connect_progress(connect_step(s, event).0),
{
}

impl ConnectFuture {
    /// A setup that has just begun.
    pub fn new() -> (c: ConnectFuture)
        ensures
            c == ConnectFuture::Connecting,
    {
        ConnectFuture::Connecting
    }

    fn lift<T>(request: HandshakeRequest) -> (r: ConnectRequest<T>)
        ensures
            r == connect_lift::<T>(request),
    {
        match request {
            HandshakeRequest::PollHandshake => ConnectRequest::PollHandshake,
            HandshakeRequest::SpawnConnection => ConnectRequest::SpawnConnection,
            HandshakeRequest::Connected => ConnectRequest::Connected,
            HandshakeRequest::Fail(err) => ConnectRequest::Fail(ConnectError::Handshake(err)),
        }
    }

    /// The request that stands open.
    pub fn open_request<T>(&self) -> (request: ConnectRequest<T>)
        ensures
            request == connect_open_request::<T>(*self),
    {
        match self {
            ConnectFuture::Connecting => ConnectRequest::PollTransport,
            ConnectFuture::Handshaking(h) => Self::lift(h.open_request()),
            ConnectFuture::Done => ConnectRequest::Connected,
        }
    }

    /// Take one event, and say what to do next.
    pub fn step<T>(&mut self, event: ConnectEvent<T>) -> (request: ConnectRequest<T>)
        ensures
            (*final(self), request) == connect_step(*old(self), event),
    {
        let current = *self;
        match current {
            ConnectFuture::Connecting => match event {
                ConnectEvent::Transport => {
                    *self = ConnectFuture::Handshaking(Handshake::new());
                    ConnectRequest::StartHandshake
                },
                ConnectEvent::TransportFailed(err) => {
                    *self = ConnectFuture::Done;
                    ConnectRequest::Fail(ConnectError::Connect(err))
                },
                _ => current.open_request(),
            },
            ConnectFuture::Handshaking(h) => match event {
                ConnectEvent::Handshake(ev) => {
                    let mut h1 = h;
                    let request = h1.step(ev);
                    *self = match h1 {
                        Handshake::Done => ConnectFuture::Done,
                        _ => ConnectFuture::Handshaking(h1),
                    };
                    Self::lift(request)
                },
                _ => current.open_request(),
            },
            ConnectFuture::Done => current.open_request(),
        }
    }
}

} // verus!
