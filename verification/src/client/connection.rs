//! One call on a client session, the handshake that sets the session up,
//! and their errors.

use crate::framing::{error_reason, h2_error_from_reason, h2_error_reason};
use crate::poll::Async;
use crate::reason::Reason;
use vstd::prelude::*;

verus! {

/// What went wrong with a call.
pub enum Kind {
    /// The framing layer failed.
    Inner(h2::Error),
    /// The task that flushes the request body could not be scheduled.
    Spawn,
}

/// Why a call on a client session failed.
pub struct ClientError {
    pub kind: Kind,
}

/// The reason that a call's error carries: that of the framing layer's
/// error, and none where the call could not be scheduled.
pub open spec fn client_error_reason(e: ClientError) -> Option<Reason> {
    match e.kind {
        Kind::Inner(err) => match error_reason(err) {
            Some(code) => Some(Reason { code }),
            None => None,
        },
        Kind::Spawn => None,
    }
}

impl ClientError {
    /// The error of a call that the framing layer failed.
    pub fn from_h2(src: h2::Error) -> (e: ClientError)
        ensures
            e.kind == Kind::Inner(src),
    {
        ClientError { kind: Kind::Inner(src) }
    }

    /// The error of a call that failed with `reason`.
    pub fn from_reason(reason: Reason) -> (e: ClientError)
        ensures
            e.kind is Inner,
            client_error_reason(e) == Some(reason),
    {
        ClientError { kind: Kind::Inner(h2_error_from_reason(reason.code)) }
    }

    /// The error of a call whose request body could not be scheduled.
    pub fn spawn() -> (e: ClientError)
        ensures
            e.kind is Spawn,
    {
        ClientError { kind: Kind::Spawn }
    }

    /// The reason of the error, if the peer or the protocol caused it.
    pub fn reason(&self) -> (r: Option<Reason>)
        ensures
            r == client_error_reason(*self),
    {
        match &self.kind {
            Kind::Inner(err) => match h2_error_reason(err) {
                Some(code) => Some(Reason::new(code)),
                None => None,
            },
            Kind::Spawn => None,
        }
    }

    /// Whether the call failed because its request body could not be
    /// scheduled.
    pub fn is_spawn(&self) -> (b: bool)
        ensures
            b == (self.kind is Spawn),
    {
        match &self.kind {
            Kind::Spawn => true,
            Kind::Inner(_) => false,
        }
    }
}

/// Why the handshake of a client session failed.
pub enum HandshakeError {
    /// The HTTP/2 handshake itself failed.
    Proto(h2::Error),
    /// The task that drives the connection could not be scheduled.
    Execute,
}

impl HandshakeError {
    /// A short description of the kind of failure.
    pub fn description(&self) -> (text: &'static str)
        ensures
            text@ == match self {
                HandshakeError::Proto(_) => "error attempting to perform HTTP/2 handshake"@,
                HandshakeError::Execute => "error attempting to execute a worker task"@,
            },
    {
        match self {
            HandshakeError::Proto(_) => "error attempting to perform HTTP/2 handshake",
            HandshakeError::Execute => "error attempting to execute a worker task",
        }
    }
}

/// What a poll for the readiness of a session returns: that of the framing
/// layer, with its error as a call's error.
pub fn ready_poll(polled: Result<Async<()>, h2::Error>) -> (r: Result<Async<()>, ClientError>)
    ensures
        r == match polled {
            Ok(ready) => Ok::<Async<()>, ClientError>(ready),
            Err(err) => Err(ClientError { kind: Kind::Inner(err) }),
        },
{
    match polled {
        Ok(ready) => Ok(ready),
        Err(err) => Err(ClientError::from_h2(err)),
    }
}

/// Where a call is.
#[derive(Clone, Copy, Debug, PartialEq, Eq, Structural)]
pub enum Call {
    /// The request head was handed to the framing layer; `end_of_stream`
    /// says whether it ends the stream.
    Sending { end_of_stream: bool },
    /// The task that flushes the request body was handed to the executor.
    Spawning,
    /// The call has its response future, or has failed.
    Done,
}

/// What the driver reports to a call.
pub enum CallEvent {
    /// The framing layer took the request head.
    RequestSent,
    /// The framing layer refused the request.
    RequestFailed(h2::Error),
    /// The executor took the flush task.
    Spawned,
    /// The executor refused the flush task.
    SpawnFailed,
}

/// What a call wants from its driver next.
pub enum CallRequest {
    /// Send the request head, ending the stream with it or not:
    /// `RequestSent` or `RequestFailed`.
    SendRequest { end_of_stream: bool },
    /// Spawn an engine that flushes the request body: `Spawned` or
    /// `SpawnFailed`.
    SpawnFlush,
    /// Hand out the future of the response.
    Respond,
    /// Hand out a future that fails with this error, and let go of the
    /// stream.
    Fail(ClientError),
}

/// The beginning of a call: the request is split into head and body, and
/// the head is sent. It ends the stream if the body reports that it has
/// ended already.
pub open spec fn call_begin(end_of_stream: bool) -> (Call, CallRequest) {
    (Call::Sending { end_of_stream }, CallRequest::SendRequest { end_of_stream })
}

/// The request that stands open in a call.
pub open spec fn call_open_request(s: Call) -> CallRequest {
    match s {
        Call::Sending { end_of_stream } => CallRequest::SendRequest { end_of_stream },
        Call::Spawning => CallRequest::SpawnFlush,
        Call::Done => CallRequest::Respond,
    }
}

/// A call's transition: the state after `event`, and the answer to it.
///
/// A refused request fails the call with the framing layer's error. A head
/// that ended the stream is followed by the response alone. Any other is
/// followed by the spawning of a flush engine for the body, and a refusal
/// to spawn fails the call with the scheduling error. An event that does
/// not answer the open request changes nothing.
pub open spec fn call_step(s: Call, event: CallEvent) -> (Call, CallRequest) {
    match (s, event) {
        (Call::Sending { end_of_stream }, CallEvent::RequestSent) => {
            if end_of_stream {
                (Call::Done, CallRequest::Respond)
            } else {
                (Call::Spawning, CallRequest::SpawnFlush)
            }
        },
        (Call::Sending { .. }, CallEvent::RequestFailed(err)) => (
            Call::Done,
            CallRequest::Fail(ClientError { kind: Kind::Inner(err) }),
        ),
        (Call::Spawning, CallEvent::Spawned) => (Call::Done, CallRequest::Respond),
        (Call::Spawning, CallEvent::SpawnFailed) => (
            Call::Done,
            CallRequest::Fail(ClientError { kind: Kind::Spawn }),
        ),
        _ => (s, call_open_request(s)),
    }
}

/// The requests that a call makes during a run of events, in order.
pub open spec fn call_requests(s: Call, events: Seq<CallEvent>) -> Seq<CallRequest>
    decreases events.len(),
{
    if events.len() == 0 {
        Seq::empty()
    } else {
        let (s1, request) = call_step(s, events[0]);
        seq![request] + call_requests(s1, events.drop_first())
    }
}

/// A request whose body has ended already is a head and nothing more: the
/// head is sent with the end of the stream set, and whatever follows, no
/// flush engine is ever spawned for it.
pub proof fn law_ended_request_spawns_no_flush(events: Seq<CallEvent>)
    ensures
        call_begin(true).1 == (CallRequest::SendRequest { end_of_stream: true }),
        forall|i: int|
            0 <= i < call_requests(call_begin(true).0, events).len() ==> !(
            #[trigger] call_requests(call_begin(true).0, events)[i] is SpawnFlush),
{
    lemma_no_flush(call_begin(true).0, events);
}

proof fn lemma_no_flush(s: Call, events: Seq<CallEvent>)
    requires
        s == (Call::Sending { end_of_stream: true }) || s is Done,
    ensures
        forall|i: int|
            0 <= i < call_requests(s, events).len() ==> !(#[trigger] call_requests(s, events)[i]
                is SpawnFlush),
    decreases events.len(),
{
    if events.len() > 0 {
        let (s1, request) = call_step(s, events[0]);
        let rest = events.drop_first();
        lemma_no_flush(s1, rest);
        assert forall|i: int| 0 <= i < call_requests(s, events).len() implies !(
        #[trigger] call_requests(s, events)[i] is SpawnFlush) by {
            if i > 0 {
                assert(call_requests(s, events)[i] == call_requests(s1, rest)[i - 1]);
            }
        }
    }
}

impl Call {
    /// Begin a call. `end_of_stream` is what the request body reports of
    /// itself at this moment.
    pub fn begin(end_of_stream: bool) -> (r: (Call, CallRequest))
        ensures
            r == call_begin(end_of_stream),
    {
        (Call::Sending { end_of_stream }, CallRequest::SendRequest { end_of_stream })
    }

    /// The request that stands open.
    pub fn open_request(&self) -> (request: CallRequest)
        ensures
            request == call_open_request(*self),
    {
        match self {
            Call::Sending { end_of_stream } => CallRequest::SendRequest {
                end_of_stream: *end_of_stream,
            },
            Call::Spawning => CallRequest::SpawnFlush,
            Call::Done => CallRequest::Respond,
        }
    }

    /// Take one event, and say what to do next.
    pub fn step(&mut self, event: CallEvent) -> (request: CallRequest)
        ensures
            (*final(self), request) == call_step(*old(self), event),
    {
        let current = *self;
        match current {
            Call::Sending { end_of_stream } => match event {
                CallEvent::RequestSent => {
                    if end_of_stream {
                        *self = Call::Done;
                        CallRequest::Respond
                    } else {
                        *self = Call::Spawning;
                        CallRequest::SpawnFlush
                    }
                },
                CallEvent::RequestFailed(err) => {
                    *self = Call::Done;
                    CallRequest::Fail(ClientError::from_h2(err))
                },
                _ => current.open_request(),
            },
            Call::Spawning => match event {
                CallEvent::Spawned => {
                    *self = Call::Done;
                    CallRequest::Respond
                },
                CallEvent::SpawnFailed => {
                    *self = Call::Done;
                    CallRequest::Fail(ClientError::spawn())
                },
                _ => current.open_request(),
            },
            Call::Done => current.open_request(),
        }
    }
}

/// What a response future holds.
pub enum Inner<F> {
    /// The future of the framing layer that resolves to the response head.
    Inner(F),
    /// The error that the call failed with, until it is handed out.
    Error(Option<ClientError>),
}

/// The future of a call: it resolves when the response head arrives, or
/// fails at once if the call could not be made.
pub struct ResponseFuture<F> {
    pub inner: Inner<F>,
}

impl<F> ResponseFuture<F> {
    /// The future of a call that was made.
    pub fn new(future: F) -> (r: ResponseFuture<F>)
        ensures
            r.inner == Inner::Inner(future),
    {
        ResponseFuture { inner: Inner::Inner(future) }
    }

    /// The future of a call that failed with `error`.
    pub fn failed(error: ClientError) -> (r: ResponseFuture<F>)
        ensures
            r.inner == Inner::<F>::Error(Some(error)),
    {
        ResponseFuture { inner: Inner::Error(Some(error)) }
    }

    /// Whether the call was made, so that a stream belongs to this future.
    pub fn has_stream(&self) -> (b: bool)
        ensures
            b == (self.inner is Inner),
    {
        match &self.inner {
            Inner::Inner(_) => true,
            Inner::Error(_) => false,
        }
    }

    /// The error of a failed call, handed out once: `None` for a call that
    /// was made, and after the error was taken.
    pub fn take_error(&mut self) -> (e: Option<ClientError>)
        ensures
            match old(self).inner {
                Inner::Inner(future) => e is None && final(self).inner == old(self).inner,
                Inner::Error(error) => e == error && final(self).inner == Inner::<F>::Error(None),
            },
    {
        match &mut self.inner {
            Inner::Inner(_) => None,
            Inner::Error(error) => error.take(),
        }
    }
}

/// Where the handshake of a client session is.
#[derive(Clone, Copy, Debug, PartialEq, Eq, Structural)]
pub enum Handshake {
    /// The HTTP/2 handshake is under way.
    Handshaking,
    /// The task that drives the connection was handed to the executor.
    Spawning,
    /// The handshake is over.
    Done,
}

/// What the driver reports to a handshake.
pub enum HandshakeEvent {
    /// The handshake is done: there is a connection and a handle to send
    /// requests on.
    Established,
    /// The handshake failed.
    Failed(h2::Error),
    /// The handshake is not done yet; the task will be woken.
    Pending,
    /// The executor took the task that drives the connection.
    Spawned,
    /// The executor refused that task.
    SpawnFailed,
}

/// What a handshake wants from its driver next.
pub enum HandshakeRequest {
    /// Poll the handshake of the framing layer: `Established`, `Failed` or
    /// `Pending`.
    PollHandshake,
    /// Spawn the task that drives the connection: `Spawned` or
    /// `SpawnFailed`.
    SpawnConnection,
    /// The session is connected: hand out the call handle.
    Connected,
    /// The handshake failed with this error.
    Fail(HandshakeError),
}

/// The request that stands open in a handshake.
pub open spec fn handshake_open_request(s: Handshake) -> HandshakeRequest {
    match s {
        Handshake::Handshaking => HandshakeRequest::PollHandshake,
        Handshake::Spawning => HandshakeRequest::SpawnConnection,
        Handshake::Done => HandshakeRequest::Connected,
    }
}

/// A handshake's transition: the state after `event`, and the answer to it.
///
/// Once the framing layer is done, the task that drives the connection is
/// spawned, once for the session; only then is the session connected. A
/// failed handshake and a refused task each fail the setup with their own
/// error. A handshake that is not ready is polled again when the task
/// wakes. An event that does not answer the open request changes nothing.
pub open spec fn handshake_step(s: Handshake, event: HandshakeEvent) -> (Handshake, HandshakeRequest) {
    match (s, event) {
        (Handshake::Handshaking, HandshakeEvent::Established) => (
            Handshake::Spawning,
            HandshakeRequest::SpawnConnection,
        ),
        (Handshake::Handshaking, HandshakeEvent::Failed(err)) => (
            Handshake::Done,
            HandshakeRequest::Fail(HandshakeError::Proto(err)),
        ),
        (Handshake::Spawning, HandshakeEvent::Spawned) => (
            Handshake::Done,
            HandshakeRequest::Connected,
        ),
        (Handshake::Spawning, HandshakeEvent::SpawnFailed) => (
            Handshake::Done,
            HandshakeRequest::Fail(HandshakeError::Execute),
        ),
        _ => (s, handshake_open_request(s)),
    }
}

impl Handshake {
    /// A handshake that has just begun.
    pub fn new() -> (h: Handshake)
        ensures
            h == Handshake::Handshaking,
    {
        Handshake::Handshaking
    }

    /// The request that stands open.
    pub fn open_request(&self) -> (request: HandshakeRequest)
        ensures
            request == handshake_open_request(*self),
    {
        match self {
            Handshake::Handshaking => HandshakeRequest::PollHandshake,
            Handshake::Spawning => HandshakeRequest::SpawnConnection,
            Handshake::Done => HandshakeRequest::Connected,
        }
    }

    /// Take one event, and say what to do next.
    pub fn step(&mut self, event: HandshakeEvent) -> (request: HandshakeRequest)
        ensures
            (*final(self), request) == handshake_step(*old(self), event),
    {
        let current = *self;
        match current {
            Handshake::Handshaking => match event {
                HandshakeEvent::Established => {
                    *self = Handshake::Spawning;
                    HandshakeRequest::SpawnConnection
                },
                HandshakeEvent::Failed(err) => {
                    *self = Handshake::Done;
                    HandshakeRequest::Fail(HandshakeError::Proto(err))
                },
                _ => current.open_request(),
            },
            Handshake::Spawning => match event {
                HandshakeEvent::Spawned => {
                    *self = Handshake::Done;
                    HandshakeRequest::Connected
                },
                HandshakeEvent::SpawnFailed => {
                    *self = Handshake::Done;
                    HandshakeRequest::Fail(HandshakeError::Execute)
                },
                _ => current.open_request(),
            },
            Handshake::Done => current.open_request(),
        }
    }
}

} // verus!
