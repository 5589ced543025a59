//! The server session: handshake, then accept and dispatch while the service
//! is ready, and a graceful shutdown once the service or the executor fails.
//!
//! The session performs no work itself. It answers each event with at most
//! one signal to the connection and with the request whose answer it wants
//! next; its driver performs both and hands the answer back.

use vstd::prelude::*;

verus! {

/// Why a server connection failed.
pub enum ServerError<I, E> {
    /// The HTTP/2 handshake failed.
    Handshake(h2::Error),
    /// The connection failed after the handshake.
    Protocol(h2::Error),
    /// No service could be made for the connection.
    NewService(I),
    /// The service failed.
    Service(E),
    /// A task could not be spawned.
    Execute,
}

impl<I, E> ServerError<I, E> {
    /// A short description of the kind of failure.
    pub fn description(&self) -> (text: &'static str)
        ensures
            text@ == match self {
                ServerError::Handshake(_) => "error occurred during HTTP/2.0 handshake"@,
                ServerError::Protocol(_) => "error produced by HTTP/2.0 stream"@,
                ServerError::NewService(_) => "error occured while obtaining service"@,
                ServerError::Service(_) => "error returned by service"@,
                ServerError::Execute => "error occurred while attempting to spawn a task"@,
            },
    {
        match self {
            ServerError::Handshake(_) => "error occurred during HTTP/2.0 handshake",
            ServerError::Protocol(_) => "error produced by HTTP/2.0 stream",
            ServerError::NewService(_) => "error occured while obtaining service",
            ServerError::Service(_) => "error returned by service",
            ServerError::Execute => "error occurred while attempting to spawn a task",
        }
    }
}

/// Where the session is.
pub enum State<I, E> {
    /// The handshake and the making of the service are under way.
    Init,
    /// Connection and service are there; requests are accepted.
    Ready,
    /// The connection was told to shut down after this error; the session
    /// waits for it to close.
    GoAway(ServerError<I, E>),
    /// Everything is closed.
    Done,
}

/// The answer that the session waits for.
#[derive(Clone, Copy, Debug, PartialEq, Eq, Structural)]
pub enum Waiting {
    /// The task is suspended, or was never polled: the next poll.
    Wake,
    /// The end of the handshake and of the making of the service.
    Init,
    /// Whether the service is ready.
    Service,
    /// The next inbound stream.
    Accept,
    /// Whether the task for the dispatched request could be spawned.
    Spawn,
    /// The closing of the connection.
    Close,
}

/// What the driver reports to the session.
pub enum ServerEvent<I, E> {
    /// The task was polled: for the first time, or after a wake-up.
    Polled,
    /// The handshake is done and the service is made.
    Initialized,
    /// No service could be made.
    ServiceInitFailed(I),
    /// The service can take a request.
    ServiceReady,
    /// The service cannot take a request yet.
    ServiceNotReady,
    /// The service failed for good.
    ServiceFailed(E),
    /// The connection handed over an inbound stream.
    Accepted,
    /// The connection has no more inbound streams.
    Exhausted,
    /// The task for the dispatched request was spawned.
    Spawned,
    /// The executor refused the task.
    SpawnFailed,
    /// The connection is closed.
    Closed,
    /// What was asked for is not ready yet; the task will be woken.
    Pending,
    /// The connection failed.
    Failed(h2::Error),
}

/// What the session wants from its driver next.
pub enum ServerRequest<I, E> {
    /// Poll the handshake and the making of the service: `Initialized`,
    /// `ServiceInitFailed`, `Failed` or `Pending`.
    PollInit,
    /// Poll the service for readiness: `ServiceReady`, `ServiceNotReady` or
    /// `ServiceFailed`.
    PollService,
    /// Poll the connection for the next inbound stream: `Accepted`,
    /// `Exhausted`, `Failed` or `Pending`.
    Accept,
    /// Hand the accepted request to the service and spawn the task that
    /// sends its response: `Spawned` or `SpawnFailed`.
    Dispatch,
    /// Poll the connection for its closing only: `Closed`, `Failed` or
    /// `Pending`.
    PollClose,
    /// Suspend the task; report `Polled` when it runs again.
    Yield,
    /// The connection is over, with this result.
    Finished(Result<(), ServerError<I, E>>),
}

/// The session's answer to one event.
pub struct ServerStep<I, E> {
    /// Whether to tell the connection first to shut down gracefully.
    pub shutdown: bool,
    /// What to do after that.
    pub next: ServerRequest<I, E>,
}

/// The state of one server connection.
pub struct Connection<I, E> {
    pub state: State<I, E>,
    pub awaiting: Waiting,
}

/// The session before its first poll.
pub open spec fn server_initial<I, E>() -> Connection<I, E> {
    Connection { state: State::Init, awaiting: Waiting::Wake }
}

/// The session when everything is closed.
pub open spec fn server_done<I, E>() -> Connection<I, E> {
    Connection { state: State::Done, awaiting: Waiting::Wake }
}

/// The request that asks for what is awaited.
pub open spec fn server_request_of<I, E>(awaiting: Waiting) -> ServerRequest<I, E> {
    match awaiting {
        Waiting::Wake => ServerRequest::Yield,
        Waiting::Init => ServerRequest::PollInit,
        Waiting::Service => ServerRequest::PollService,
        Waiting::Accept => ServerRequest::Accept,
        Waiting::Spawn => ServerRequest::Dispatch,
        Waiting::Close => ServerRequest::PollClose,
    }
}

/// Go on in `state`, asking for `awaiting`, with no signal to the connection.
pub open spec fn server_ask<I, E>(state: State<I, E>, awaiting: Waiting) -> (
    Connection<I, E>,
    ServerStep<I, E>,
) {
    (Connection { state, awaiting }, ServerStep { shutdown: false, next: server_request_of(awaiting) })
}

/// Stop with `result`.
pub open spec fn server_finish<I, E>(result: Result<(), ServerError<I, E>>) -> (
    Connection<I, E>,
    ServerStep<I, E>,
) {
    (server_done(), ServerStep { shutdown: false, next: ServerRequest::Finished(result) })
}

/// Tell the connection to shut down, keep `error`, and wait for the closing.
pub open spec fn server_go_away<I, E>(error: ServerError<I, E>) -> (Connection<I, E>, ServerStep<I, E>) {
    (
        Connection { state: State::GoAway(error), awaiting: Waiting::Close },
        ServerStep { shutdown: true, next: ServerRequest::PollClose },
    )
}

/// The session's transition: the state after `event`, and the answer to it.
///
/// A failure of the connection ends the session in every state: as a
/// handshake error before the handshake is done, as a protocol error after
/// it. A closed session answers everything with `Finished(Ok)`. An event that
/// does not answer what is awaited changes nothing, and the request is
/// repeated.
pub open spec fn server_step<I, E>(s: Connection<I, E>, event: ServerEvent<I, E>) -> (
    Connection<I, E>,
    ServerStep<I, E>,
) {
    match s.state {
        State::Done => server_finish(Ok(())),
        State::Init => match (s.awaiting, event) {
            (_, ServerEvent::Failed(err)) => server_finish(Err(ServerError::Handshake(err))),
            (Waiting::Wake, ServerEvent::Polled) => server_ask(State::Init, Waiting::Init),
            (Waiting::Init, ServerEvent::Initialized) => server_ask(State::Ready, Waiting::Service),
            (Waiting::Init, ServerEvent::ServiceInitFailed(err)) => server_finish(
                Err(ServerError::NewService(err)),
            ),
            (Waiting::Init, ServerEvent::Pending) => server_ask(State::Init, Waiting::Wake),
            _ => server_ask(s.state, s.awaiting),
        },
        State::Ready => match (s.awaiting, event) {
            (_, ServerEvent::Failed(err)) => server_finish(Err(ServerError::Protocol(err))),
            (Waiting::Wake, ServerEvent::Polled) => server_ask(State::Ready, Waiting::Service),
            (Waiting::Service, ServerEvent::ServiceReady) => server_ask(
                State::Ready,
                Waiting::Accept,
            ),
            (Waiting::Service, ServerEvent::ServiceNotReady) => server_ask(
                State::Ready,
                Waiting::Close,
            ),
            (Waiting::Service, ServerEvent::ServiceFailed(err)) => server_go_away(
                ServerError::Service(err),
            ),
            (Waiting::Accept, ServerEvent::Accepted) => server_ask(State::Ready, Waiting::Spawn),
            (Waiting::Accept, ServerEvent::Exhausted) => server_finish(Ok(())),
            (Waiting::Accept, ServerEvent::Pending) => server_ask(State::Ready, Waiting::Wake),
            (Waiting::Spawn, ServerEvent::Spawned) => server_ask(State::Ready, Waiting::Service),
            (Waiting::Spawn, ServerEvent::SpawnFailed) => server_go_away(ServerError::Execute),
            (Waiting::Close, ServerEvent::Closed) => server_finish(Ok(())),
            (Waiting::Close, ServerEvent::Pending) => server_ask(State::Ready, Waiting::Wake),
            _ => server_ask(s.state, s.awaiting),
        },
        State::GoAway(error) => match (s.awaiting, event) {
            (_, ServerEvent::Failed(err)) => server_finish(Err(ServerError::Protocol(err))),
            (Waiting::Wake, ServerEvent::Polled) => server_ask(s.state, Waiting::Close),
            (Waiting::Close, ServerEvent::Closed) => server_finish(Err(error)),
            (Waiting::Close, ServerEvent::Pending) => server_ask(s.state, Waiting::Wake),
            _ => server_ask(s.state, s.awaiting),
        },
    }
}

/// The session after a graceful shutdown was asked for, and whether the
/// connection is to be told. Before the handshake is done there is nothing
/// to shut down, and the session is simply over. With a connection, the
/// connection is told and the session goes on until it closes, so that
/// streams in flight are not abandoned. After that nothing changes.
pub open spec fn server_shutdown<I, E>(s: Connection<I, E>) -> (Connection<I, E>, bool) {
    match s.state {
        State::Init => (server_done(), false),
        State::Ready => (s, true),
        _ => (s, false),
    }
}

/// The session after a run of events, from `s`.
pub open spec fn server_after<I, E>(s: Connection<I, E>, events: Seq<ServerEvent<I, E>>) -> Connection<
    I,
    E,
>
    decreases events.len(),
{
    if events.len() == 0 {
        s
    } else {
        server_after(server_step(s, events[0]).0, events.drop_first())
    }
}

/// The requests that the session makes during a run of events, in order.
pub open spec fn server_requests<I, E>(s: Connection<I, E>, events: Seq<ServerEvent<I, E>>) -> Seq<
    ServerRequest<I, E>,
>
    decreases events.len(),
{
    if events.len() == 0 {
        Seq::empty()
    } else {
        let (s1, step) = server_step(s, events[0]);
        seq![step.next] + server_requests(s1, events.drop_first())
    }
}

/// How far the session has come: from the handshake over serving and
/// closing to closed.
pub open spec fn server_progress<I, E>(state: State<I, E>) -> nat {
    match state {
        State::Init => 0,
        State::Ready => 1,
        State::GoAway(_) => 2,
        State::Done => 3,
    }
}

/// The session only moves forward: whatever it is told, in whatever order,
/// it never returns to a state that it has left, and a graceful shutdown
/// does not take it back either.
pub proof fn law_session_moves_forward<I, E>(s: Connection<I, E>, events: Seq<ServerEvent<I, E>>)
    ensures
        server_progress(s.state) <= server_progress(server_after(s, events).state),
        server_progress(s.state) <= server_progress(server_shutdown(s).0.state),
    decreases events.len(),
{
    if events.len() > 0 {
        law_session_moves_forward(server_step(s, events[0]).0, events.drop_first());
    }
}

/// Whether the request takes a new inbound stream or dispatches one.
pub open spec fn takes_stream<I, E>(request: ServerRequest<I, E>) -> bool {
    request is Accept || request is Dispatch
}

/// Whether the service never reports that it is ready during the run.
pub open spec fn never_ready<I, E>(events: Seq<ServerEvent<I, E>>) -> bool
    decreases events.len(),
{
    events.len() == 0 || (!(events[0] is ServiceReady) && never_ready(events.drop_first()))
}

/// Whether the session neither waits for an inbound stream nor for the
/// spawning of a dispatched one.
pub open spec fn between_streams<I, E>(s: Connection<I, E>) -> bool {
    !(s.state is Init) && !(s.awaiting is Accept) && !(s.awaiting is Spawn)
}

/// While the service is not ready no stream is accepted or dispatched: in a
/// run in which the service never reports that it is ready, begun between
/// two streams, no request of the session takes or dispatches a stream.
pub proof fn law_unready_service_accepts_nothing<I, E>(
    s: Connection<I, E>,
    events: Seq<ServerEvent<I, E>>,
)
    requires
        between_streams(s),
        never_ready(events),
    ensures
        forall|i: int|
            0 <= i < server_requests(s, events).len() ==> !takes_stream(
                #[trigger] server_requests(s, events)[i],
            ),
        between_streams(server_after(s, events)),
    decreases events.len(),
{
    if events.len() > 0 {
        let (s1, step) = server_step(s, events[0]);
        let rest = events.drop_first();
        law_unready_service_accepts_nothing(s1, rest);
        assert forall|i: int| 0 <= i < server_requests(s, events).len() implies !takes_stream(
            #[trigger] server_requests(s, events)[i],
        ) by {
            if i > 0 {
                assert(server_requests(s, events)[i] == server_requests(s1, rest)[i - 1]);
            }
        }
    }
}

/// A service that is not ready does not keep the session from seeing the
/// connection close: told that the service is not ready, a ready session
/// asks for the closing of the connection only, and ends in success when it
/// is told of it.
pub proof fn law_unready_service_watches_close<I, E>(s: Connection<I, E>)
    requires
        s.state is Ready,
        s.awaiting is Service,
    ensures
        ({
            let (s1, step) = server_step(s, ServerEvent::ServiceNotReady);
            &&& s1.state is Ready
            &&& !step.shutdown
            &&& step.next is PollClose
            &&& server_step(s1, ServerEvent::Closed).1.next == ServerRequest::<I, E>::Finished(
                Ok(()),
            )
            &&& server_step(s1, ServerEvent::Pending).1.next is Yield
        }),
{
}

/// Once the session waits for the connection to go away it takes no more
/// streams, whatever it is told, and it stays in that state until it is
/// closed.
pub proof fn law_go_away_accepts_nothing<I, E>(s: Connection<I, E>, events: Seq<ServerEvent<I, E>>)
    requires
        s.state is GoAway || s.state is Done,
        between_streams(s),
    ensures
        forall|i: int|
            0 <= i < server_requests(s, events).len() ==> !takes_stream(
                #[trigger] server_requests(s, events)[i],
            ),
        server_after(s, events).state is GoAway || server_after(s, events).state is Done,
        between_streams(server_after(s, events)),
    decreases events.len(),
{
    if events.len() > 0 {
        let (s1, step) = server_step(s, events[0]);
        let rest = events.drop_first();
        law_go_away_accepts_nothing(s1, rest);
        assert forall|i: int| 0 <= i < server_requests(s, events).len() implies !takes_stream(
            #[trigger] server_requests(s, events)[i],
        ) by {
            if i > 0 {
                assert(server_requests(s, events)[i] == server_requests(s1, rest)[i - 1]);
            }
        }
    }
}

/// A session with a connection ends only when the connection does: if a
/// step of a ready or a closing session finishes it, then the event told of
/// a closed, an exhausted or a failed connection. In the closing session the
/// result is the error it kept, or the failure of the connection.
pub proof fn law_session_ends_with_connection<I, E>(s: Connection<I, E>, event: ServerEvent<I, E>)
    requires
        s.state is Ready || s.state is GoAway,
        server_step(s, event).1.next is Finished,
    ensures
        event is Closed || event is Exhausted || event is Failed,
        server_step(s, event).0.state is Done,
        s.state matches State::GoAway(error) ==> (event is Closed ==> server_step(
            s,
            event,
        ).1.next == ServerRequest::Finished(Err(error))),
{
}

/// A graceful shutdown of an active connection abandons nothing: the
/// connection is told, the session stays as it was, and it resolves only
/// once the connection reports that it is closed, exhausted or failed.
pub proof fn law_shutdown_waits_for_close<I, E>(s: Connection<I, E>, event: ServerEvent<I, E>)
    requires
        s.state is Ready,
    ensures
        server_shutdown(s) == (s, true),
        server_step(server_shutdown(s).0, event).1.next is Finished ==> (event is Closed
            || event is Exhausted || event is Failed),
{
}

impl<I, E> Connection<I, E> {
    /// A new session, for a connection whose handshake has not begun.
    pub fn new() -> (c: Connection<I, E>)
        ensures
            c == server_initial::<I, E>(),
    {
        Connection { state: State::Init, awaiting: Waiting::Wake }
    }

    /// Whether everything is closed.
    pub fn is_done(&self) -> (d: bool)
        ensures
            d == (self.state is Done),
    {
        match self.state {
            State::Done => true,
            _ => false,
        }
    }

    /// Start a graceful shutdown. Says whether the connection is to be told;
    /// the session must still be polled until it closes.
    pub fn graceful_shutdown(&mut self) -> (signal: bool)
        ensures
            (*final(self), signal) == server_shutdown(*old(self)),
    {
        match self.state {
            State::Init => {
                self.state = State::Done;
                self.awaiting = Waiting::Wake;
                false
            },
            State::Ready => true,
            _ => false,
        }
    }

    fn ask(state: State<I, E>, awaiting: Waiting) -> (r: (Connection<I, E>, ServerStep<I, E>))
        ensures
            r == server_ask(state, awaiting),
    {
        let next = match awaiting {
            Waiting::Wake => ServerRequest::Yield,
            Waiting::Init => ServerRequest::PollInit,
            Waiting::Service => ServerRequest::PollService,
            Waiting::Accept => ServerRequest::Accept,
            Waiting::Spawn => ServerRequest::Dispatch,
            Waiting::Close => ServerRequest::PollClose,
        };
        (Connection { state, awaiting }, ServerStep { shutdown: false, next })
    }

    fn finish(result: Result<(), ServerError<I, E>>) -> (r: (Connection<I, E>, ServerStep<I, E>))
        ensures
            r == server_finish(result),
    {
        (
            Connection { state: State::Done, awaiting: Waiting::Wake },
            ServerStep { shutdown: false, next: ServerRequest::Finished(result) },
        )
    }

    fn go_away(error: ServerError<I, E>) -> (r: (Connection<I, E>, ServerStep<I, E>))
        ensures
            r == server_go_away(error),
    {
        (
            Connection { state: State::GoAway(error), awaiting: Waiting::Close },
            ServerStep { shutdown: true, next: ServerRequest::PollClose },
        )
    }

    /// The session after `event`, and the answer to it.
    pub fn advance(self, event: ServerEvent<I, E>) -> (r: (Connection<I, E>, ServerStep<I, E>))
        ensures
            r == server_step(self, event),
    {
        let awaiting = self.awaiting;
        match self.state {
            State::Done => Self::finish(Ok(())),
            State::Init => match event {
                ServerEvent::Failed(err) => Self::finish(Err(ServerError::Handshake(err))),
                ServerEvent::Polled => match awaiting {
                    Waiting::Wake => Self::ask(State::Init, Waiting::Init),
                    _ => Self::ask(State::Init, awaiting),
                },
                ServerEvent::Initialized => match awaiting {
                    Waiting::Init => Self::ask(State::Ready, Waiting::Service),
                    _ => Self::ask(State::Init, awaiting),
                },
                ServerEvent::ServiceInitFailed(err) => match awaiting {
                    Waiting::Init => Self::finish(Err(ServerError::NewService(err))),
                    _ => Self::ask(State::Init, awaiting),
                },
                ServerEvent::Pending => match awaiting {
                    Waiting::Init => Self::ask(State::Init, Waiting::Wake),
                    _ => Self::ask(State::Init, awaiting),
                },
                _ => Self::ask(State::Init, awaiting),
            },
            State::Ready => match event {
                ServerEvent::Failed(err) => Self::finish(Err(ServerError::Protocol(err))),
                ServerEvent::Polled => match awaiting {
                    Waiting::Wake => Self::ask(State::Ready, Waiting::Service),
                    _ => Self::ask(State::Ready, awaiting),
                },
                ServerEvent::ServiceReady => match awaiting {
                    Waiting::Service => Self::ask(State::Ready, Waiting::Accept),
                    _ => Self::ask(State::Ready, awaiting),
                },
                ServerEvent::ServiceNotReady => match awaiting {
                    Waiting::Service => Self::ask(State::Ready, Waiting::Close),
                    _ => Self::ask(State::Ready, awaiting),
                },
                ServerEvent::ServiceFailed(err) => match awaiting {
                    Waiting::Service => Self::go_away(ServerError::Service(err)),
                    _ => Self::ask(State::Ready, awaiting),
                },
                ServerEvent::Accepted => match awaiting {
                    Waiting::Accept => Self::ask(State::Ready, Waiting::Spawn),
                    _ => Self::ask(State::Ready, awaiting),
                },
                ServerEvent::Exhausted => match awaiting {
                    Waiting::Accept => Self::finish(Ok(())),
                    _ => Self::ask(State::Ready, awaiting),
                },
                ServerEvent::Spawned => match awaiting {
                    Waiting::Spawn => Self::ask(State::Ready, Waiting::Service),
                    _ => Self::ask(State::Ready, awaiting),
                },
                ServerEvent::SpawnFailed => match awaiting {
                    Waiting::Spawn => Self::go_away(ServerError::Execute),
                    _ => Self::ask(State::Ready, awaiting),
                },
                ServerEvent::Closed => match awaiting {
                    Waiting::Close => Self::finish(Ok(())),
                    _ => Self::ask(State::Ready, awaiting),
                },
                ServerEvent::Pending => match awaiting {
                    Waiting::Accept => Self::ask(State::Ready, Waiting::Wake),
                    Waiting::Close => Self::ask(State::Ready, Waiting::Wake),
                    _ => Self::ask(State::Ready, awaiting),
                },
                _ => Self::ask(State::Ready, awaiting),
            },
            State::GoAway(error) => match event {
                ServerEvent::Failed(err) => Self::finish(Err(ServerError::Protocol(err))),
                ServerEvent::Polled => match awaiting {
                    Waiting::Wake => Self::ask(State::GoAway(error), Waiting::Close),
                    _ => Self::ask(State::GoAway(error), awaiting),
                },
                ServerEvent::Closed => match awaiting {
                    Waiting::Close => Self::finish(Err(error)),
                    _ => Self::ask(State::GoAway(error), awaiting),
                },
                ServerEvent::Pending => match awaiting {
                    Waiting::Close => Self::ask(State::GoAway(error), Waiting::Wake),
                    _ => Self::ask(State::GoAway(error), awaiting),
                },
                _ => Self::ask(State::GoAway(error), awaiting),
            },
        }
    }

    /// Take one event, and say what to do next.
    pub fn step(&mut self, event: ServerEvent<I, E>) -> (step: ServerStep<I, E>)
        ensures
            (*final(self), step) == server_step(*old(self), event),
    {
        let mut current = Connection { state: State::Done, awaiting: Waiting::Wake };
        std::mem::swap(self, &mut current);
        let (after, step) = current.advance(event);
        *self = after;
        step
    }
    /// Take a run of events, one after the other, and collect the requests
    /// that answer them.
    pub fn replay(&mut self, events: Vec<ServerEvent<I, E>>) -> (requests: Vec<ServerRequest<I, E>>)
        ensures
            requests@ == server_requests(*old(self), events@),
            *final(self) == server_after(*old(self), events@),
    {
        let ghost start = *self;
        let ghost all = events@;
        let mut requests: Vec<ServerRequest<I, E>> = Vec::new();
        proof {
            assert(all.skip(0) == all);
            assert(requests@ + server_requests(start, all) == server_requests(start, all));
        }
        for event in iter: events.into_iter()
            invariant
                iter.seq() == all,
                requests@ + server_requests(*self, all.skip(iter.index() as int)) == server_requests(
                    start,
                    all,
                ),
                server_after(*self, all.skip(iter.index() as int)) == server_after(start, all),
        {
            let ghost left = all.skip(iter.index() as int);
            assert(left[0] == event);
            assert(left.drop_first() == all.skip(iter.index() + 1));
            let ghost before = requests@;
            let step = self.step(event);
            requests.push(step.next);
            assert(requests@ == before + seq![step.next]);
            assert(requests@ + server_requests(*self, left.drop_first()) == server_requests(start, all));
        }
        assert(all.skip(all.len() as int) == Seq::<ServerEvent<I, E>>::empty());
        requests
    }
}

} // verus!
