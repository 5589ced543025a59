//! The task that answers one dispatched request: it waits for the service's
//! response while watching for a reset of the stream, sends the response
//! head, and then flushes the response body.

use crate::flush::{
    effect_seq, flush_expects, flush_initial, flush_open_request, flush_step,
    law_reset_stops_the_flush, stream_lost, Flush, FlushEffect, FlushError, FlushEvent, FlushRequest,
};
use crate::reason::Reason;
use vstd::prelude::*;

verus! {

/// The answer that the task waits for before the body is flushed.
#[derive(Clone, Copy, Debug, PartialEq, Eq, Structural)]
pub enum RespondWait {
    /// The task is suspended, or was never polled: the next poll.
    Wake,
    /// Whether the peer has reset the stream.
    ResetCheck,
    /// The service's response.
    Response,
    /// Whether the response head could be sent.
    Headers { end_stream: bool },
}

/// Where the task is.
#[derive(Clone, Copy, Debug, PartialEq, Eq, Structural)]
pub enum Phase {
    /// The response is not sent yet.
    Respond(RespondWait),
    /// The head is sent; the body is being flushed by this engine.
    Flush(Flush),
    /// The task is over.
    Done,
}

/// What the driver reports to the task.
pub enum BackgroundEvent<D> {
    /// News of the stream or of the body: a poll of the task, the outcome of
    /// a reset check, anything the flush engine asked for.
    Stream(FlushEvent<D>),
    /// The service responded; `end_stream` says whether the body of the
    /// response reports that it has ended already.
    Response { end_stream: bool },
    /// The service failed.
    ResponseFailed,
    /// The response head was sent.
    HeadersSent,
    /// The response head could not be sent.
    HeadersFailed,
}

/// Why the task failed.
pub enum BackgroundError {
    /// An operation on the stream failed before the body was flushed.
    Stream(h2::Error),
    /// The service failed, and the stream was reset.
    Service,
}

/// What the task wants from its driver next.
pub enum BackgroundRequest {
    /// Poll for a reset without waiting: `Stream(Reset)`, `Stream(NoReset)`
    /// or `Stream(Failed)`.
    PollReset,
    /// Poll the service's response: `Response`, `ResponseFailed` or
    /// `Stream(Pending)`.
    PollResponse,
    /// Send the response head, ending the stream with it or not:
    /// `HeadersSent` or `HeadersFailed`.
    SendHeaders { end_stream: bool },
    /// Whatever the flush engine asks for, its end included; the answer
    /// comes back as `Stream`.
    Flush(FlushRequest),
    /// Suspend the task; report `Stream(Polled)` when it runs again.
    Yield,
    /// The task is over, with this result.
    Finished(Result<(), BackgroundError>),
}

/// The task's answer to one event.
pub struct BackgroundStep<D> {
    /// What to do to the stream first, if anything.
    pub effect: Option<FlushEffect<D>>,
    /// What to do after that.
    pub next: BackgroundRequest,
}

/// The state of the task that answers one request.
#[derive(Clone, Copy, Debug, PartialEq, Eq, Structural)]
pub struct Background {
    pub phase: Phase,
}

/// The task before its first poll.
pub open spec fn background_initial() -> Background {
    Background { phase: Phase::Respond(RespondWait::Wake) }
}

/// The request that asks for what is awaited.
pub open spec fn respond_request_of(wait: RespondWait) -> BackgroundRequest {
    match wait {
        RespondWait::Wake => BackgroundRequest::Yield,
        RespondWait::ResetCheck => BackgroundRequest::PollReset,
        RespondWait::Response => BackgroundRequest::PollResponse,
        RespondWait::Headers { end_stream } => BackgroundRequest::SendHeaders { end_stream },
    }
}

/// Go on before the response, asking for `wait`.
pub open spec fn background_ask<D>(wait: RespondWait) -> (Background, BackgroundStep<D>) {
    (
        Background { phase: Phase::Respond(wait) },
        BackgroundStep { effect: None, next: respond_request_of(wait) },
    )
}

/// Stop with `result`, after `effect`.
pub open spec fn background_finish<D>(
    effect: Option<FlushEffect<D>>,
    result: Result<(), BackgroundError>,
) -> (Background, BackgroundStep<D>) {
    (Background { phase: Phase::Done }, BackgroundStep { effect, next: BackgroundRequest::Finished(result) })
}

/// Hand `event` to the flush engine `f`.
pub open spec fn background_flush<D>(f: Flush, event: FlushEvent<D>) -> (Background, BackgroundStep<D>) {
    let (f1, step) = flush_step(f, event);
    (
        Background { phase: Phase::Flush(f1) },
        BackgroundStep { effect: step.effect, next: BackgroundRequest::Flush(step.next) },
    )
}

/// The task's transition: the state after `event`, and the answer to it.
///
/// Before the response: each turn begins with a check for a reset. A reset
/// ends the task quietly; a failed check ends it with the failure. A failed
/// service resets the stream with the internal reason. A response whose body
/// has ended is sent as a head that ends the stream, and the task is over;
/// any other is sent as a head alone, and the task becomes a flush engine
/// that is polled at once. A head that cannot be sent ends the task quietly.
/// After that the task is the flush engine: news of the stream go to it, and
/// anything else is answered by the request that stands open in it. A task that is over
/// answers everything with `Finished(Ok)`.
pub open spec fn background_step<D>(s: Background, event: BackgroundEvent<D>) -> (
    Background,
    BackgroundStep<D>,
) {
    match s.phase {
        Phase::Done => background_finish(None, Ok(())),
        Phase::Flush(f) => match event {
            BackgroundEvent::Stream(ev) => background_flush(f, ev),
            _ => (
                s,
                BackgroundStep { effect: None, next: BackgroundRequest::Flush(flush_open_request(f)) },
            ),
        },
        Phase::Respond(wait) => match (wait, event) {
            (_, BackgroundEvent::Stream(FlushEvent::Failed(err))) => background_finish(
                None,
                Err(BackgroundError::Stream(err)),
            ),
            (RespondWait::Wake, BackgroundEvent::Stream(FlushEvent::Polled)) => background_ask(
                RespondWait::ResetCheck,
            ),
            (RespondWait::ResetCheck, BackgroundEvent::Stream(FlushEvent::NoReset)) => background_ask(
                RespondWait::Response,
            ),
            (RespondWait::ResetCheck, BackgroundEvent::Stream(FlushEvent::Reset(_))) => background_finish(
                None,
                Ok(()),
            ),
            (RespondWait::Response, BackgroundEvent::Response { end_stream }) => background_ask(
                RespondWait::Headers { end_stream },
            ),
            (RespondWait::Response, BackgroundEvent::ResponseFailed) => background_finish(
                Some(FlushEffect::Reset(Reason::spec_internal_error())),
                Err(BackgroundError::Service),
            ),
            (RespondWait::Response, BackgroundEvent::Stream(FlushEvent::Pending)) => background_ask(
                RespondWait::Wake,
            ),
            (RespondWait::Headers { end_stream }, BackgroundEvent::HeadersSent) => {
                if end_stream {
                    background_finish(None, Ok(()))
                } else {
                    background_flush(flush_initial(), FlushEvent::Polled)
                }
            },
            (RespondWait::Headers { .. }, BackgroundEvent::HeadersFailed) => background_finish(
                None,
                Ok(()),
            ),
            _ => background_ask(wait),
        },
    }
}

/// Everything the task does to the stream during a run of events, in order.
pub open spec fn background_effects<D>(s: Background, events: Seq<BackgroundEvent<D>>) -> Seq<
    FlushEffect<D>,
>
    decreases events.len(),
{
    if events.len() == 0 {
        Seq::empty()
    } else {
        let (s1, step) = background_step(s, events[0]);
        effect_seq(step.effect) + background_effects(s1, events.drop_first())
    }
}

/// Whether the task has nothing more to do to the stream: it is over, its
/// flush engine has finished, or it only waits to hear whether a head that
/// ends the stream was sent.
pub open spec fn background_quiet(s: Background) -> bool {
    match s.phase {
        Phase::Done => true,
        Phase::Flush(f) => f.state is Done,
        Phase::Respond(wait) => wait == (RespondWait::Headers { end_stream: true }),
    }
}

/// A task that has nothing more to do to the stream does nothing to it,
/// whatever it is told.
pub proof fn law_quiet_task_is_silent<D>(s: Background, events: Seq<BackgroundEvent<D>>)
    requires
        background_quiet(s),
    ensures
        background_effects(s, events) == Seq::<FlushEffect<D>>::empty(),
    decreases events.len(),
{
    if events.len() > 0 {
        law_quiet_task_is_silent(background_step(s, events[0]).0, events.drop_first());
    }
}

/// A reset that arrives while the body is flushed ends the task: when the
/// flush engine learns that the stream is gone, the task finishes with the
/// engine's error, and does nothing to the stream then or ever after.
pub proof fn law_reset_ends_the_flushing_task<D>(
    engine: Flush,
    event: FlushEvent<D>,
    later: Seq<BackgroundEvent<D>>,
)
    requires
        !(engine.state is Done),
        stream_lost(event),
        flush_expects(engine, event),
    ensures
        ({
            let flushing = Background { phase: Phase::Flush(engine) };
            let (s1, step) = background_step(flushing, BackgroundEvent::Stream(event));
            &&& background_quiet(s1)
            &&& step.effect is None
            &&& step.next matches BackgroundRequest::Flush(FlushRequest::Finished(result))
                && result is Err
            &&& background_effects(s1, later) == Seq::<FlushEffect<D>>::empty()
        }),
{
    let flushing = Background { phase: Phase::Flush(engine) };
    let s1 = background_step(flushing, BackgroundEvent::Stream(event)).0;
    law_reset_stops_the_flush(engine, event, Seq::<FlushEvent<D>>::empty());
    law_quiet_task_is_silent(s1, later);
}

/// A response whose body has ended already is a head and nothing more: the
/// task sends the head with the end of the stream set, and whatever follows,
/// it sends no data, no trailers and no reset, and never starts a flush.
pub proof fn law_ended_body_sends_head_only<D>(later: Seq<BackgroundEvent<D>>)
    ensures
        ({
            let waiting = Background { phase: Phase::Respond(RespondWait::Response) };
            let (s1, step) = background_step::<D>(
                waiting,
                BackgroundEvent::Response { end_stream: true },
            );
            &&& step.effect is None
            &&& step.next == BackgroundRequest::SendHeaders { end_stream: true }
            &&& background_step::<D>(s1, BackgroundEvent::HeadersSent).1.next
                == BackgroundRequest::Finished(Ok(()))
            &&& background_effects(s1, later) == Seq::<FlushEffect<D>>::empty()
        }),
{
    let waiting = Background { phase: Phase::Respond(RespondWait::Response) };
    let s1 = background_step::<D>(waiting, BackgroundEvent::Response { end_stream: true }).0;
    law_quiet_task_is_silent(s1, later);
}

/// A reset that arrives while the service is still at work ends the task:
/// it finishes at its next check, and does nothing to the stream then or
/// ever after.
pub proof fn law_reset_abandons_the_response<D>(reason: Reason, later: Seq<BackgroundEvent<D>>)
    ensures
        ({
            let checking = Background { phase: Phase::Respond(RespondWait::ResetCheck) };
            let (s1, step) = background_step::<D>(
                checking,
                BackgroundEvent::Stream(FlushEvent::Reset(reason)),
            );
            &&& s1.phase is Done
            &&& step.effect is None
            &&& step.next == BackgroundRequest::Finished(Ok(()))
            &&& background_effects(s1, later) == Seq::<FlushEffect<D>>::empty()
        }),
{
    let checking = Background { phase: Phase::Respond(RespondWait::ResetCheck) };
    let s1 = background_step::<D>(checking, BackgroundEvent::Stream(FlushEvent::Reset(reason))).0;
    law_quiet_task_is_silent(s1, later);
}

/// The service's response is never polled before the stream was checked for
/// a reset in the same turn.
pub proof fn law_response_polled_after_reset_check<D>(s: Background, event: BackgroundEvent<D>)
    requires
        s.phase matches Phase::Respond(wait) && !(wait is Response),
        background_step(s, event).1.next is PollResponse,
    ensures
        event matches BackgroundEvent::Stream(ev) && ev is NoReset,
{
}

/// A failed service costs its own stream only: the stream is reset with the
/// internal reason, and the task ends.
pub proof fn law_failed_service_resets_the_stream<D>()
    ensures
        ({
            let waiting = Background { phase: Phase::Respond(RespondWait::Response) };
            let (s1, step) = background_step::<D>(waiting, BackgroundEvent::ResponseFailed);
            &&& s1.phase is Done
            &&& step.effect == Some(FlushEffect::<D>::Reset(Reason::spec_internal_error()))
            &&& step.next == BackgroundRequest::Finished(Err(BackgroundError::Service))
        }),
{
}

impl Background {
    /// A new task, for a request that was just dispatched.
    pub fn new() -> (b: Background)
        ensures
            b == background_initial(),
    {
        Background { phase: Phase::Respond(RespondWait::Wake) }
    }

    /// Whether the task is over.
    pub fn is_done(&self) -> (d: bool)
        ensures
            d == (self.phase is Done || (self.phase matches Phase::Flush(f) && f.state is Done)),
    {
        match self.phase {
            Phase::Done => true,
            Phase::Flush(f) => f.is_done(),
            Phase::Respond(_) => false,
        }
    }

    fn ask<D>(&mut self, wait: RespondWait) -> (step: BackgroundStep<D>)
        ensures
            (*final(self), step) == background_ask::<D>(wait),
    {
        self.phase = Phase::Respond(wait);
        let next = match wait {
            RespondWait::Wake => BackgroundRequest::Yield,
            RespondWait::ResetCheck => BackgroundRequest::PollReset,
            RespondWait::Response => BackgroundRequest::PollResponse,
            RespondWait::Headers { end_stream } => BackgroundRequest::SendHeaders { end_stream },
        };
        BackgroundStep { effect: None, next }
    }

    fn finish<D>(&mut self, effect: Option<FlushEffect<D>>, result: Result<(), BackgroundError>) -> (step:
        BackgroundStep<D>)
        ensures
            (*final(self), step) == background_finish(effect, result),
    {
        self.phase = Phase::Done;
        BackgroundStep { effect, next: BackgroundRequest::Finished(result) }
    }

    fn flush<D>(&mut self, engine: Flush, event: FlushEvent<D>) -> (step: BackgroundStep<D>)
        ensures
            (*final(self), step) == background_flush(engine, event),
    {
        let mut engine = engine;
        let inner = engine.step(event);
        self.phase = Phase::Flush(engine);
        BackgroundStep { effect: inner.effect, next: BackgroundRequest::Flush(inner.next) }
    }

    /// Take one event, and say what to do next.
    pub fn step<D>(&mut self, event: BackgroundEvent<D>) -> (step: BackgroundStep<D>)
        ensures
            (*final(self), step) == background_step(*old(self), event),
    {
        match self.phase {
            Phase::Done => self.finish(None, Ok(())),
            Phase::Flush(f) => match event {
                BackgroundEvent::Stream(ev) => self.flush(f, ev),
                _ => BackgroundStep {
                    effect: None,
                    next: BackgroundRequest::Flush(f.open_request()),
                },
            },
            Phase::Respond(wait) => match event {
                BackgroundEvent::Stream(FlushEvent::Failed(err)) => self.finish(
                    None,
                    Err(BackgroundError::Stream(err)),
                ),
                BackgroundEvent::Stream(FlushEvent::Polled) => match wait {
                    RespondWait::Wake => self.ask(RespondWait::ResetCheck),
                    _ => self.ask(wait),
                },
                BackgroundEvent::Stream(FlushEvent::NoReset) => match wait {
                    RespondWait::ResetCheck => self.ask(RespondWait::Response),
                    _ => self.ask(wait),
                },
                BackgroundEvent::Stream(FlushEvent::Reset(_)) => match wait {
                    RespondWait::ResetCheck => self.finish(None, Ok(())),
                    _ => self.ask(wait),
                },
                BackgroundEvent::Stream(FlushEvent::Pending) => match wait {
                    RespondWait::Response => self.ask(RespondWait::Wake),
                    _ => self.ask(wait),
                },
                BackgroundEvent::Response { end_stream } => match wait {
                    RespondWait::Response => self.ask(RespondWait::Headers { end_stream }),
                    _ => self.ask(wait),
                },
                BackgroundEvent::ResponseFailed => match wait {
                    RespondWait::Response => self.finish(
                        Some(FlushEffect::Reset(Reason::internal_error())),
                        Err(BackgroundError::Service),
                    ),
                    _ => self.ask(wait),
                },
                BackgroundEvent::HeadersSent => match wait {
                    RespondWait::Headers { end_stream } => {
                        if end_stream {
                            self.finish(None, Ok(()))
                        } else {
                            self.flush(Flush::new(), FlushEvent::Polled)
                        }
                    },
                    _ => self.ask(wait),
                },
                BackgroundEvent::HeadersFailed => match wait {
                    RespondWait::Headers { .. } => self.finish(None, Ok(())),
                    _ => self.ask(wait),
                },
                _ => self.ask(wait),
            },
        }
    }
}

} // verus!
