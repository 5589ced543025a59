//! The flush engine: pushes one outbound body (data chunks, then optional
//! trailers) onto one stream, within the stream's flow-control budget, and
//! stops as soon as the peer resets the stream.
//!
//! The engine performs no work on the stream or the body itself. It answers
//! each event with at most one effect on the stream and with the request
//! whose answer it wants next. Its driver performs the effect, performs the
//! request and hands the answer back as the next event. Where an effect on
//! the stream fails, the driver reports `FlushEvent::Failed` in place of the
//! answer.

use crate::body::Body;
use crate::poll::Async;
use crate::reason::Reason;
use vstd::prelude::*;

verus! {

/// Where the engine is in the body. It only ever moves forward.
#[derive(Clone, Copy, Debug, PartialEq, Eq, Structural)]
pub enum FlushState {
    /// Data chunks are being sent.
    Data,
    /// All chunks were sent; the trailers are next.
    Trailers,
    /// Nothing is left to do.
    Done,
}

/// The answer that the engine waits for.
#[derive(Clone, Copy, Debug, PartialEq, Eq, Structural)]
pub enum Awaiting {
    /// The task is suspended, or was never polled: the next poll.
    Wake,
    /// The capacity of the stream after one byte was asked for.
    Capacity,
    /// A grant of capacity.
    Grant,
    /// Whether the peer has reset the stream.
    ResetCheck,
    /// The next chunk of the body.
    Chunk,
    /// The trailers of the body.
    Trailers,
}

/// What the driver reports to the engine.
pub enum FlushEvent<D> {
    /// The task was polled: for the first time, or after a wake-up.
    Polled,
    /// The capacity that the stream has now.
    Capacity(usize),
    /// The stream was granted capacity, possibly none.
    Granted(usize),
    /// The stream closed while the engine waited for capacity.
    Closed,
    /// The peer has not reset the stream.
    NoReset,
    /// The peer has reset the stream.
    Reset(Reason),
    /// The body produced a chunk, and says whether it has ended with it.
    Chunk { data: D, end_stream: bool },
    /// The body has no more chunks.
    NoMoreChunks,
    /// The body produced trailers.
    Trailers(http::HeaderMap),
    /// The body has no trailers.
    NoTrailers,
    /// The body failed; the reason is what could be derived from its error.
    BodyFailed(Option<Reason>),
    /// What was asked for is not ready yet; the task will be woken.
    Pending,
    /// An operation on the stream failed.
    Failed(h2::Error),
}

/// What the engine does to the stream.
pub enum FlushEffect<D> {
    /// Send a data frame. Without data it is the empty frame.
    Data { data: Option<D>, end_stream: bool },
    /// Send the trailers, which end the stream.
    Trailers(http::HeaderMap),
    /// Reset the stream.
    Reset(Reason),
    /// Give reserved capacity back to the connection.
    Release,
}

/// Why a flush failed.
pub enum FlushError {
    /// An operation on the stream failed.
    Stream(h2::Error),
    /// The peer reset the stream, or the stream closed under the engine.
    Reset(Reason),
    /// The body failed, and the stream was reset with this reason.
    Body(Reason),
}

/// What the engine wants from its driver next.
pub enum FlushRequest {
    /// Reserve this many bytes of capacity, then report `Capacity`.
    Reserve(usize),
    /// Poll for a grant: `Granted`, `Closed` or `Pending`.
    PollCapacity,
    /// Poll for a reset without waiting: `Reset` or `NoReset`.
    PollReset,
    /// Poll the body for a chunk: `Chunk`, `NoMoreChunks`, `BodyFailed` or
    /// `Pending`.
    PollData,
    /// Poll the body for trailers: `Trailers`, `NoTrailers`, `BodyFailed` or
    /// `Pending`.
    PollTrailers,
    /// Suspend the task; report `Polled` when it runs again.
    Yield,
    /// The flush is over, with this result.
    Finished(Result<(), FlushError>),
}

/// The engine's answer to one event.
pub struct FlushStep<D> {
    /// What to do to the stream first, if anything.
    pub effect: Option<FlushEffect<D>>,
    /// What to do after that.
    pub next: FlushRequest,
}

/// The state of one flush.
#[derive(Clone, Copy, Debug, PartialEq, Eq, Structural)]
pub struct Flush {
    pub state: FlushState,
    pub awaiting: Awaiting,
}

/// The engine before its first poll.
pub open spec fn flush_initial() -> Flush {
    Flush { state: FlushState::Data, awaiting: Awaiting::Wake }
}

/// The engine when nothing is left to do.
pub open spec fn flush_done() -> Flush {
    Flush { state: FlushState::Done, awaiting: Awaiting::Wake }
}

/// The request that asks for what is awaited.
pub open spec fn request_of(awaiting: Awaiting) -> FlushRequest {
    match awaiting {
        Awaiting::Wake => FlushRequest::Yield,
        Awaiting::Capacity => FlushRequest::Reserve(1),
        Awaiting::Grant => FlushRequest::PollCapacity,
        Awaiting::ResetCheck => FlushRequest::PollReset,
        Awaiting::Chunk => FlushRequest::PollData,
        Awaiting::Trailers => FlushRequest::PollTrailers,
    }
}

/// The request that stands open in `s`: what it waits for, or the end if it
/// has finished.
pub open spec fn flush_open_request(s: Flush) -> FlushRequest {
    if s.state is Done {
        FlushRequest::Finished(Ok(()))
    } else {
        request_of(s.awaiting)
    }
}

/// Go on in `state`, asking for `awaiting`, with no effect on the stream.
pub open spec fn flush_ask<D>(state: FlushState, awaiting: Awaiting) -> (Flush, FlushStep<D>) {
    (Flush { state, awaiting }, FlushStep { effect: None, next: request_of(awaiting) })
}

/// Stop with `result`, after `effect`.
pub open spec fn flush_finish<D>(effect: Option<FlushEffect<D>>, result: Result<(), FlushError>) -> (
    Flush,
    FlushStep<D>,
) {
    (flush_done(), FlushStep { effect, next: FlushRequest::Finished(result) })
}

/// The engine's transition: the state after `event`, and the answer to it.
///
/// A failure on the stream ends the flush in every state. A finished engine
/// answers every other event with `Finished(Ok)`. An event that does not
/// answer what is awaited changes nothing, and the request is repeated.
pub open spec fn flush_step<D>(s: Flush, event: FlushEvent<D>) -> (Flush, FlushStep<D>) {
    if let FlushEvent::Failed(err) = event {
        flush_finish(None, Err(FlushError::Stream(err)))
    } else if s.state is Done {
        flush_finish(None, Ok(()))
    } else {
        match (s.awaiting, event) {
            (Awaiting::Wake, FlushEvent::Polled) => {
                if s.state is Data {
                    flush_ask(s.state, Awaiting::Capacity)
                } else {
                    flush_ask(s.state, Awaiting::ResetCheck)
                }
            },
            (Awaiting::Capacity, FlushEvent::Capacity(n)) => {
                if n == 0 {
                    flush_ask(s.state, Awaiting::Grant)
                } else {
                    flush_ask(s.state, Awaiting::ResetCheck)
                }
            },
            (Awaiting::Grant, FlushEvent::Granted(n)) => {
                if n == 0 {
                    flush_ask(s.state, Awaiting::Grant)
                } else {
                    flush_ask(s.state, Awaiting::Chunk)
                }
            },
            (Awaiting::Grant, FlushEvent::Closed) => {
                flush_finish(None, Err(FlushError::Reset(Reason::spec_internal_error())))
            },
            (Awaiting::ResetCheck, FlushEvent::NoReset) => {
                if s.state is Data {
                    flush_ask(s.state, Awaiting::Chunk)
                } else {
                    flush_ask(s.state, Awaiting::Trailers)
                }
            },
            (Awaiting::ResetCheck, FlushEvent::Reset(reason)) => {
                flush_finish(None, Err(FlushError::Reset(reason)))
            },
            (Awaiting::Chunk, FlushEvent::Chunk { data, end_stream }) => {
                let effect = Some(FlushEffect::Data { data: Some(data), end_stream });
                if end_stream {
                    flush_finish(effect, Ok(()))
                } else {
                    (
                        Flush { state: s.state, awaiting: Awaiting::Capacity },
                        FlushStep { effect, next: FlushRequest::Reserve(1) },
                    )
                }
            },
            (Awaiting::Chunk, FlushEvent::NoMoreChunks) => {
                (
                    Flush { state: FlushState::Trailers, awaiting: Awaiting::ResetCheck },
                    FlushStep { effect: Some(FlushEffect::Release), next: FlushRequest::PollReset },
                )
            },
            (Awaiting::Trailers, FlushEvent::Trailers(trailers)) => {
                flush_finish(Some(FlushEffect::Trailers(trailers)), Ok(()))
            },
            (Awaiting::Trailers, FlushEvent::NoTrailers) => {
                flush_finish(Some(FlushEffect::Data { data: None, end_stream: true }), Ok(()))
            },
            (Awaiting::Chunk, FlushEvent::BodyFailed(derived)) | (
                Awaiting::Trailers,
                FlushEvent::BodyFailed(derived),
            ) => {
                let reason = Reason::spec_or_internal(derived);
                flush_finish(Some(FlushEffect::Reset(reason)), Err(FlushError::Body(reason)))
            },
            (Awaiting::Grant, FlushEvent::Pending) | (Awaiting::Chunk, FlushEvent::Pending) | (
                Awaiting::Trailers,
                FlushEvent::Pending,
            ) => flush_ask(s.state, Awaiting::Wake),
            _ => flush_ask(s.state, s.awaiting),
        }
    }
}

/// The engine after a run of events, from `s`.
pub open spec fn flush_after<D>(s: Flush, events: Seq<FlushEvent<D>>) -> Flush
    decreases events.len(),
{
    if events.len() == 0 {
        s
    } else {
        flush_after(flush_step(s, events[0]).0, events.drop_first())
    }
}

/// An effect as a sequence of none or one.
pub open spec fn effect_seq<D>(effect: Option<FlushEffect<D>>) -> Seq<FlushEffect<D>> {
    match effect {
        Some(e) => seq![e],
        None => Seq::empty(),
    }
}

/// The effect if it puts a data or trailers frame on the stream, else nothing.
pub open spec fn frame_seq<D>(effect: Option<FlushEffect<D>>) -> Seq<FlushEffect<D>> {
    match effect {
        Some(FlushEffect::Data { data, end_stream }) => seq![FlushEffect::Data { data, end_stream }],
        Some(FlushEffect::Trailers(trailers)) => seq![FlushEffect::Trailers(trailers)],
        _ => Seq::empty(),
    }
}

/// Everything the engine does to the stream during a run of events, in order.
pub open spec fn flush_effects<D>(s: Flush, events: Seq<FlushEvent<D>>) -> Seq<FlushEffect<D>>
    decreases events.len(),
{
    if events.len() == 0 {
        Seq::empty()
    } else {
        let (s1, step) = flush_step(s, events[0]);
        effect_seq(step.effect) + flush_effects(s1, events.drop_first())
    }
}

/// The data and trailers frames that the engine sends during a run of
/// events, in order.
pub open spec fn flush_frames<D>(s: Flush, events: Seq<FlushEvent<D>>) -> Seq<FlushEffect<D>>
    decreases events.len(),
{
    if events.len() == 0 {
        Seq::empty()
    } else {
        let (s1, step) = flush_step(s, events[0]);
        frame_seq(step.effect) + flush_frames(s1, events.drop_first())
    }
}

/// The requests that the engine makes during a run of events, in order.
pub open spec fn flush_requests<D>(s: Flush, events: Seq<FlushEvent<D>>) -> Seq<FlushRequest>
    decreases events.len(),
{
    if events.len() == 0 {
        Seq::empty()
    } else {
        let (s1, step) = flush_step(s, events[0]);
        seq![step.next] + flush_requests(s1, events.drop_first())
    }
}

/// Whether `event` answers what `s` waits for. A failure on the stream may
/// take the place of any answer; a finished engine is only polled.
pub open spec fn flush_expects<D>(s: Flush, event: FlushEvent<D>) -> bool {
    if s.state is Done {
        event is Polled
    } else {
        match s.awaiting {
            Awaiting::Wake => event is Polled || event is Failed,
            Awaiting::Capacity => event is Capacity || event is Failed,
            Awaiting::Grant => event is Granted || event is Closed || event is Pending
                || event is Failed,
            Awaiting::ResetCheck => event is NoReset || event is Reset || event is Failed,
            Awaiting::Chunk => event is Chunk || event is NoMoreChunks || event is BodyFailed
                || event is Pending || event is Failed,
            Awaiting::Trailers => event is Trailers || event is NoTrailers || event is BodyFailed
                || event is Pending || event is Failed,
        }
    }
}

/// Whether each event of the run answers what the engine waits for then.
pub open spec fn flush_conforming<D>(s: Flush, events: Seq<FlushEvent<D>>) -> bool
    decreases events.len(),
{
    events.len() == 0 || (flush_expects(s, events[0]) && flush_conforming(
        flush_step(s, events[0]).0,
        events.drop_first(),
    ))
}

/// Whether the engine waits for something that can be asked in its state.
pub open spec fn flush_wf(s: Flush) -> bool {
    match s.state {
        FlushState::Data => !(s.awaiting is Trailers),
        FlushState::Trailers => s.awaiting is Wake || s.awaiting is ResetCheck
            || s.awaiting is Trailers,
        FlushState::Done => true,
    }
}

/// Whether the event reports that the stream is gone: a reset by the peer, a
/// closed stream, or a failed operation on it.
pub open spec fn stream_lost<D>(event: FlushEvent<D>) -> bool {
    event is Reset || event is Closed || event is Failed
}

/// Whether nothing in the run fails, and the body never ends with a chunk:
/// its end shows only when it has no more chunks.
pub open spec fn flush_calm<D>(events: Seq<FlushEvent<D>>) -> bool
    decreases events.len(),
{
    events.len() == 0 || (!stream_lost(events[0]) && !(events[0] is BodyFailed) && !(
    events[0] matches FlushEvent::Chunk { end_stream, .. } && end_stream) && flush_calm(
        events.drop_first(),
    ))
}

/// The chunks that the body produces during the run, in order.
pub open spec fn chunks_of<D>(events: Seq<FlushEvent<D>>) -> Seq<D>
    decreases events.len(),
{
    if events.len() == 0 {
        Seq::empty()
    } else {
        match events[0] {
            FlushEvent::Chunk { data, .. } => seq![data] + chunks_of(events.drop_first()),
            _ => chunks_of(events.drop_first()),
        }
    }
}

/// The trailers that the body produces during the run, if any.
pub open spec fn trailers_of<D>(events: Seq<FlushEvent<D>>) -> Option<http::HeaderMap>
    decreases events.len(),
{
    if events.len() == 0 {
        None
    } else {
        match events[0] {
            FlushEvent::Trailers(trailers) => Some(trailers),
            _ => trailers_of(events.drop_first()),
        }
    }
}

/// One data frame for each chunk, none of them ending the stream.
pub open spec fn data_frames<D>(chunks: Seq<D>) -> Seq<FlushEffect<D>> {
    Seq::new(chunks.len(), |i: int| FlushEffect::Data { data: Some(chunks[i]), end_stream: false })
}

/// The frame that ends the stream after the last chunk: the trailers, or
/// without them the empty data frame.
pub open spec fn closing_frame<D>(trailers: Option<http::HeaderMap>) -> FlushEffect<D> {
    match trailers {
        Some(t) => FlushEffect::Trailers(t),
        None => FlushEffect::Data { data: None, end_stream: true },
    }
}

/// The frames that the body's own answers call for: a data frame for a
/// chunk, the trailers, or the empty closing frame.
pub open spec fn body_frames<D>(events: Seq<FlushEvent<D>>) -> Seq<FlushEffect<D>>
    decreases events.len(),
{
    if events.len() == 0 {
        Seq::empty()
    } else {
        let first = match events[0] {
            FlushEvent::Chunk { data, end_stream } => seq![
                FlushEffect::Data { data: Some(data), end_stream },
            ],
            FlushEvent::Trailers(trailers) => seq![FlushEffect::Trailers(trailers)],
            FlushEvent::NoTrailers => seq![FlushEffect::Data { data: None, end_stream: true }],
            _ => Seq::empty(),
        };
        first + body_frames(events.drop_first())
    }
}

/// A step keeps the engine well formed.
pub proof fn lemma_step_keeps_wf<D>(s: Flush, event: FlushEvent<D>)
    requires
        flush_wf(s),
    ensures
        flush_wf(flush_step(s, event).0),
{
}

/// How far the engine has come: data first, then trailers, then nothing.
pub open spec fn flush_progress(state: FlushState) -> nat {
    match state {
        FlushState::Data => 0,
        FlushState::Trailers => 1,
        FlushState::Done => 2,
    }
}

/// The engine only moves forward: whatever it is told, in whatever order,
/// it never returns to a state that it has left.
pub proof fn law_flush_moves_forward<D>(s: Flush, events: Seq<FlushEvent<D>>)
    ensures
        flush_progress(s.state) <= flush_progress(flush_after(s, events).state),
    decreases events.len(),
{
    if events.len() > 0 {
        law_flush_moves_forward(flush_step(s, events[0]).0, events.drop_first());
    }
}

/// A finished engine stays finished and does nothing to the stream, whatever
/// it is told.
pub proof fn law_done_is_silent<D>(s: Flush, events: Seq<FlushEvent<D>>)
    requires
        s.state is Done,
    ensures
        flush_effects(s, events) == Seq::<FlushEffect<D>>::empty(),
        flush_frames(s, events) == Seq::<FlushEffect<D>>::empty(),
        flush_after(s, events).state is Done,
    decreases events.len(),
{
    if events.len() > 0 {
        law_done_is_silent(flush_step(s, events[0]).0, events.drop_first());
    }
}

/// Once the body has said that it has no more chunks, it is never asked
/// for one again: from the trailers on, no request of the engine polls the
/// body for data, and none reserves or waits for capacity.
pub proof fn law_no_chunk_poll_after_the_last<D>(s: Flush, events: Seq<FlushEvent<D>>)
    requires
        flush_wf(s),
        !(s.state is Data),
    ensures
        forall|i: int|
            0 <= i < flush_requests(s, events).len() ==> {
                let request = #[trigger] flush_requests(s, events)[i];
                !(request is PollData) && !(request is Reserve) && !(request is PollCapacity)
            },
    decreases events.len(),
{
    if events.len() > 0 {
        let (s1, step) = flush_step(s, events[0]);
        let rest = events.drop_first();
        law_no_chunk_poll_after_the_last(s1, rest);
        assert forall|i: int| 0 <= i < flush_requests(s, events).len() implies {
            let request = #[trigger] flush_requests(s, events)[i];
            !(request is PollData) && !(request is Reserve) && !(request is PollCapacity)
        } by {
            if i > 0 {
                assert(flush_requests(s, events)[i] == flush_requests(s1, rest)[i - 1]);
            }
        }
    }
}

/// A finished engine asks for nothing more: it answers every event with the
/// end of the flush, and stays finished.
pub proof fn law_finished_engine_asks_nothing<D>(s: Flush, event: FlushEvent<D>)
    requires
        s.state is Done,
    ensures
        flush_step(s, event).0.state is Done,
        flush_step(s, event).1.effect is None,
        flush_step(s, event).1.next is Finished,
        !(event is Failed) ==> flush_step(s, event).1.next == FlushRequest::Finished(Ok(())),
{
}

/// A reset ends the flush at once. When the engine learns that the stream
/// is gone (the peer's reset where it checks for one, a closed stream where
/// it waits for capacity, a failed operation anywhere), it finishes with an
/// error, and does nothing to the stream then or ever after.
pub proof fn law_reset_stops_the_flush<D>(s: Flush, event: FlushEvent<D>, later: Seq<FlushEvent<D>>)
    requires
        !(s.state is Done),
        stream_lost(event),
        flush_expects(s, event),
    ensures
        flush_step(s, event).0 == flush_done(),
        flush_step(s, event).1.effect is None,
        flush_step(s, event).1.next matches FlushRequest::Finished(result) && result is Err,
        flush_effects(s, seq![event] + later) == Seq::<FlushEffect<D>>::empty(),
        flush_after(s, seq![event] + later).state is Done,
{
    let events = seq![event] + later;
    assert(events[0] == event);
    assert(events.drop_first() =~= later);
    law_done_is_silent(flush_done(), later);
}

/// The body is polled only after the stream was seen alive in the same
/// turn: a request for a chunk or for trailers answers either the news that
/// the peer has not reset the stream, or a grant of capacity.
pub proof fn law_body_polled_after_reset_check<D>(s: Flush, event: FlushEvent<D>)
    requires
        flush_expects(s, event),
        flush_step(s, event).1.next is PollData || flush_step(s, event).1.next is PollTrailers,
    ensures
        event is NoReset || (event matches FlushEvent::Granted(n) && n > 0),
{
}

/// The engine sends what the body produces, frame for frame and in order:
/// in a run in which every event answers the engine's request, the frames
/// sent are those that the body's answers call for.
pub proof fn law_frames_follow_the_body<D>(s: Flush, events: Seq<FlushEvent<D>>)
    requires
        flush_conforming(s, events),
    ensures
        flush_frames(s, events) == body_frames(events),
    decreases events.len(),
{
    if events.len() > 0 {
        law_frames_follow_the_body(flush_step(s, events[0]).0, events.drop_first());
    }
}

/// Whether the effect is the last that a stream takes: a frame that ends
/// it, or a reset.
pub open spec fn ends_stream<D>(effect: FlushEffect<D>) -> bool {
    match effect {
        FlushEffect::Data { end_stream, .. } => end_stream,
        FlushEffect::Trailers(_) => true,
        FlushEffect::Reset(_) => true,
        FlushEffect::Release => false,
    }
}

/// Nothing follows the end of the stream. Whatever the engine is told, in
/// whatever order, a frame that ends the stream or a reset is the last thing
/// it does to the stream: the stream is ended at most once, and never
/// written to afterwards.
pub proof fn law_nothing_follows_the_end<D>(s: Flush, events: Seq<FlushEvent<D>>)
    ensures
        forall|i: int|
            0 <= i < flush_effects(s, events).len() && ends_stream(
                #[trigger] flush_effects(s, events)[i],
            ) ==> i == flush_effects(s, events).len() - 1,
    decreases events.len(),
{
    if events.len() > 0 {
        let (s1, step) = flush_step(s, events[0]);
        let rest = events.drop_first();
        law_nothing_follows_the_end(s1, rest);
        if s1.state is Done {
            law_done_is_silent(s1, rest);
        }
        let first = effect_seq(step.effect);
        let all = flush_effects(s, events);
        assert(all == first + flush_effects(s1, rest));
        assert forall|i: int| 0 <= i < all.len() && ends_stream(#[trigger] all[i]) implies i
            == all.len() - 1 by {
            if i >= first.len() {
                assert(all[i] == flush_effects(s1, rest)[i - first.len()]);
            }
        }
    }
}

proof fn lemma_calm_run<D>(s: Flush, events: Seq<FlushEvent<D>>)
    requires
        flush_wf(s),
        flush_conforming(s, events),
        flush_calm(events),
        flush_after(s, events).state is Done,
    ensures
        s.state is Data ==> flush_frames(s, events) == data_frames(chunks_of(events)) + seq![
            closing_frame(trailers_of(events)),
        ],
        s.state is Trailers ==> chunks_of(events).len() == 0 && flush_frames(s, events) == seq![
            closing_frame::<D>(trailers_of(events)),
        ],
        s.state is Done ==> chunks_of(events).len() == 0 && trailers_of(events) is None
            && flush_frames(s, events).len() == 0,
    decreases events.len(),
{
    if events.len() > 0 {
        let rest = events.drop_first();
        let (s1, step) = flush_step(s, events[0]);
        lemma_step_keeps_wf(s, events[0]);
        lemma_calm_run(s1, rest);
        let closing = closing_frame::<D>(trailers_of(events));
        if s.state is Data {
            assert(flush_frames(s, events) =~= data_frames(chunks_of(events)) + seq![closing]);
        } else if s.state is Trailers {
            assert(flush_frames(s, events) =~= seq![closing]);
        }
    }
}

/// A body goes out whole, and the stream is ended exactly once after it.
/// Take a run from a new engine to a finished one in which every event
/// answers the engine's request, nothing fails, and the body reports
/// its end only by having no more chunks. Then the frames sent are one data
/// frame for each chunk, in the body's order and none ending the stream,
/// followed by exactly one closing frame: the trailers if the body has any,
/// else the empty data frame that ends the stream.
pub proof fn law_chunks_then_one_closing_frame<D>(events: Seq<FlushEvent<D>>)
    requires
        flush_conforming(flush_initial(), events),
        flush_calm(events),
        flush_after(flush_initial(), events).state is Done,
    ensures
        flush_frames(flush_initial(), events) == data_frames(chunks_of(events)) + seq![
            closing_frame(trailers_of(events)),
        ],
{
    lemma_calm_run(flush_initial(), events);
}

/// What a poll for capacity tells the engine: a grant, possibly of nothing;
/// a closed stream where the framing layer has no more grants to give; that
/// nothing is ready; or the failure of the stream.
pub open spec fn capacity_event<D>(polled: Result<Async<Option<usize>>, h2::Error>) -> FlushEvent<D> {
    match polled {
        Ok(Async::Ready(Some(n))) => FlushEvent::Granted(n),
        Ok(Async::Ready(None)) => FlushEvent::Closed,
        Ok(Async::NotReady) => FlushEvent::Pending,
        Err(err) => FlushEvent::Failed(err),
    }
}

/// What a poll for a reset tells the engine: the reset with its reason, no
/// reset so far, or the failure of the stream.
pub open spec fn reset_event<D>(polled: Result<Async<Reason>, h2::Error>) -> FlushEvent<D> {
    match polled {
        Ok(Async::Ready(reason)) => FlushEvent::Reset(reason),
        Ok(Async::NotReady) => FlushEvent::NoReset,
        Err(err) => FlushEvent::Failed(err),
    }
}

/// What a poll of the body for data tells the engine, together with what
/// the body reports of its end right after the poll. A failure of the body
/// is handed back as it is: its reason is for the caller to derive, and to
/// report as `BodyFailed`.
pub open spec fn data_event<D, E>(polled: Result<Async<Option<D>>, E>, end_stream: bool) -> Result<
    FlushEvent<D>,
    E,
> {
    match polled {
        Ok(Async::Ready(Some(data))) => Ok(FlushEvent::Chunk { data, end_stream }),
        Ok(Async::Ready(None)) => Ok(FlushEvent::NoMoreChunks),
        Ok(Async::NotReady) => Ok(FlushEvent::Pending),
        Err(err) => Err(err),
    }
}

/// What a poll of the body for trailers tells the engine. A failure of the
/// body is handed back as it is.
pub open spec fn trailers_event<D, E>(polled: Result<Async<Option<http::HeaderMap>>, E>) -> Result<
    FlushEvent<D>,
    E,
> {
    match polled {
        Ok(Async::Ready(Some(trailers))) => Ok(FlushEvent::Trailers(trailers)),
        Ok(Async::Ready(None)) => Ok(FlushEvent::NoTrailers),
        Ok(Async::NotReady) => Ok(FlushEvent::Pending),
        Err(err) => Err(err),
    }
}

impl<D> FlushEvent<D> {
    /// The event for the outcome of a poll for capacity.
    pub fn from_capacity_poll(polled: Result<Async<Option<usize>>, h2::Error>) -> (event: FlushEvent<D>)
        ensures
            event == capacity_event::<D>(polled),
    {
        match polled {
            Ok(Async::Ready(Some(n))) => FlushEvent::Granted(n),
            Ok(Async::Ready(None)) => FlushEvent::Closed,
            Ok(Async::NotReady) => FlushEvent::Pending,
            Err(err) => FlushEvent::Failed(err),
        }
    }

    /// The event for the outcome of a poll for a reset.
    pub fn from_reset_poll(polled: Result<Async<Reason>, h2::Error>) -> (event: FlushEvent<D>)
        ensures
            event == reset_event::<D>(polled),
    {
        match polled {
            Ok(Async::Ready(reason)) => FlushEvent::Reset(reason),
            Ok(Async::NotReady) => FlushEvent::NoReset,
            Err(err) => FlushEvent::Failed(err),
        }
    }

    /// The event for the outcome of a poll of the body for data.
    pub fn from_data_poll<E>(polled: Result<Async<Option<D>>, E>, end_stream: bool) -> (event: Result<
        FlushEvent<D>,
        E,
    >)
        ensures
            event == data_event(polled, end_stream),
    {
        match polled {
            Ok(Async::Ready(Some(data))) => Ok(FlushEvent::Chunk { data, end_stream }),
            Ok(Async::Ready(None)) => Ok(FlushEvent::NoMoreChunks),
            Ok(Async::NotReady) => Ok(FlushEvent::Pending),
            Err(err) => Err(err),
        }
    }

    /// The event for the outcome of a poll of the body for trailers.
    pub fn from_trailers_poll<E>(polled: Result<Async<Option<http::HeaderMap>>, E>) -> (event: Result<
        FlushEvent<D>,
        E,
    >)
        ensures
            event == trailers_event::<D, E>(polled),
    {
        match polled {
            Ok(Async::Ready(Some(trailers))) => Ok(FlushEvent::Trailers(trailers)),
            Ok(Async::Ready(None)) => Ok(FlushEvent::NoTrailers),
            Ok(Async::NotReady) => Ok(FlushEvent::Pending),
            Err(err) => Err(err),
        }
    }
}

/// Whether a poll of a body produced a chunk.
pub fn produced_chunk<D, E>(polled: &Result<Async<Option<D>>, E>) -> (b: bool)
    ensures
        b == (*polled matches Ok(Async::Ready(Some(_)))),
{
    match polled {
        Ok(Async::Ready(Some(_))) => true,
        _ => false,
    }
}

/// Whether the event is a chunk with which the body has ended.
pub open spec fn ends_with_chunk<D, E>(r: Result<FlushEvent<D>, E>) -> bool {
    r matches Ok(FlushEvent::Chunk { end_stream, .. }) && end_stream
}

/// Poll `body` for its next chunk, as the engine asks with `PollData`, and
/// say what the engine is to be told: the event for what the body returned.
/// The body is asked whether it has ended only after it produced a chunk,
/// and the chunk carries its answer. A failure of the body is handed back
/// as it is.
pub fn poll_data<S: Body>(body: &mut S) -> (r: Result<FlushEvent<S::Item>, S::Error>)
    ensures
        exists|source: &mut S, polled: Result<Async<Option<S::Item>>, S::Error>|
            *source == *old(body) && *final(source) == *final(body) && #[trigger]
            call_ensures(<S as Body>::poll_buf, (source,), polled) && r == data_event(
                polled,
                ends_with_chunk(r),
            ),
        r matches Ok(FlushEvent::Chunk { end_stream, .. }) ==> call_ensures(
            <S as Body>::is_end_stream,
            (&*final(body),),
            end_stream,
        ),
        r matches Ok(event) ==> event is Chunk || event is NoMoreChunks || event is Pending,
{
    let polled = body.poll_buf();
    let end_stream = produced_chunk(&polled) && body.is_end_stream();
    FlushEvent::from_data_poll(polled, end_stream)
}

/// Poll `body` for its trailers, as the engine asks with `PollTrailers`, and
/// say what the engine is to be told: the event for what the body returned.
/// A failure of the body is handed back as it is.
pub fn poll_trailers<S: Body>(body: &mut S) -> (r: Result<FlushEvent<S::Item>, S::Error>)
    ensures
        exists|source: &mut S, polled: Result<Async<Option<http::HeaderMap>>, S::Error>|
            *source == *old(body) && *final(source) == *final(body) && #[trigger]
            call_ensures(<S as Body>::poll_trailers, (source,), polled) && r == trailers_event::<
                S::Item,
                S::Error,
            >(polled),
        r matches Ok(event) ==> event is Trailers || event is NoTrailers || event is Pending,
{
    FlushEvent::from_trailers_poll(body.poll_trailers())
}

impl Flush {
    /// A new engine, for a body of which nothing was sent yet.
    pub fn new() -> (f: Flush)
        ensures
            f == flush_initial(),
            flush_wf(f),
    {
        Flush { state: FlushState::Data, awaiting: Awaiting::Wake }
    }

    /// Where the engine is in the body.
    pub fn state(&self) -> (s: FlushState)
        ensures
            s == self.state,
    {
        self.state
    }

    /// Whether nothing is left to do.
    pub fn is_done(&self) -> (d: bool)
        ensures
            d == (self.state is Done),
    {
        match self.state {
            FlushState::Done => true,
            _ => false,
        }
    }

    /// The request that stands open: what the engine waits for, or the end
    /// if it has finished.
    pub fn open_request(&self) -> (request: FlushRequest)
        ensures
            request == flush_open_request(*self),
    {
        match self.state {
            FlushState::Done => FlushRequest::Finished(Ok(())),
            _ => match self.awaiting {
                Awaiting::Wake => FlushRequest::Yield,
                Awaiting::Capacity => FlushRequest::Reserve(1),
                Awaiting::Grant => FlushRequest::PollCapacity,
                Awaiting::ResetCheck => FlushRequest::PollReset,
                Awaiting::Chunk => FlushRequest::PollData,
                Awaiting::Trailers => FlushRequest::PollTrailers,
            },
        }
    }

    /// Take a run of events, one after the other, and collect everything
    /// that is to be done to the stream.
    pub fn replay<D>(&mut self, events: Vec<FlushEvent<D>>) -> (effects: Vec<FlushEffect<D>>)
        ensures
            effects@ == flush_effects(*old(self), events@),
            *final(self) == flush_after(*old(self), events@),
    {
        let ghost start = *self;
        let ghost all = events@;
        let mut effects: Vec<FlushEffect<D>> = Vec::new();
        proof {
            assert(all.skip(0) == all);
            assert(effects@ + flush_effects(start, all) == flush_effects(start, all));
        }
        for event in iter: events.into_iter()
            invariant
                iter.seq() == all,
                effects@ + flush_effects(*self, all.skip(iter.index() as int)) == flush_effects(
                    start,
                    all,
                ),
                flush_after(*self, all.skip(iter.index() as int)) == flush_after(start, all),
        {
            let ghost before = *self;
            let ghost left = all.skip(iter.index() as int);
            assert(left[0] == event);
            assert(left.drop_first() == all.skip(iter.index() + 1));
            let step = self.step(event);
            match step.effect {
                Some(effect) => {
                    effects.push(effect);
                },
                None => {},
            }
            assert(effects@ + flush_effects(*self, left.drop_first()) == flush_effects(start, all));
        }
        assert(all.skip(all.len() as int) == Seq::<FlushEvent<D>>::empty());
        effects
    }

    fn ask<D>(&mut self, awaiting: Awaiting) -> (step: FlushStep<D>)
        ensures
            (*final(self), step) == flush_ask::<D>(old(self).state, awaiting),
    {
        self.awaiting = awaiting;
        let next = match awaiting {
            Awaiting::Wake => FlushRequest::Yield,
            Awaiting::Capacity => FlushRequest::Reserve(1),
            Awaiting::Grant => FlushRequest::PollCapacity,
            Awaiting::ResetCheck => FlushRequest::PollReset,
            Awaiting::Chunk => FlushRequest::PollData,
            Awaiting::Trailers => FlushRequest::PollTrailers,
        };
        FlushStep { effect: None, next }
    }

    fn finish<D>(&mut self, effect: Option<FlushEffect<D>>, result: Result<(), FlushError>) -> (step:
        FlushStep<D>)
        ensures
            (*final(self), step) == flush_finish(effect, result),
    {
        self.state = FlushState::Done;
        self.awaiting = Awaiting::Wake;
        FlushStep { effect, next: FlushRequest::Finished(result) }
    }

    /// Take one event, and say what to do next.
    pub fn step<D>(&mut self, event: FlushEvent<D>) -> (step: FlushStep<D>)
        ensures
            (*final(self), step) == flush_step(*old(self), event),
            flush_wf(*old(self)) ==> flush_wf(*final(self)),
    {
        let state = self.state;
        let awaiting = self.awaiting;
        if let FlushEvent::Failed(err) = event {
            return self.finish(None, Err(FlushError::Stream(err)));
        }
        if let FlushState::Done = state {
            return self.finish(None, Ok(()));
        }
        match awaiting {
            Awaiting::Wake => match event {
                FlushEvent::Polled => match state {
                    FlushState::Data => self.ask(Awaiting::Capacity),
                    _ => self.ask(Awaiting::ResetCheck),
                },
                _ => self.ask(awaiting),
            },
            Awaiting::Capacity => match event {
                FlushEvent::Capacity(n) => if n == 0 {
                    self.ask(Awaiting::Grant)
                } else {
                    self.ask(Awaiting::ResetCheck)
                },
                _ => self.ask(awaiting),
            },
            Awaiting::Grant => match event {
                FlushEvent::Granted(n) => if n == 0 {
                    self.ask(Awaiting::Grant)
                } else {
                    self.ask(Awaiting::Chunk)
                },
                FlushEvent::Closed => self.finish(
                    None,
                    Err(FlushError::Reset(Reason::internal_error())),
                ),
                FlushEvent::Pending => self.ask(Awaiting::Wake),
                _ => self.ask(awaiting),
            },
            Awaiting::ResetCheck => match event {
                FlushEvent::NoReset => match state {
                    FlushState::Data => self.ask(Awaiting::Chunk),
                    _ => self.ask(Awaiting::Trailers),
                },
                FlushEvent::Reset(reason) => self.finish(None, Err(FlushError::Reset(reason))),
                _ => self.ask(awaiting),
            },
            Awaiting::Chunk => match event {
                FlushEvent::Chunk { data, end_stream } => {
                    let effect = Some(FlushEffect::Data { data: Some(data), end_stream });
                    if end_stream {
                        self.finish(effect, Ok(()))
                    } else {
                        self.awaiting = Awaiting::Capacity;
                        FlushStep { effect, next: FlushRequest::Reserve(1) }
                    }
                },
                FlushEvent::NoMoreChunks => {
                    self.state = FlushState::Trailers;
                    self.awaiting = Awaiting::ResetCheck;
                    FlushStep { effect: Some(FlushEffect::Release), next: FlushRequest::PollReset }
                },
                FlushEvent::BodyFailed(derived) => {
                    let reason = Reason::or_internal(derived);
                    self.finish(Some(FlushEffect::Reset(reason)), Err(FlushError::Body(reason)))
                },
                FlushEvent::Pending => self.ask(Awaiting::Wake),
                _ => self.ask(awaiting),
            },
            Awaiting::Trailers => match event {
                FlushEvent::Trailers(trailers) => self.finish(
                    Some(FlushEffect::Trailers(trailers)),
                    Ok(()),
                ),
                FlushEvent::NoTrailers => self.finish(
                    Some(FlushEffect::Data { data: None, end_stream: true }),
                    Ok(()),
                ),
                FlushEvent::BodyFailed(derived) => {
                    let reason = Reason::or_internal(derived);
                    self.finish(Some(FlushEffect::Reset(reason)), Err(FlushError::Body(reason)))
                },
                FlushEvent::Pending => self.ask(Awaiting::Wake),
                _ => self.ask(awaiting),
            },
        }
    }
}

} // verus!
