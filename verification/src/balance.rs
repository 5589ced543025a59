//! Bodies that hold a handle for as long as a response is pending, for load
//! measurement: until the first data arrives, or until the stream ends.

use crate::body::Body;
use crate::poll::Async;
use vstd::prelude::*;

verus! {

/// Holds the handle of a response until its first body message arrives.
#[derive(Clone, Copy, Debug)]
pub struct PendingUntilFirstData;

/// Holds the handle of a response until its stream ends.
#[derive(Clone, Copy, Debug)]
pub struct PendingUntilEos;

/// A body that lets go of its handle when the first data is received.
#[derive(Debug)]
pub struct PendingUntilFirstDataBody<T, B> {
    pub handle: Option<T>,
    pub body: B,
}

/// A body that lets go of its handle when it completes.
#[derive(Debug)]
pub struct PendingUntilEosBody<T, B> {
    pub handle: Option<T>,
    pub body: B,
}

/// The handle to keep with a body: none if the body has ended already.
pub open spec fn kept_handle<T>(handle: T, end_stream: bool) -> Option<T> {
    if end_stream {
        None
    } else {
        Some(handle)
    }
}

/// The handle after something came back from a poll for data: none if the
/// body then says that it has ended.
pub open spec fn kept_after<T>(handle: Option<T>, end_stream: bool) -> Option<T> {
    if end_stream {
        None
    } else {
        handle
    }
}

/// Whether a poll of a body came back with anything, a failure included.
pub open spec fn settled<V, E>(polled: Result<Async<V>, E>) -> bool {
    !(polled matches Ok(Async::NotReady))
}

/// Whether a poll of a body came back with anything, a failure included.
pub fn is_settled<V, E>(polled: &Result<Async<V>, E>) -> (b: bool)
    ensures
        b == settled(*polled),
{
    match polled {
        Ok(Async::NotReady) => false,
        _ => true,
    }
}

impl Default for PendingUntilFirstData {
    fn default() -> (p: PendingUntilFirstData)
        ensures
            p == PendingUntilFirstData,
    {
        PendingUntilFirstData
    }
}

impl Default for PendingUntilEos {
    fn default() -> (p: PendingUntilEos)
        ensures
            p == PendingUntilEos,
    {
        PendingUntilEos
    }
}

impl<T, B: Default> Default for PendingUntilFirstDataBody<T, B> {
    /// The default body, with no handle.
    fn default() -> (d: PendingUntilFirstDataBody<T, B>)
        ensures
            d.handle is None,
    {
        PendingUntilFirstDataBody { handle: None, body: B::default() }
    }
}

impl<T, B: Default> Default for PendingUntilEosBody<T, B> {
    /// The default body, with no handle.
    fn default() -> (d: PendingUntilEosBody<T, B>)
        ensures
            d.handle is None,
    {
        PendingUntilEosBody { handle: None, body: B::default() }
    }
}

impl PendingUntilFirstData {
    /// Put `handle` beside a body of which it is known whether it has ended:
    /// the handle is dropped at once if it has.
    pub fn attach<T, B>(handle: T, body: B, end_stream: bool) -> (r: PendingUntilFirstDataBody<T, B>)
        ensures
            r.body == body,
            r.handle == kept_handle(handle, end_stream),
    {
        let handle = if end_stream {
            None
        } else {
            Some(handle)
        };
        PendingUntilFirstDataBody { handle, body }
    }

    /// Wrap the body of a response so that it holds `handle` until its first
    /// data arrives. The body is asked whether it has ended; if it says so,
    /// it holds none.
    pub fn instrument<T, B: Body>(&self, handle: T, body: B) -> (r: PendingUntilFirstDataBody<T, B>)
        ensures
            r.body == body,
            exists|end: bool| #[trigger]
                call_ensures(<B as Body>::is_end_stream, (&body,), end) && r.handle
                    == kept_handle(handle, end),
    {
        let end_stream = body.is_end_stream();
        Self::attach(handle, body, end_stream)
    }
}

impl PendingUntilEos {
    /// Put `handle` beside a body of which it is known whether it has ended:
    /// the handle is dropped at once if it has.
    pub fn attach<T, B>(handle: T, body: B, end_stream: bool) -> (r: PendingUntilEosBody<T, B>)
        ensures
            r.body == body,
            r.handle == kept_handle(handle, end_stream),
    {
        let handle = if end_stream {
            None
        } else {
            Some(handle)
        };
        PendingUntilEosBody { handle, body }
    }

    /// Wrap the body of a response so that it holds `handle` until the
    /// stream ends. The body is asked whether it has ended; if it says so,
    /// it holds none.
    pub fn instrument<T, B: Body>(&self, handle: T, body: B) -> (r: PendingUntilEosBody<T, B>)
        ensures
            r.body == body,
            exists|end: bool| #[trigger]
                call_ensures(<B as Body>::is_end_stream, (&body,), end) && r.handle
                    == kept_handle(handle, end),
    {
        let end_stream = body.is_end_stream();
        Self::attach(handle, body, end_stream)
    }
}

impl<T, B> PendingUntilEosBody<T, B> {
    /// Account for a poll for data: the handle is let go of exactly if
    /// something came back and the body then reports that it has ended.
    pub fn after_data(&mut self, came_back: bool, end_stream: bool)
        ensures
            final(self).body == old(self).body,
            final(self).handle == if came_back && end_stream {
                None
            } else {
                old(self).handle
            },
    {
        if came_back && end_stream {
            self.handle = None;
        }
    }
}

impl<T, B: Body> Body for PendingUntilFirstDataBody<T, B> {
    type Item = B::Item;

    type Error = B::Error;

    /// Reports what the inner body reports.
    fn is_end_stream(&self) -> (end: bool)
        ensures
            call_ensures(<B as Body>::is_end_stream, (&self.body,), end),
    {
        self.body.is_end_stream()
    }

    /// Polls the inner body, and returns what it returned. Whatever comes
    /// back, a chunk, the end or a failure, lets go of the handle; only a
    /// body that is not ready keeps it.
    fn poll_buf(&mut self) -> (polled: Result<Async<Option<B::Item>>, B::Error>)
        ensures
            exists|body: &mut B|
                *body == old(self).body && *final(body) == final(self).body && #[trigger]
                call_ensures(<B as Body>::poll_buf, (body,), polled),
            settled(polled) ==> final(self).handle is None,
            !settled(polled) ==> final(self).handle == old(self).handle,
    {
        let ret = self.body.poll_buf();
        if is_settled(&ret) {
            self.handle = None;
        }
        ret
    }

    /// Lets go of the handle, then polls the inner body for its trailers,
    /// and returns what it returned.
    fn poll_trailers(&mut self) -> (polled: Result<Async<Option<http::HeaderMap>>, B::Error>)
        ensures
            exists|body: &mut B|
                *body == old(self).body && *final(body) == final(self).body && #[trigger]
                call_ensures(<B as Body>::poll_trailers, (body,), polled),
            final(self).handle is None,
    {
        self.handle = None;
        self.body.poll_trailers()
    }
}

impl<T, B: Body> Body for PendingUntilEosBody<T, B> {
    type Item = B::Item;

    type Error = B::Error;

    /// Reports what the inner body reports.
    fn is_end_stream(&self) -> (end: bool)
        ensures
            call_ensures(<B as Body>::is_end_stream, (&self.body,), end),
    {
        self.body.is_end_stream()
    }

    /// Polls the inner body, and returns what it returned. If something came
    /// back, the body is asked whether it has ended, and the handle is let
    /// go of exactly if it says so; a body that is not ready keeps it.
    fn poll_buf(&mut self) -> (polled: Result<Async<Option<B::Item>>, B::Error>)
        ensures
            exists|body: &mut B|
                *body == old(self).body && *final(body) == final(self).body && #[trigger]
                call_ensures(<B as Body>::poll_buf, (body,), polled),
            settled(polled) ==> (exists|end: bool| #[trigger]
                call_ensures(<B as Body>::is_end_stream, (&final(self).body,), end)
                    && final(self).handle == kept_after(old(self).handle, end)),
            !settled(polled) ==> final(self).handle == old(self).handle,
    {
        let ret = self.body.poll_buf();
        let came_back = is_settled(&ret);
        let end_stream = came_back && self.body.is_end_stream();
        self.after_data(came_back, end_stream);
        ret
    }

    /// Polls the inner body for its trailers, and returns what it returned.
    /// Whatever comes back lets go of the handle; only a body that is not
    /// ready keeps it.
    fn poll_trailers(&mut self) -> (polled: Result<Async<Option<http::HeaderMap>>, B::Error>)
        ensures
            exists|body: &mut B|
                *body == old(self).body && *final(body) == final(self).body && #[trigger]
                call_ensures(<B as Body>::poll_trailers, (body,), polled),
            settled(polled) ==> final(self).handle is None,
            !settled(polled) ==> final(self).handle == old(self).handle,
    {
        let ret = self.body.poll_trailers();
        if is_settled(&ret) {
            self.handle = None;
        }
        ret
    }
}

} // verus!
