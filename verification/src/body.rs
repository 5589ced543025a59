//! What the payload of an exchange must be able to do, and the payload that
//! holds nothing.

use crate::poll::Async;
use vstd::prelude::*;

verus! {

/// The payload of a request or a response: data chunks, then optional
/// trailers.
///
/// `is_end_stream` is advisory. `false` does not promise more data; `true`
/// promises that neither data nor trailers will come. Once the end was
/// signalled, by `is_end_stream` or by a poll that found nothing, no further
/// poll for chunks means anything.
pub trait Body {
    /// A chunk of data.
    type Item;

    /// Why the payload could not be produced.
    type Error;

    /// Whether the payload is known to have ended.
    fn is_end_stream(&self) -> bool;

    /// The next chunk: a chunk, no more chunks, or not ready yet.
    fn poll_buf(&mut self) -> Result<Async<Option<Self::Item>>, Self::Error>;

    /// The trailers: a header map, none, or not ready yet.
    fn poll_trailers(&mut self) -> Result<Async<Option<http::HeaderMap>>, Self::Error>;
}

/// The payload with no content.
#[derive(Debug)]
pub struct NoBody;

/// A chunk with no bytes: what `NoBody` would produce if it produced any.
#[derive(Debug)]
pub struct NoData;

impl Default for NoBody {
    fn default() -> (b: NoBody)
        ensures
            b == NoBody,
    {
        NoBody
    }
}

impl Default for NoData {
    fn default() -> (d: NoData)
        ensures
            d == NoData,
    {
        NoData
    }
}

impl Body for NoBody {
    type Item = NoData;

    type Error = h2::Error;

    /// A payload without content has ended from the start.
    fn is_end_stream(&self) -> (end: bool)
        ensures
            end,
    {
        true
    }

    /// There is never a chunk.
    fn poll_buf(&mut self) -> (polled: Result<Async<Option<NoData>>, h2::Error>)
        ensures
            polled matches Ok(Async::Ready(None)),
    {
        Ok(Async::Ready(None))
    }

    /// There are never trailers.
    fn poll_trailers(&mut self) -> (polled: Result<Async<Option<http::HeaderMap>>, h2::Error>)
        ensures
            polled matches Ok(Async::Ready(None)),
    {
        Ok(Async::Ready(None))
    }
}

impl NoData {
    /// The number of bytes left: none.
    pub fn remaining(&self) -> (n: usize)
        ensures
            n == 0,
    {
        0
    }

    /// The bytes left: none.
    pub fn bytes(&self) -> (s: &[u8])
        ensures
            s@ == Seq::<u8>::empty(),
    {
        let empty: &[u8] = &[];
        empty
    }

    /// Moving the cursor changes nothing.
    pub fn advance(&mut self, _cnt: usize)
        ensures
            *final(self) == *old(self),
    {
    }
}

} // verus!
