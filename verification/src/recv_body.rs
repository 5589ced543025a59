//! The received-stream adapter: what it does with each poll of an inbound
//! stream, and the chunks it hands out.

use crate::framing::{bytes_advance, bytes_as_slice, bytes_contents, bytes_len};
use crate::poll::Async;
use vstd::prelude::*;

verus! {

/// A chunk of data received from the peer.
#[derive(Debug)]
pub struct Data {
    bytes: bytes::Bytes,
}

impl View for Data {
    type V = Seq<u8>;

    closed spec fn view(&self) -> Seq<u8> {
        bytes_contents(self.bytes)
    }
}

impl Data {
    /// The chunk that holds `bytes`.
    pub fn new(bytes: bytes::Bytes) -> (d: Data)
        ensures
            d@ == bytes_contents(bytes),
    {
        Data { bytes }
    }

    /// The number of bytes left in the chunk.
    pub fn remaining(&self) -> (n: usize)
        ensures
            n == self@.len(),
    {
        bytes_len(&self.bytes)
    }

    /// The bytes left in the chunk.
    pub fn bytes(&self) -> (s: &[u8])
        ensures
            s@ == self@,
    {
        bytes_as_slice(&self.bytes)
    }

    /// Drop the first `cnt` bytes of the chunk.
    pub fn advance(&mut self, cnt: usize)
        requires
            cnt <= old(self)@.len(),
        ensures
            final(self)@ == old(self)@.skip(cnt as int),
    {
        bytes_advance(&mut self.bytes, cnt)
    }

    /// Drop the first `cnt` bytes of the chunk if it holds that many. Says
    /// whether it did; a chunk that is too short is left as it is.
    pub fn try_advance(&mut self, cnt: usize) -> (advanced: bool)
        ensures
            advanced == (cnt <= old(self)@.len()),
            advanced ==> final(self)@ == old(self)@.skip(cnt as int),
            !advanced ==> final(self)@ == old(self)@,
    {
        if cnt <= self.remaining() {
            self.advance(cnt);
            true
        } else {
            false
        }
    }

    /// The buffer out of the chunk.
    pub fn into_bytes(self) -> (b: bytes::Bytes)
        ensures
            bytes_contents(b) == self@,
    {
        self.bytes
    }
}

/// What the adapter does with one poll of the inbound stream.
pub struct Received<E> {
    /// The flow-control credit to give back to the connection before the
    /// chunk is handed out: the number of bytes of the chunk, if there is one.
    pub release: Option<usize>,
    /// What the adapter's own poll returns.
    pub item: Result<Async<Option<Data>>, E>,
}

/// Turn one poll of the inbound stream into the adapter's answer. For every
/// chunk, credit for exactly its length goes back to the connection;
/// without a chunk none does.
pub fn receive<E>(polled: Result<Async<Option<bytes::Bytes>>, E>) -> (r: Received<E>)
    ensures
        match polled {
            Ok(Async::Ready(Some(bytes))) => {
                &&& r.release == Some(bytes_contents(bytes).len() as usize)
                &&& r.item matches Ok(Async::Ready(Some(data)))
                &&& data@ == bytes_contents(bytes)
            },
            Ok(Async::Ready(None)) => r.release is None && r.item == Ok::<_, E>(
                Async::Ready(None::<Data>),
            ),
            Ok(Async::NotReady) => r.release is None && r.item == Ok::<_, E>(
                Async::<Option<Data>>::NotReady,
            ),
            Err(e) => r.release is None && r.item == Err::<Async<Option<Data>>, E>(e),
        },
{
    match polled {
        Ok(Async::Ready(Some(bytes))) => {
            let n = bytes_len(&bytes);
            Received { release: Some(n), item: Ok(Async::Ready(Some(Data::new(bytes)))) }
        },
        Ok(Async::Ready(None)) => Received { release: None, item: Ok(Async::Ready(None)) },
        Ok(Async::NotReady) => Received { release: None, item: Ok(Async::NotReady) },
        Err(e) => Received { release: None, item: Err(e) },
    }
}

} // verus!
