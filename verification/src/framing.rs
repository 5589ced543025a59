//! Values of the framing layer that the session hands on without looking
//! inside them.

use vstd::prelude::*;

verus! {

/// A header map of the `http` crate, used for trailers. Opaque here.
#[verifier::external_type_specification]
#[verifier::external_body]
#[verifier::reject_recursive_types(T)]
pub struct ExHeaderMap<T>(http::HeaderMap<T>);

/// A request of the `http` crate: a head and a body. Opaque here.
#[verifier::external_type_specification]
#[verifier::external_body]
#[verifier::reject_recursive_types(T)]
pub struct ExRequest<T>(http::Request<T>);

/// A header value of the `http` crate, as header maps hold them. Opaque here.
#[verifier::external_type_specification]
#[verifier::external_body]
pub struct ExHeaderValue(http::header::HeaderValue);

/// An error of the `h2` crate. Opaque here.
#[verifier::external_type_specification]
#[verifier::external_body]
pub struct ExH2Error(h2::Error);

/// The code of the reason that an error of the framing layer carries, if it
/// was caused by the peer or the protocol.
pub uninterp spec fn error_reason(e: h2::Error) -> Option<u32>;

/// `h2::Error::reason`: the reason of the error, as its code, if it has one.
#[verifier::external_body]
pub(crate) fn h2_error_reason(e: &h2::Error) -> (code: Option<u32>)
    ensures
        code == error_reason(*e),
{
    match e.reason() {
        Some(reason) => Some(reason.into()),
        None => None,
    }
}

/// `h2::Error::from(h2::Reason)`: the protocol error with the given reason,
/// which `reason` then gives back.
#[verifier::external_body]
pub(crate) fn h2_error_from_reason(code: u32) -> (e: h2::Error)
    ensures
        error_reason(e) == Some(code),
{
    h2::Error::from(h2::Reason::from(code))
}

/// A byte buffer of the `bytes` crate.
#[verifier::external_type_specification]
#[verifier::external_body]
pub struct ExBytes(bytes::Bytes);

/// The bytes that a buffer holds, from its cursor to its end.
pub uninterp spec fn bytes_contents(b: bytes::Bytes) -> Seq<u8>;

/// `Bytes::len`: the number of bytes that the buffer holds.
#[verifier::external_body]
pub(crate) fn bytes_len(b: &bytes::Bytes) -> (n: usize)
    ensures
        n == bytes_contents(*b).len(),
{
    b.len()
}

/// `Bytes::as_ref`: the bytes that the buffer holds, as a slice.
#[verifier::external_body]
pub(crate) fn bytes_as_slice(b: &bytes::Bytes) -> (s: &[u8])
    ensures
        s@ == bytes_contents(*b),
{
    b.as_ref()
}

/// `Bytes::advance`: moves the cursor forward, so that the first `cnt` bytes
/// leave the buffer. It panics when `cnt` is more than the buffer holds.
#[verifier::external_body]
pub(crate) fn bytes_advance(b: &mut bytes::Bytes, cnt: usize)
    requires
        cnt <= bytes_contents(*old(b)).len(),
    ensures
        bytes_contents(*final(b)) == bytes_contents(*old(b)).skip(cnt as int),
{
    b.advance(cnt)
}

} // verus!
