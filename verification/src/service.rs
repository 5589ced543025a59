//! The service that answers requests, and wrappers that hand one on.

use crate::body::Body;
use crate::poll::Async;
use vstd::prelude::*;

verus! {

/// A service that takes HTTP requests and answers each with a future of a
/// response.
pub trait HttpService: Sized {
    /// The payload of requests.
    type RequestBody: Body;

    /// The payload of responses.
    type ResponseBody: Body;

    /// Why the service failed.
    type Error;

    /// The future of a response.
    type Future;

    /// Whether the service can take a request: ready, not ready yet, or
    /// failed for good.
    fn poll_ready(&mut self) -> Result<Async<()>, Self::Error>;

    /// Take a request; the response comes later.
    fn call(&mut self, request: http::Request<Self::RequestBody>) -> Self::Future;

    /// Wrap the service in a value of its own.
    fn lift(self) -> (lifted: LiftService<Self>)
        ensures
            lifted.inner == self,
    {
        LiftService { inner: self }
    }

    /// Wrap a borrow of the service in a value of its own: the wrapper holds
    /// this very borrow, so that what is done through it is done to the
    /// service.
    fn lift_ref<'a>(&'a mut self) -> (lifted: LiftServiceRef<'a, Self>)
        ensures
            *lifted.inner == *old(self),
            *final(self) == *final(lifted.inner),
    {
        LiftServiceRef { inner: self }
    }
}

/// A service, wrapped; it answers as the service inside it does.
pub struct LiftService<T> {
    pub inner: T,
}

/// A borrowed service, wrapped; it answers as the service behind it does.
pub struct LiftServiceRef<'a, T> {
    pub inner: &'a mut T,
}

impl<T: HttpService> LiftService<T> {
    /// The service out of its wrapper.
    pub fn into_inner(self) -> (inner: T)
        ensures
            inner == self.inner,
    {
        self.inner
    }
}

impl<T: HttpService> HttpService for LiftService<T> {
    type RequestBody = T::RequestBody;

    type ResponseBody = T::ResponseBody;

    type Error = T::Error;

    type Future = T::Future;

    /// Polls the service inside, and returns what it returned.
    fn poll_ready(&mut self) -> (polled: Result<Async<()>, T::Error>)
        ensures
            exists|service: &mut T|
                *service == old(self).inner && *final(service) == final(self).inner && #[trigger]
                call_ensures(<T as HttpService>::poll_ready, (service,), polled),
    {
        self.inner.poll_ready()
    }

    /// Hands the request to the service inside, and returns its future.
    fn call(&mut self, request: http::Request<T::RequestBody>) -> (future: T::Future)
        ensures
            exists|service: &mut T|
                *service == old(self).inner && *final(service) == final(self).inner && #[trigger]
                call_ensures(<T as HttpService>::call, (service, request), future),
    {
        self.inner.call(request)
    }
}

impl<'a, T: HttpService> LiftServiceRef<'a, T> {
    /// Wrap a borrowed service.
    pub fn new(inner: &'a mut T) -> (lifted: LiftServiceRef<'a, T>)
        ensures
            *lifted.inner == *old(inner),
            *final(inner) == *final(lifted.inner),
    {
        LiftServiceRef { inner }
    }

    /// Whether the service behind the wrapper can take a request: polls that
    /// service, and returns what it returned. The wrapper goes on holding
    /// the same borrow.
    pub fn poll_ready(&mut self) -> (polled: Result<Async<()>, T::Error>)
        ensures
            exists|service: &mut T|
                *service == *old(self).inner && *final(service) == *final(self).inner
                    && #[trigger] call_ensures(<T as HttpService>::poll_ready, (service,), polled),
            *final(final(self).inner) == *final(old(self).inner),
    {
        self.inner.poll_ready()
    }

    /// Hand a request to the service behind the wrapper, and return its
    /// future. The wrapper goes on holding the same borrow.
    pub fn call(&mut self, request: http::Request<T::RequestBody>) -> (future: T::Future)
        ensures
            exists|service: &mut T|
                *service == *old(self).inner && *final(service) == *final(self).inner
                    && #[trigger] call_ensures(<T as HttpService>::call, (service, request), future),
            *final(final(self).inner) == *final(old(self).inner),
    {
        self.inner.call(request)
    }
}

} // verus!
