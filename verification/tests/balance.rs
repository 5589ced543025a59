use std::collections::VecDeque;
use std::io;
use std::sync::{Arc, Weak};

use tower_h2::balance::{
    PendingUntilEos, PendingUntilEosBody, PendingUntilFirstData, PendingUntilFirstDataBody,
};
use tower_h2::body::Body;
use tower_h2::poll::Async;

struct Handle(#[allow(dead_code)] Arc<()>);

impl Handle {
    fn new() -> (Self, Weak<()>) {
        let strong = Arc::new(());
        let weak = Arc::downgrade(&strong);
        (Handle(strong), weak)
    }
}

#[derive(Default)]
struct TestBody(VecDeque<io::Cursor<&'static str>>, Option<http::HeaderMap>);

impl Body for TestBody {
    type Item = io::Cursor<&'static str>;
    type Error = io::Error;

    fn is_end_stream(&self) -> bool {
        self.0.is_empty() & self.1.is_none()
    }

    fn poll_buf(&mut self) -> Result<Async<Option<Self::Item>>, Self::Error> {
        Ok(Async::Ready(self.0.pop_front()))
    }

    fn poll_trailers(&mut self) -> Result<Async<Option<http::HeaderMap>>, Self::Error> {
        assert!(self.0.is_empty());
        Ok(Async::Ready(self.1.take()))
    }
}

#[derive(Default)]
struct ErrBody(Option<io::Error>);

impl Body for ErrBody {
    type Item = io::Cursor<&'static str>;
    type Error = io::Error;

    fn is_end_stream(&self) -> bool {
        self.0.is_none()
    }

    fn poll_buf(&mut self) -> Result<Async<Option<Self::Item>>, Self::Error> {
        Err(self.0.take().expect("err"))
    }

    fn poll_trailers(&mut self) -> Result<Async<Option<http::HeaderMap>>, Self::Error> {
        Err(self.0.take().expect("err"))
    }
}

/// A body that is not ready at first, then yields one chunk.
struct SlowBody {
    polls: usize,
}

impl Body for SlowBody {
    type Item = io::Cursor<&'static str>;
    type Error = io::Error;

    fn is_end_stream(&self) -> bool {
        self.polls >= 2
    }

    fn poll_buf(&mut self) -> Result<Async<Option<Self::Item>>, Self::Error> {
        self.polls += 1;
        if self.polls == 1 {
            Ok(Async::NotReady)
        } else {
            Ok(Async::Ready(Some(io::Cursor::new("late"))))
        }
    }

    fn poll_trailers(&mut self) -> Result<Async<Option<http::HeaderMap>>, Self::Error> {
        Ok(Async::NotReady)
    }
}

#[test]
fn lib_first_data() {
    let body = {
        let mut parts = VecDeque::new();
        parts.push_back(io::Cursor::new("one"));
        TestBody(parts, None)
    };

    let (h, wk) = Handle::new();
    let (_, body) = http::Response::new(body).into_parts();
    let mut body = PendingUntilFirstData::default().instrument(h, body);
    assert!(wk.upgrade().is_some());

    assert!(body.poll_buf().expect("data").is_ready());
    assert!(wk.upgrade().is_none());
}

#[test]
fn lib_first_data_empty() {
    let body = TestBody::default();

    let (h, wk) = Handle::new();
    let (_, body) = http::Response::new(body).into_parts();
    let _body = PendingUntilFirstData::default().instrument(h, body);
    assert!(wk.upgrade().is_none());
}

#[test]
fn lib_first_data_drop() {
    let body = {
        let mut parts = VecDeque::new();
        parts.push_back(io::Cursor::new("one"));
        TestBody(parts, None)
    };

    let (h, wk) = Handle::new();
    let (_, body) = http::Response::new(body).into_parts();
    let body = PendingUntilFirstData::default().instrument(h, body);
    assert!(wk.upgrade().is_some());

    drop(body);
    assert!(wk.upgrade().is_none());
}

#[test]
fn lib_first_data_error() {
    let body = {
        let mut parts = VecDeque::new();
        parts.push_back(io::Cursor::new("one"));
        parts.push_back(io::Cursor::new("two"));
        let e: io::Error = io::ErrorKind::Other.into();
        ErrBody(Some(e))
    };

    let (h, wk) = Handle::new();
    let (_, body) = http::Response::new(body).into_parts();
    let mut body = PendingUntilFirstData::default().instrument(h, body);
    assert!(wk.upgrade().is_some());

    assert!(body.poll_buf().is_err());
    assert!(wk.upgrade().is_none());
}

#[test]
fn lib_eos() {
    let body = {
        let mut parts = VecDeque::new();
        parts.push_back(io::Cursor::new("one"));
        parts.push_back(io::Cursor::new("two"));
        TestBody(parts, None)
    };

    let (h, wk) = Handle::new();
    let (_, body) = http::Response::new(body).into_parts();
    let mut body = PendingUntilEos::default().instrument(h, body);
    assert!(wk.upgrade().is_some());

    assert!(body.poll_buf().expect("data").is_ready());
    assert!(wk.upgrade().is_some());

    assert!(body.poll_buf().expect("data").is_ready());
    assert!(wk.upgrade().is_none());
}

#[test]
fn lib_eos_empty() {
    let body = TestBody::default();

    let (h, wk) = Handle::new();
    let (_, body) = http::Response::new(body).into_parts();
    let _body = PendingUntilEos::default().instrument(h, body);
    assert!(wk.upgrade().is_none());
}

#[test]
fn lib_eos_trailers() {
    let body = {
        let mut parts = VecDeque::new();
        parts.push_back(io::Cursor::new("one"));
        parts.push_back(io::Cursor::new("two"));
        TestBody(parts, Some(http::HeaderMap::default()))
    };

    let (h, wk) = Handle::new();
    let (_, body) = http::Response::new(body).into_parts();
    let mut body = PendingUntilEos::default().instrument(h, body);
    assert!(wk.upgrade().is_some());

    assert!(body.poll_buf().expect("data").is_ready());
    assert!(wk.upgrade().is_some());

    assert!(body.poll_buf().expect("data").is_ready());
    assert!(wk.upgrade().is_some());

    assert!(body.poll_buf().expect("data").is_ready());
    assert!(wk.upgrade().is_some());

    assert!(body.poll_trailers().expect("trailers").is_ready());
    assert!(wk.upgrade().is_none());
}

#[test]
fn lib_eos_error() {
    let body = {
        let mut parts = VecDeque::new();
        parts.push_back(io::Cursor::new("one"));
        parts.push_back(io::Cursor::new("two"));
        let e: io::Error = io::ErrorKind::Other.into();
        ErrBody(Some(e))
    };

    let (h, wk) = Handle::new();
    let (_, body) = http::Response::new(body).into_parts();
    let mut body = PendingUntilEos::default().instrument(h, body);
    assert!(wk.upgrade().is_some());

    assert!(body.poll_buf().is_err());
    assert!(wk.upgrade().is_none());
}

#[test]
fn first_data_keeps_handle_while_not_ready() {
    let (h, wk) = Handle::new();
    let mut body = PendingUntilFirstData::default().instrument(h, SlowBody { polls: 0 });
    assert!(wk.upgrade().is_some());

    assert!(body.poll_buf().expect("data").is_not_ready());
    assert!(wk.upgrade().is_some());

    assert!(body.poll_buf().expect("data").is_ready());
    assert!(wk.upgrade().is_none());
}

#[test]
fn first_data_trailers_drop_handle() {
    let body = TestBody(VecDeque::new(), Some(http::HeaderMap::default()));
    let (h, wk) = Handle::new();
    let mut body = PendingUntilFirstData::default().instrument(h, body);
    assert!(wk.upgrade().is_some());

    assert!(body.poll_trailers().expect("trailers").is_ready());
    assert!(wk.upgrade().is_none());
}

#[test]
fn eos_keeps_handle_while_trailers_not_ready() {
    let (h, wk) = Handle::new();
    let mut body = PendingUntilEos::default().instrument(h, SlowBody { polls: 0 });
    assert!(body.poll_trailers().expect("trailers").is_not_ready());
    assert!(wk.upgrade().is_some());
    assert!(!body.is_end_stream());
}

#[test]
fn eos_after_data_rule() {
    let (h, wk) = Handle::new();
    let mut body: PendingUntilEosBody<Handle, SlowBody> =
        PendingUntilEos::attach(h, SlowBody { polls: 0 }, false);
    body.after_data(false, true);
    assert!(wk.upgrade().is_some());
    body.after_data(true, false);
    assert!(wk.upgrade().is_some());
    body.after_data(true, true);
    assert!(wk.upgrade().is_none());
}

#[test]
fn attach_drops_handle_of_ended_body() {
    let (h, wk) = Handle::new();
    let body = PendingUntilFirstData::attach(h, TestBody::default(), true);
    assert!(body.handle.is_none());
    assert!(wk.upgrade().is_none());

    let (h, wk) = Handle::new();
    let body = PendingUntilEos::attach(h, TestBody::default(), false);
    assert!(body.handle.is_some());
    assert!(wk.upgrade().is_some());
}

#[test]
fn default_bodies_hold_no_handle() {
    let body: PendingUntilFirstDataBody<Handle, TestBody> = Default::default();
    assert!(body.handle.is_none());
    assert!(body.is_end_stream());
    let body: PendingUntilEosBody<Handle, TestBody> = Default::default();
    assert!(body.handle.is_none());
    assert!(body.is_end_stream());
}
