//! Streamed responses on a server connection, played against a model of the
//! stream: a flow-control window, a queue of accepted data and the frames
//! that reach the wire.

use std::cell::Cell;
use std::collections::VecDeque;
use std::error::Error as StdError;
use std::rc::Rc;

use tower_h2::body::{Body, NoBody, NoData};
use tower_h2::flush::{
    poll_data, poll_trailers, FlushEffect, FlushEvent, FlushRequest,
};
use tower_h2::poll::Async;
use tower_h2::reason::Reason;
use tower_h2::recv_body::{receive, Data};
use tower_h2::server::background::{Background, BackgroundEvent, BackgroundRequest};
use tower_h2::server::connection::{Connection, ServerError, ServerEvent, ServerRequest};

const CANCEL: u32 = 8;

#[derive(Debug, Clone, PartialEq)]
enum Frame {
    Headers { status: u16, eos: bool },
    Data(Vec<u8>, bool),
    Trailers,
    Reset(u32),
}

fn data(bytes: &[u8]) -> Frame {
    Frame::Data(bytes.to_vec(), false)
}

fn data_eos(bytes: &[u8]) -> Frame {
    Frame::Data(bytes.to_vec(), true)
}

trait Chunk {
    fn into_vec(self) -> Vec<u8>;
}

impl Chunk for Vec<u8> {
    fn into_vec(self) -> Vec<u8> {
        self
    }
}

impl Chunk for NoData {
    fn into_vec(self) -> Vec<u8> {
        Vec::new()
    }
}

struct MockStream {
    window: usize,
    requested: usize,
    queued: VecDeque<(Vec<u8>, bool)>,
    wire: Vec<Frame>,
    peer_reset: Option<u32>,
}

impl MockStream {
    fn new() -> Self {
        MockStream {
            window: 65_535,
            requested: 0,
            queued: VecDeque::new(),
            wire: Vec::new(),
            peer_reset: None,
        }
    }

    fn queued_bytes(&self) -> usize {
        self.queued.iter().map(|(d, _)| d.len()).sum()
    }

    fn capacity(&self) -> usize {
        self.requested.min(self.window.saturating_sub(self.queued_bytes()))
    }

    fn poll_capacity(&mut self) -> Result<Async<Option<usize>>, h2::Error> {
        if let Some(code) = self.peer_reset {
            return Err(h2::Error::from(h2::Reason::from(code)));
        }
        match self.capacity() {
            0 => Ok(Async::NotReady),
            n => Ok(Async::Ready(Some(n))),
        }
    }

    fn poll_reset(&mut self) -> Result<Async<Reason>, h2::Error> {
        match self.peer_reset {
            Some(code) => Ok(Async::Ready(Reason::new(code))),
            None => Ok(Async::NotReady),
        }
    }

    fn pump(&mut self) {
        while let Some((bytes, eos)) = self.queued.front_mut() {
            if bytes.is_empty() {
                let eos = *eos;
                self.queued.pop_front();
                self.wire.push(Frame::Data(Vec::new(), eos));
                continue;
            }
            if self.window == 0 {
                break;
            }
            let n = self.window.min(bytes.len());
            let part: Vec<u8> = bytes.drain(..n).collect();
            self.window -= n;
            let last = bytes.is_empty();
            let eos = *eos && last;
            if last {
                self.queued.pop_front();
            }
            self.wire.push(Frame::Data(part, eos));
        }
    }

    fn window_update(&mut self, n: usize) {
        self.window += n;
        self.pump();
    }

    fn apply<D: Chunk>(&mut self, effect: FlushEffect<D>) {
        match effect {
            FlushEffect::Data { data, end_stream } => {
                let bytes = data.map(Chunk::into_vec).unwrap_or_default();
                self.requested = 0;
                self.queued.push_back((bytes, end_stream));
                self.pump();
            }
            FlushEffect::Trailers(_) => self.wire.push(Frame::Trailers),
            FlushEffect::Reset(reason) => self.wire.push(Frame::Reset(reason.code())),
            FlushEffect::Release => self.requested = 0,
        }
    }
}

/// The reason of the first error of the framing layer in the chain of causes.
fn reason_from_dyn_error(err: &(dyn StdError + 'static)) -> Option<Reason> {
    let mut cause = Some(err);
    while let Some(e) = cause {
        if let Some(h2) = e.downcast_ref::<h2::Error>() {
            return h2.reason().map(|r| Reason::new(r.into()));
        }
        cause = e.source();
    }
    None
}

struct RecvBody {
    inbound: VecDeque<bytes::Bytes>,
    released: Rc<Cell<usize>>,
}

impl Body for RecvBody {
    type Item = Data;
    type Error = h2::Error;

    fn is_end_stream(&self) -> bool {
        self.inbound.is_empty()
    }

    fn poll_buf(&mut self) -> Result<Async<Option<Data>>, h2::Error> {
        let received = receive(Ok(Async::Ready(self.inbound.pop_front())));
        if let Some(n) = received.release {
            self.released.set(self.released.get() + n);
        }
        received.item
    }

    fn poll_trailers(&mut self) -> Result<Async<Option<http::HeaderMap>>, h2::Error> {
        Ok(Async::Ready(None))
    }
}

fn read_recv_body(body: &mut RecvBody) -> Option<Vec<u8>> {
    let mut bytes: Option<Vec<u8>> = None;
    loop {
        match body.poll_buf().expect("inbound stream") {
            Async::Ready(Some(chunk)) => {
                bytes.get_or_insert_with(Vec::new).extend_from_slice(chunk.bytes());
            }
            Async::Ready(None) => return bytes,
            Async::NotReady => panic!("inbound data is all there"),
        }
    }
}

struct Req {
    path: String,
    body: RecvBody,
}

type Answer<B> = Result<(u16, B), Box<dyn StdError>>;

struct Exchange<B> {
    id: u32,
    task: Background,
    response: Option<Answer<B>>,
    status: u16,
    body: Option<B>,
    stream: MockStream,
    outcome: Option<Result<(), ()>>,
}

impl<B> Exchange<B>
where
    B: Body,
    B::Item: Chunk,
    B::Error: Into<Box<dyn StdError>>,
{
    fn body_event(
        polled: Result<FlushEvent<B::Item>, B::Error>,
    ) -> BackgroundEvent<B::Item> {
        BackgroundEvent::Stream(match polled {
            Ok(event) => event,
            Err(err) => {
                let err: Box<dyn StdError> = err.into();
                FlushEvent::BodyFailed(reason_from_dyn_error(&*err))
            }
        })
    }

    fn poll(&mut self) {
        if self.outcome.is_some() {
            return;
        }
        let mut step = self.task.step(BackgroundEvent::Stream(FlushEvent::Polled));
        loop {
            if let Some(effect) = step.effect.take() {
                self.stream.apply(effect);
            }
            let event = match step.next {
                BackgroundRequest::PollReset => {
                    BackgroundEvent::Stream(FlushEvent::from_reset_poll(self.stream.poll_reset()))
                }
                BackgroundRequest::PollResponse => match self.response.take() {
                    None => BackgroundEvent::Stream(FlushEvent::Pending),
                    Some(Ok((status, body))) => {
                        let end_stream = body.is_end_stream();
                        self.status = status;
                        self.body = Some(body);
                        BackgroundEvent::Response { end_stream }
                    }
                    Some(Err(_)) => BackgroundEvent::ResponseFailed,
                },
                BackgroundRequest::SendHeaders { end_stream } => {
                    self.stream.wire.push(Frame::Headers { status: self.status, eos: end_stream });
                    BackgroundEvent::HeadersSent
                }
                BackgroundRequest::Flush(request) => match request {
                    FlushRequest::Reserve(n) => {
                        self.stream.requested = n;
                        BackgroundEvent::Stream(FlushEvent::Capacity(self.stream.capacity()))
                    }
                    FlushRequest::PollCapacity => BackgroundEvent::Stream(
                        FlushEvent::from_capacity_poll(self.stream.poll_capacity()),
                    ),
                    FlushRequest::PollReset => BackgroundEvent::Stream(
                        FlushEvent::from_reset_poll(self.stream.poll_reset()),
                    ),
                    FlushRequest::PollData => {
                        Self::body_event(poll_data(self.body.as_mut().expect("body")))
                    }
                    FlushRequest::PollTrailers => {
                        Self::body_event(poll_trailers(self.body.as_mut().expect("body")))
                    }
                    FlushRequest::Yield => return,
                    FlushRequest::Finished(result) => {
                        self.outcome = Some(result.map_err(|_| ()));
                        self.body = None;
                        return;
                    }
                },
                BackgroundRequest::Yield => return,
                BackgroundRequest::Finished(result) => {
                    self.outcome = Some(result.map_err(|_| ()));
                    self.body = None;
                    return;
                }
            };
            step = self.task.step(event);
        }
    }
}

struct Inbound {
    id: u32,
    path: &'static str,
    data: Vec<&'static str>,
}

struct Server<B> {
    session: Connection<(), Box<dyn StdError>>,
    service: Box<dyn FnMut(Req) -> Answer<B>>,
    inbound: VecDeque<Inbound>,
    accepted: Option<Inbound>,
    closed: bool,
    exchanges: Vec<Exchange<B>>,
    released: Rc<Cell<usize>>,
    outcome: Option<Result<(), ServerError<(), Box<dyn StdError>>>>,
    dispatched: usize,
}

impl<B> Server<B>
where
    B: Body,
    B::Item: Chunk,
    B::Error: Into<Box<dyn StdError>>,
{
    fn new(service: impl FnMut(Req) -> Answer<B> + 'static) -> Self {
        Server {
            session: Connection::new(),
            service: Box::new(service),
            inbound: VecDeque::new(),
            accepted: None,
            closed: false,
            exchanges: Vec::new(),
            released: Rc::new(Cell::new(0)),
            outcome: None,
            dispatched: 0,
        }
    }

    fn request(&mut self, id: u32, method: &'static str, uri: &'static str, data: Vec<&'static str>) {
        assert_eq!(method, "GET");
        let path = uri.trim_start_matches("https://example.com");
        self.inbound.push_back(Inbound { id, path, data });
    }

    fn poll_session(&mut self) {
        if self.outcome.is_some() {
            return;
        }
        let mut step = self.session.step(ServerEvent::Polled);
        loop {
            assert!(!step.shutdown, "no shutdown is signalled in these exchanges");
            let event = match step.next {
                ServerRequest::PollInit => ServerEvent::Initialized,
                ServerRequest::PollService => ServerEvent::ServiceReady,
                ServerRequest::Accept => match self.inbound.pop_front() {
                    Some(next) => {
                        self.accepted = Some(next);
                        ServerEvent::Accepted
                    }
                    None if self.closed => ServerEvent::Exhausted,
                    None => ServerEvent::Pending,
                },
                ServerRequest::Dispatch => {
                    let next = self.accepted.take().expect("accepted stream");
                    let body = RecvBody {
                        inbound: next.data.iter().map(|d| bytes::Bytes::from(*d)).collect(),
                        released: self.released.clone(),
                    };
                    let response = (self.service)(Req { path: next.path.to_string(), body });
                    self.exchanges.push(Exchange {
                        id: next.id,
                        task: Background::new(),
                        response: Some(response),
                        status: 0,
                        body: None,
                        stream: MockStream::new(),
                        outcome: None,
                    });
                    self.dispatched += 1;
                    ServerEvent::Spawned
                }
                ServerRequest::PollClose => {
                    if self.closed {
                        ServerEvent::Closed
                    } else {
                        ServerEvent::Pending
                    }
                }
                ServerRequest::Yield => return,
                ServerRequest::Finished(result) => {
                    self.outcome = Some(result);
                    return;
                }
            };
            step = self.session.step(event);
        }
    }

    fn run(&mut self) {
        self.poll_session();
        for exchange in self.exchanges.iter_mut() {
            exchange.poll();
        }
    }

    fn exchange(&mut self, id: u32) -> &mut Exchange<B> {
        self.exchanges.iter_mut().find(|x| x.id == id).expect("stream")
    }

    fn wire(&mut self, id: u32) -> Vec<Frame> {
        self.exchange(id).stream.wire.clone()
    }

    fn close(&mut self) {
        self.closed = true;
        self.run();
        match self.outcome.take() {
            Some(Ok(())) => {}
            Some(Err(e)) => panic!("err={:?}", e.description()),
            None => panic!("the connection did not finish"),
        }
    }
}

struct RspBody(Option<Vec<u8>>);

impl RspBody {
    fn new(body: &str) -> Self {
        RspBody(Some(body.as_bytes().to_vec()))
    }

    fn empty() -> Self {
        RspBody(None)
    }
}

impl Body for RspBody {
    type Item = Vec<u8>;
    type Error = h2::Error;

    fn is_end_stream(&self) -> bool {
        self.0.as_ref().map(|b| b.is_empty()).unwrap_or(false)
    }

    fn poll_buf(&mut self) -> Result<Async<Option<Vec<u8>>>, h2::Error> {
        let data = self.0.take().and_then(|b| if b.is_empty() { None } else { Some(b) });
        Ok(Async::Ready(data))
    }

    fn poll_trailers(&mut self) -> Result<Async<Option<http::HeaderMap>>, h2::Error> {
        Ok(Async::Ready(None))
    }
}

#[test]
fn streaming_hello() {
    let mut h2 = Server::new(|_request| Ok((200, NoBody)));

    h2.request(1, "GET", "https://example.com/", vec![]);
    h2.run();
    assert_eq!(h2.wire(1), vec![Frame::Headers { status: 200, eos: true }]);
    h2.close();
}

#[test]
fn streaming_hello_bodies() {
    let mut h2 = Server::new(|mut request: Req| {
        let body = read_recv_body(&mut request.body);
        assert_eq!(body, Some("hello world".into()));
        Ok((200, RspBody::new("hello back")))
    });

    h2.request(1, "GET", "https://example.com/", vec!["hello world"]);
    h2.run();
    assert_eq!(
        h2.wire(1)[..2].to_vec(),
        vec![Frame::Headers { status: 200, eos: false }, data(b"hello back")]
    );
    assert_eq!(h2.wire(1)[2..].to_vec(), vec![Frame::Data(Vec::new(), true)]);
    h2.close();
}

#[test]
fn streaming_hello_rsp_body() {
    let mut h2 = Server::new(|_req| Ok((200, RspBody::new("hello back"))));

    h2.request(1, "GET", "https://example.com/", vec![]);
    h2.run();
    assert_eq!(
        h2.wire(1)[..2].to_vec(),
        vec![Frame::Headers { status: 200, eos: false }, data(b"hello back")]
    );
    assert_eq!(h2.wire(1)[2..].to_vec(), vec![Frame::Data(Vec::new(), true)]);
    h2.close();
}

#[test]
fn streaming_hello_req_body() {
    let mut h2 = Server::new(|mut request: Req| {
        let body = read_recv_body(&mut request.body);
        assert_eq!(body, Some("hello world".into()));
        Ok((200, NoBody))
    });

    h2.request(1, "GET", "https://example.com/", vec!["hello ", "world"]);
    h2.run();
    assert_eq!(h2.wire(1), vec![Frame::Headers { status: 200, eos: true }]);
    assert_eq!(h2.released.get(), 11);
    h2.close();
}

#[test]
fn streaming_empty_body_is_not_ended() {
    // A body without content that does not say so is flushed: the stream is
    // ended by the empty frame.
    let mut h2 = Server::new(|_req| Ok((200, RspBody::empty())));

    h2.request(1, "GET", "https://example.com/", vec![]);
    h2.run();
    assert_eq!(
        h2.wire(1),
        vec![Frame::Headers { status: 200, eos: false }, Frame::Data(Vec::new(), true)]
    );
    h2.close();
}

struct Zeros {
    buf: Vec<u8>,
    cnt: Rc<Cell<usize>>,
    eos_signal: bool,
}

impl Zeros {
    fn new(cnt: Rc<Cell<usize>>, eos_signal: bool) -> Zeros {
        Zeros { buf: vec![0; 16_384], cnt, eos_signal }
    }
}

impl Body for Zeros {
    type Item = Vec<u8>;
    type Error = h2::Error;

    fn is_end_stream(&self) -> bool {
        self.eos_signal && self.cnt.get() == 5
    }

    fn poll_buf(&mut self) -> Result<Async<Option<Vec<u8>>>, h2::Error> {
        let cnt = self.cnt.get();

        if cnt == 5 {
            if self.eos_signal {
                panic!("the library should not have called this");
            }
            Ok(Async::Ready(None))
        } else {
            self.cnt.set(cnt + 1);
            Ok(Async::Ready(Some(self.buf.clone())))
        }
    }

    fn poll_trailers(&mut self) -> Result<Async<Option<http::HeaderMap>>, h2::Error> {
        Ok(Async::Ready(None))
    }
}

#[test]
fn streaming_respects_flow_control_eos_signal() {
    let frame = vec![0; 16_384];
    let cnt = Rc::new(Cell::new(0));
    let cnt2 = cnt.clone();

    let mut h2 = Server::new(move |_request| Ok((200, Zeros::new(cnt.clone(), true))));

    h2.request(1, "GET", "https://example.com/", vec![]);
    h2.run();
    assert_eq!(
        h2.wire(1),
        vec![
            Frame::Headers { status: 200, eos: false },
            data(&frame[..]),
            data(&frame[..]),
            data(&frame[..]),
            data(&frame[..16383]),
        ]
    );
    h2.run();
    assert_eq!(4, cnt2.get());

    h2.exchange(1).stream.window_update(1_000_000);
    h2.run();
    assert_eq!(
        h2.wire(1)[5..].to_vec(),
        vec![data(&frame[..1]), Frame::Data(frame.clone(), true)]
    );
    h2.close();
}

#[test]
fn streaming_respects_flow_control_no_eos_signal() {
    let frame = vec![0; 16_384];
    let cnt = Rc::new(Cell::new(0));
    let cnt2 = cnt.clone();

    let mut h2 = Server::new(move |_request| Ok((200, Zeros::new(cnt.clone(), false))));

    h2.request(1, "GET", "https://example.com/", vec![]);
    h2.run();
    assert_eq!(
        h2.wire(1),
        vec![
            Frame::Headers { status: 200, eos: false },
            data(&frame[..]),
            data(&frame[..]),
            data(&frame[..]),
            data(&frame[..16383]),
        ]
    );
    h2.run();
    assert_eq!(4, cnt2.get());

    h2.exchange(1).stream.window_update(1_000_000);
    h2.run();
    assert_eq!(
        h2.wire(1)[5..].to_vec(),
        vec![data(&frame[..1]), data(&frame[..]), Frame::Data(Vec::new(), true)]
    );
    h2.close();
}

#[test]
fn streaming_flushing_body_cancels_if_reset() {
    struct Stall {
        buf: Vec<u8>,
        cnt: usize,
        dropped: Rc<Cell<usize>>,
    }

    impl Drop for Stall {
        fn drop(&mut self) {
            let n = self.dropped.get();
            self.dropped.set(n + 1);
        }
    }

    impl Body for Stall {
        type Item = Vec<u8>;
        type Error = h2::Error;

        fn is_end_stream(&self) -> bool {
            false
        }

        fn poll_buf(&mut self) -> Result<Async<Option<Vec<u8>>>, h2::Error> {
            if self.cnt == 1 {
                Ok(Async::NotReady)
            } else {
                self.cnt += 1;
                Ok(Async::Ready(Some(self.buf.clone())))
            }
        }

        fn poll_trailers(&mut self) -> Result<Async<Option<http::HeaderMap>>, h2::Error> {
            Ok(Async::Ready(None))
        }
    }

    let frame = vec![0; 16_384];
    let dropped = Rc::new(Cell::new(0));
    let dropped2 = dropped.clone();

    let mut h2 = Server::new(move |_request| {
        Ok((200, Stall { buf: vec![0; 16_384], cnt: 0, dropped: dropped2.clone() }))
    });

    h2.request(1, "GET", "https://example.com/", vec![]);
    h2.run();
    assert_eq!(h2.wire(1), vec![Frame::Headers { status: 200, eos: false }, data(&frame[..])]);

    h2.exchange(1).stream.peer_reset = Some(CANCEL);
    h2.run();
    assert_eq!(h2.exchange(1).outcome, Some(Err(())));
    assert_eq!(h2.wire(1).len(), 2);
    h2.close();

    assert_eq!(dropped.get(), 1);
}
