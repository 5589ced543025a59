//! Session layer between an HTTP/2 framing engine and a request/response
//! service: the decisions of every exchange, stated as verified state machines.

pub mod balance;
pub mod body;
pub mod client;
pub mod flush;
pub mod framing;
pub mod poll;
pub mod reason;
pub mod recv_body;
pub mod server;
pub mod service;

pub use crate::body::{Body, NoBody};
pub use crate::reason::Reason;
pub use crate::recv_body::Data;
pub use crate::service::HttpService;
