//! The client side of a connection: the setup of a session, the decisions of
//! each call, and the errors of both.

pub mod background;
pub mod connect;
pub mod connection;

pub use self::background::Background;
pub use self::connect::{ConnectError, ConnectFuture};
pub use self::connection::{Call, ClientError, Handshake, HandshakeError, ResponseFuture};
