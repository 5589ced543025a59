//! The server side of a connection: the accept loop with its graceful
//! shutdown, and the task that answers one request.

pub mod background;
pub mod connection;
pub mod modify;

pub use self::background::Background;
pub use self::connection::{Connection, ServerError};
pub use self::modify::Modify;
