//! The client side of the WebSocket opening handshake, as a state machine on
//! bytes: the upgrade request is written into a buffer, the response is read
//! from one, and the transport stays with the caller.

pub mod authorizer;
pub mod encoder;
pub mod error;
pub mod handshake;
pub mod head;
pub mod key;
pub mod message;
pub mod parse;
pub mod status;
pub mod text;

pub use authorizer::{Authorizer, SimpleAuthorizer, USER_AGENT};
pub use encoder::{check_header, encoder, is_reserved, Encoder, EncoderDone};
pub use error::{Error, ParseError};
pub use handshake::{Async, HandshakeProto, State, Transfer, Upgrade};
pub use head::{Head, Header};
pub use key::Key;
pub use message::{HeaderError, MessageState};
pub use parse::{MAX_HEADERS, MIN_HEADERS};
pub use status::{Status, Version};
