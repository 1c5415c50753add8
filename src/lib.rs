//! Subscriptions of a STOMP client and the dispatch of received frames to
//! caller-supplied handlers.

pub mod ack;
pub mod frame;
pub mod handler;
pub mod subscription;

pub use ack::{AckMode, AckOrNack};
pub use frame::{Frame, Header, HeaderList};
pub use handler::{FnMessageHandler, MessageHandler, SenderMessageHandler, ToMessageHandler};
pub use subscription::Subscription;
