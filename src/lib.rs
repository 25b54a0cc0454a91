//! A client library for a push-notification delivery service.
//!
//! A `Message` names its target and carries delivery options, custom data and
//! an optional `Notification`. Both serialize to the service's JSON wire
//! format, leaving out every option that was not set. The service's answer,
//! an HTTP status and a body, is classified by `Message::parse_response`.
pub mod json;
pub mod message;
pub mod notification;
pub mod response;

pub use message::{DataMap, Message, Priority};
pub use notification::{Notification, NotificationBuilder};
pub use response::{GcmError, GcmResponse, MessageResult};
