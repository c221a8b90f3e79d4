//! Verified core of `mxsend`, a one-shot Matrix notification sender: it parses the recipient,
//! resolves the message body, and decides each step of a run (log in, sync, verify, find or
//! create the room, send, log out) from what the previous step gave.

pub mod dm;
pub mod ids;
pub mod message;
pub mod recipient;
pub mod sender;
pub mod session;
pub mod text;

pub use ids::{IdError, RoomId, UserId};
pub use message::{message_from_read, resolve_message, MessageInput};
pub use recipient::{Recipient, RecipientError};
pub use sender::{Homeserver, MessageSender, SendOptions};
pub use session::{RoomRef, SendAction, SendEvent, SendRun, Stage};
