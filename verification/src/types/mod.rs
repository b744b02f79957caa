//! Public data types.

mod event;
mod greeting;
mod json;
mod message;

pub use event::{Event, EventMessage, Timestamp};
pub use greeting::{Greeting, QmpInfo, QmpVersion, QmpVersionNumber};
pub use message::{QmpError, QmpResponse};
