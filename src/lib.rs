//! Daily delivery of one piece of content to a changing set of subscribers.
//!
//! The modules hold the decisions of the service: which chats are subscribed,
//! where the content of a day is cached and fetched from, when the next
//! delivery is due, how a broadcast is counted, and how commands are answered.
//! Reading and writing files, talking to the network and to the messaging
//! gateway is left to the caller, which hands the outcomes back in.

pub mod broadcast;
pub mod calendar;
pub mod commands;
pub mod content;
pub mod persistence;
pub mod registry;
pub mod schedule;

pub use broadcast::{Broadcast, DeliveryReport};
pub use calendar::CalendarDate;
pub use commands::{action_for, parse_command, start_response, stop_response, Command, Response};
pub use content::{deliverable, ContentRequest, Event, FetchError, Stage, Step};
pub use persistence::{Download, Persistence};
pub use registry::{Action, Registry};
pub use schedule::{next_delivery, LocalDateTime, TimeOfDay};
