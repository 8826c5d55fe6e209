//! The core of a terminal chat client: classification of server lines into
//! display records, the windowed view of the message history, the session
//! state, and the decisions of the event loop.

pub mod text;
pub mod pattern;
pub mod record;
pub mod style;
pub mod banner;
pub mod app;
pub mod outbox;
pub mod mux;
