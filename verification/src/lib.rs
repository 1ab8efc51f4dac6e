//! Bridge between a host's native plugin entry points and typed events.
//!
//! The host hands over integers and byte strings. This library decodes them
//! into records and events, says which exported entry point a handler belongs
//! to, and turns the state an event is left in into the code the host expects.
//!
//! - [`wire`]: big-endian integers as mathematical values.
//! - [`cursor`]: a cursor over bytes and the reads of single values.
//! - [`targets`]: records inside base64 envelopes.
//! - [`events`]: the events and their cancellation.
//! - [`table`]: the entry points of each kind of event and their arguments.
//! - [`dispatch`]: binding a handler to an entry point, and delivering an event.
//! - [`error`]: what can go wrong while decoding.

pub mod cursor;
pub mod dispatch;
pub mod error;
pub mod events;
pub mod table;
pub mod targets;
pub mod wire;
