//! The core of a bridge between a service manager's units and an MQTT broker
//! that follows the Home Assistant discovery convention.
//!
//! The library decides and computes; it performs no input or output.  A
//! caller talks to the service manager and to the broker, hands in what it
//! learned as plain values, and gets back what to do next:
//!
//! - [`config`] and [`unit_args`] hold the settings of a run and read a
//!   unit's settings from text;
//! - [`topics`] holds the topics of an entity, the store that owns them for
//!   one session, and the slot through which a unit finds its own;
//! - [`entities`] describes the diagnostic button and the entity of each
//!   unit, down to their discovery documents;
//! - [`bridge`] is the state of the bridge, [`connect`] installs a session,
//!   [`announce`] says what to publish and ends a session, [`router`] reads
//!   messages, and [`dispatch`] is the loop that merges all events;
//! - [`payload`] gives the payloads their JSON form, with [`json`] and
//!   [`urls`] as the places where other crates are called, and [`text`] for
//!   the work on characters.

pub mod announce;
pub mod bridge;
pub mod config;
pub mod connect;
pub mod dispatch;
pub mod entities;
pub mod json;
pub mod payload;
pub mod router;
pub mod text;
pub mod topics;
pub mod unit_args;
pub mod urls;
