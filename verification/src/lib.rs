//! An admission policy engine for relayed events: every submission runs
//! through an ordered chain of filters and receives exactly one verdict.
//!
//! - [`pipeline`] holds the engine: the chain, its short-circuit rule, and
//!   the building of a chain from configured names.
//! - [`filters`] holds the filters, among them the token-bucket limiter
//!   ([`filters::ratelimit`]) and the forwarder ([`filters::forwarder`]).
//! - [`relay`] is the machine that drives the forwarder's connection.
//! - [`clock`], [`decimal`] and [`listing`] are the small tools the filters
//!   share.
//!
//! The library decides. Reading requests, parsing configuration and holding
//! the connection to the collector are left to whoever embeds it.

pub mod clock;
pub mod decimal;
pub mod filters;
pub mod listing;
mod messages;
mod note_filter;
pub mod pipeline;
pub mod relay;

pub use messages::{Action, InputMessage, OutputMessage, Verdict};
pub use note_filter::{Note, NoteFilter, NoteView};
pub use pipeline::{ConfigError, Noteguard, Stage};
