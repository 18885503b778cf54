//! The filters that ship with the engine.

pub mod blacklist;
pub mod content;
pub mod forwarder;
pub mod kinds;
pub mod protected_events;
pub mod rate_limit;
pub mod ratelimit;
pub mod whitelist;

pub use blacklist::Blacklist;
pub use content::Content;
pub use forwarder::Forwarder;
pub use kinds::Kinds;
pub use protected_events::ProtectedEvents;
pub use rate_limit::RateInfo;
pub use ratelimit::{RateLimit, Tokens};
pub use whitelist::Whitelist;
