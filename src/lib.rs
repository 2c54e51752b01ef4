//! A single-slot cache for temporary credentials.
//!
//! A [`TokenCache`] holds at most one [`TemporaryToken`] together with the
//! instant at which it was fetched, and decides on each request whether the
//! cached token may be handed out again or a refresh is due.
pub mod cache;
pub mod laws;
pub mod time;
pub mod token;

pub use cache::{CacheView, TokenCache};
pub use time::{TimeDelta, Timestamp};
pub use token::TemporaryToken;
