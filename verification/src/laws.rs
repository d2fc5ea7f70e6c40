//! Laws of the library: what holds of whole runs and across its parts.
pub mod answers;
pub mod channel;
pub mod client;
pub mod exchange;
pub mod posting;
pub mod progress;
pub mod sessions;
pub mod shared;
pub mod stable;
pub mod texts;
