//! A pastebin core: short text clips are filed under random short
//! codes, optionally password-protected, optionally expiring. The
//! domain types validate every field, the clip store keeps one clip
//! per short code, the service actions enforce password gating and
//! expiration, and the hit counter coalesces view events into batched
//! commits. Every operation carries a contract that pins its effect.

pub mod ask;
mod assoc;
pub mod clip;
pub mod counter;
pub mod data;
pub mod field;
pub mod maintenance;
pub mod model;
pub mod service;
pub mod store;
pub mod time;

pub use clip::Clip;
pub use clip::ClipError;
pub use counter::HitCounter;
pub use field::Shortcode;
pub use service::ServiceError;
pub use store::ClipStore;
pub use time::Time;
