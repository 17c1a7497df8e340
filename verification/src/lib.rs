//! Verified core of a bridge between Excel (through COM) and an embedded
//! JavaScript runtime: the request decoding, value conversions, object
//! registry, event queue, cell monitor and host-side state decisions.

pub mod text;
pub mod utf16;
pub mod json;
pub mod variant;
pub mod error;
pub mod proxy;
pub mod events;
pub mod script;
pub mod bridge;
pub mod laws;
