//! Field-level semantic decoders and the identity registry.

pub mod cardinality;
pub mod distance;
pub mod identity;
pub mod parameter;
pub mod speed;
pub mod time;
