//! The lights that entities carry and throw: where a carried light hangs, which rooms it claims,
//! and how the light of a spell effect lives and ends.
pub mod budget;
pub mod carried;
pub mod claim_laws;
pub mod claims;
pub mod hierarchy;
pub mod lifecycle;
pub mod light_laws;
pub mod state_laws;
