//! The realtime shadow: what it costs, what casts it, and the light it is cast from.
pub mod caster_laws;
pub mod collection_laws;
pub mod geometry;
pub mod lanes;
pub mod quality;
pub mod rig;
pub mod rig_laws;
