//! The optional effects on the world camera: bloom, colour grading and sun shafts.
pub mod bloom;
pub mod cube;
pub mod ease;
pub mod effect_laws;
pub mod grading;
pub mod grading_laws;
pub mod sun_shafts;
pub mod uniform;
