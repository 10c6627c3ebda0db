//! The verified core of the client: its settings, its session dispatch, its light and shadow
//! bookkeeping and its post-processing plans, as functions on plain values.
pub mod cvars;
pub mod entities;
pub mod graphics;
pub mod net;
pub mod number_laws;
pub mod post;
pub mod shadow;
pub mod single;
pub mod text;
