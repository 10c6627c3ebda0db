//! The graphics settings: their way to the renderers, and the panel that edits them live.
pub mod bridges;
pub mod gfx_laws;
pub mod panel;
pub mod panel_laws;
