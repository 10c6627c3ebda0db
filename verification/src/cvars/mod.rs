//! Settings: the registered table, the knobs it feeds and the file it is kept in.
pub mod config_map;
pub mod compose;
pub mod knobs;
pub mod file_laws;
pub mod knob_laws;
pub mod registered;
pub mod row_laws;
pub mod session;
pub mod session_laws;
pub mod stored;
pub mod persist;
pub mod write_laws;
