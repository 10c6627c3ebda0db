//! The session: the handler table, the routing of what the server sends, and the mailbox.
pub mod apply;
pub mod events;
pub mod handler_laws;
pub mod handlers;
pub mod mail;
pub mod mail_laws;
pub mod read_laws;
pub mod route_laws;
pub mod steps;
