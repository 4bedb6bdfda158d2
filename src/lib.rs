//! The workspace indicator's core: the authoritative workspace list and how
//! compositor events and user picks change it, and the decisions of the two
//! loops that talk to the compositor.

pub mod applet;
pub mod bridge;
pub mod history;
pub mod workspace;
