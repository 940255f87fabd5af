//! The verified core of a small desktop shell for IPTV data: the greeting
//! that the front end can ask for, and the declaration of the local
//! database's schema.

pub mod greeting;
pub mod schema;
pub mod plugins;
