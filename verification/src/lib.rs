//! Verified core of a KDE Connect daemon.

pub mod error;
pub mod net;
pub mod outside;
pub mod packet;
pub mod plugins;
pub mod protocol;
pub mod table;
pub mod text;
pub mod text_laws;
pub mod view_laws;
