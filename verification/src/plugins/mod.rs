//! The plugins whose decisions are made here.

pub mod call_laws;
pub mod systemvolume;
pub mod telephony;
pub mod tool;
