//! The KDE Connect protocol.

pub mod call_laws;
pub mod cert_store;
pub mod certificate;
pub mod certificate_laws;
pub mod connection;
pub mod connection_loop;
pub mod crypto;
pub mod device_id;
pub mod discovery;
pub mod keepalive;
pub mod link_laws;
pub mod listener;
pub mod mdns_discovery;
pub mod message_laws;
pub mod pem;
pub mod store_call_laws;
pub mod store_laws;
pub mod trust_laws;
pub mod verification_key;
