//! Links to peers: their framing, their identities and the table of live ones.

pub mod framing;
pub mod inbound;
pub mod manager;
pub mod outbound;
pub mod tls;
