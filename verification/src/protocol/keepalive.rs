//! How dead links are noticed: the parameters of TCP keepalive.

use vstd::prelude::*;

verus! {

/// How long a link is idle before the first probe, in seconds.
pub const KEEPALIVE_IDLE_SECS: u64 = 30;

/// The time between probes, in seconds.
pub const KEEPALIVE_INTERVAL_SECS: u64 = 10;

/// How many probes go unanswered before a link counts as dead.
pub const KEEPALIVE_RETRIES: u32 = 3;

/// How long sent data may go unacknowledged, in seconds.
pub const TCP_USER_TIMEOUT_SECS: u64 = 30;

} // verus!
