//! Accept-time decisions of the TCP listener.
//!
//! The listener owns the accept loop; whether a fresh connection gets a full
//! client or the ignore path, and which UDP port the client is offered, are
//! decided here.

use vstd::prelude::*;

verus! {

use crate::settings::{IpAddress, Settings, ips_contain};

/// What to do with a fresh TCP connection.
#[derive(Clone, Copy, Debug, PartialEq, Eq, Structural)]
pub enum AcceptDecision {
    /// Serve the ignore path: no resources, a crash on the first stage entry.
    Ignore,
    /// Spawn a full client.
    Accept,
}

/// A banned address or a full lobby is ignored; everyone else gets a client.
pub fn accept_decision(settings: &Settings, player_count: usize, ip: IpAddress) -> (r:
    AcceptDecision)
    ensures
        r == AcceptDecision::Ignore <==> (settings.ban_list.ip_addresses@.contains(ip)
            || player_count >= settings.server.max_players),
{
    if ips_contain(&settings.ban_list.ip_addresses, ip) {
        return AcceptDecision::Ignore;
    }
    if player_count >= settings.server.max_players as usize {
        return AcceptDecision::Ignore;
    }
    AcceptDecision::Accept
}

/// The next UDP port of the round-robin pool: `base + offset`, with the
/// offset wrapping at `count`.
pub fn next_udp_port(base: u16, count: u16, offset: u16) -> (r: (u16, u16))
    requires
        count > 0,
        offset < count,
        base + offset <= u16::MAX,
    ensures
        r.0 == base + offset,
        r.1 == ((offset + 1) as int % count as int),
        r.1 < count,
{
    let port = base + offset;
    let next = (offset + 1) % count;
    (port, next)
}

} // verus!
