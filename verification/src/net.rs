//! Network addresses, and which of them belong to a local network.

use vstd::prelude::*;

verus! {

/// An IP address as the number that its octets spell, most significant first.
#[derive(Debug, Clone, Copy, PartialEq, Eq, Structural)]
pub enum IpAddr {
    V4(u32),
    V6(u128),
}

/// An address and a port.
#[derive(Debug, Clone, Copy, PartialEq, Eq, Structural)]
pub struct SocketAddr {
    pub ip: IpAddr,
    pub port: u16,
}

/// Whether `addr` is among the `size` addresses that start at `first`.
pub open spec fn within(addr: int, first: int, size: int) -> bool {
    first <= addr < first + size
}

/// Loopback, site-local, link-local and CGNAT addresses of IPv4.
pub open spec fn is_private_v4(addr: int) -> bool {
    // 127.0.0.0/8
    ||| within(addr, 0x7F00_0000, 0x100_0000)
    // 10.0.0.0/8, 172.16.0.0/12, 192.168.0.0/16
    ||| within(addr, 0x0A00_0000, 0x100_0000)
    ||| within(addr, 0xAC10_0000, 0x10_0000)
    ||| within(addr, 0xC0A8_0000, 0x1_0000)
    // 169.254.0.0/16
    ||| within(addr, 0xA9FE_0000, 0x1_0000)
    // 100.64.0.0/10
    ||| within(addr, 0x6440_0000, 0x40_0000)
}

/// Loopback, link-local and unique local addresses of IPv6.
pub open spec fn is_private_v6(addr: int) -> bool {
    // ::1
    ||| addr == 1
    // fe80::/10
    ||| within(
        addr,
        0xFE80_0000_0000_0000_0000_0000_0000_0000int,
        0x40_0000_0000_0000_0000_0000_0000_0000int,
    )
    // fc00::/7
    ||| within(
        addr,
        0xFC00_0000_0000_0000_0000_0000_0000_0000int,
        0x200_0000_0000_0000_0000_0000_0000_0000int,
    )
}

/// Whether `ip` belongs to a local network.
pub open spec fn is_private(ip: IpAddr) -> bool {
    match ip {
        IpAddr::V4(a) => is_private_v4(a as int),
        IpAddr::V6(a) => is_private_v6(a as int),
    }
}

/// The IPv4 address with the given octets is private if and only if it is one of
/// 127.b.c.d, 10.b.c.d, 172.16.c.d to 172.31.c.d, 192.168.c.d, 169.254.c.d and
/// 100.64.c.d to 100.127.c.d, whatever the other octets are.
pub proof fn law_private_ipv4_by_octets(addr: u32, a: u8, b: u8, c: u8, d: u8)
    requires
        addr == a * 0x100_0000 + b * 0x1_0000 + c * 0x100 + d,
    ensures
        is_private(IpAddr::V4(addr)) <==> {
            ||| a == 127
            ||| a == 10
            ||| a == 172 && 16 <= b < 32
            ||| a == 192 && b == 168
            ||| a == 169 && b == 254
            ||| a == 100 && 64 <= b < 128
        },
{
}

/// The IPv6 address whose first 16 bits are `head` and whose others are `rest` is
/// private if and only if it is ::1, or its head begins with the 10 bits of
/// fe80::/10 or the 7 bits of fc00::/7.
pub proof fn law_private_ipv6_by_head(addr: u128, head: u16, rest: int)
    requires
        0 <= rest < 0x1_0000_0000_0000_0000_0000_0000_0000int,
        addr == head * 0x1_0000_0000_0000_0000_0000_0000_0000int + rest,
    ensures
        is_private(IpAddr::V6(addr)) <==> {
            ||| head == 0 && rest == 1
            ||| head / 64 == 0xFE80u16 / 64
            ||| head / 512 == 0xFC00u16 / 512
        },
{
}

/// Whether `ip` belongs to a local network: loopback, site-local, link-local,
/// CGNAT (100.64.0.0/10) or IPv6 unique local (fc00::/7). KDE Connect is a LAN
/// protocol; traffic from any other address is refused.
pub fn is_private_address(ip: &IpAddr) -> (r: bool)
    ensures
        r == is_private(*ip),
{
    match ip {
        IpAddr::V4(a) => {
            let first: u32 = *a / 0x100_0000;
            let second: u32 = (*a / 0x1_0000) % 0x100;
            first == 127 || first == 10 || (first == 172 && 16 <= second && second < 32) || (first
                == 192 && second == 168) || (first == 169 && second == 254) || (first == 100 && 64
                <= second && second < 128)
        },
        IpAddr::V6(a) => {
            let first: u128 = *a / 0x1_0000_0000_0000_0000_0000_0000_0000u128;
            *a == 1 || (0xFE80 <= first && first < 0xFEC0) || (0xFC00 <= first && first < 0xFE00)
        },
    }
}

} // verus!
