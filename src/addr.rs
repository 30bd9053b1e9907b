//! IP addresses as plain integers, their normalisation and the
//! global-routability heuristic used to tell the local side of a packet.
use vstd::prelude::*;

verus! {

/// An IP address: IPv4 as its 32-bit value, IPv6 as its 128-bit value,
/// both in network (big-endian) order of significance.
#[derive(Clone, Copy, Debug, PartialEq, Eq, Hash, Structural)]
pub enum IpAddress {
    V4(u32),
    V6(u128),
}

/// The IPv4-mapped IPv6 block `::ffff:0:0/96`.
pub open spec fn is_v4_mapped(a: u128) -> bool {
    a >> 32u128 == 0xffffu128
}

/// An IPv4-mapped IPv6 address folded to its IPv4 form; any other address as is.
pub open spec fn normalized(ip: IpAddress) -> IpAddress {
    match ip {
        IpAddress::V6(a) => if is_v4_mapped(a) {
            IpAddress::V4((a & 0xffff_ffffu128) as u32)
        } else {
            ip
        },
        IpAddress::V4(_) => ip,
    }
}

/// Folds an IPv4-mapped IPv6 address to its IPv4 form.
pub fn normalize_ip(ip: IpAddress) -> (r: IpAddress)
    ensures
        r == normalized(ip),
{
    match ip {
        IpAddress::V6(a) => {
            if a >> 32u128 == 0xffffu128 {
                IpAddress::V4((a & 0xffff_ffffu128) as u32)
            } else {
                ip
            }
        },
        IpAddress::V4(_) => ip,
    }
}

/// Normalising an address that is already normalised changes nothing.
pub proof fn normalize_idempotent(ip: IpAddress)
    ensures
        normalized(normalized(ip)) == normalized(ip),
{
}

/// IPv4 blocks that are not globally reachable: this network, private
/// ranges, shared address space, loopback, link-local, protocol
/// assignments (but for its two anycast addresses), documentation,
/// benchmarking, reserved and broadcast.
pub open spec fn is_global_v4(a: u32) -> bool {
    !(a <= 0x00ff_ffff
        || (0x0a00_0000 <= a && a <= 0x0aff_ffff)
        || (0x6440_0000 <= a && a <= 0x647f_ffff)
        || (0x7f00_0000 <= a && a <= 0x7fff_ffff)
        || (0xa9fe_0000 <= a && a <= 0xa9fe_ffff)
        || (0xac10_0000 <= a && a <= 0xac1f_ffff)
        || (0xc000_0000 <= a && a <= 0xc000_00ff && a != 0xc000_0009 && a != 0xc000_000a)
        || (0xc000_0200 <= a && a <= 0xc000_02ff)
        || (0xc0a8_0000 <= a && a <= 0xc0a8_ffff)
        || (0xc612_0000 <= a && a <= 0xc613_ffff)
        || (0xc633_6400 <= a && a <= 0xc633_64ff)
        || (0xcb00_7100 <= a && a <= 0xcb00_71ff)
        || 0xf000_0000 <= a)
}

/// IPv6 blocks that are not globally reachable: unspecified, loopback,
/// IPv4-mapped, local-use translation `64:ff9b:1::/48`, discard-only
/// `100::/64`, protocol assignments `2001::/23`, documentation
/// `2001:db8::/32`, unique-local `fc00::/7` and link-local `fe80::/10`.
pub open spec fn is_global_v6(a: u128) -> bool {
    !(a <= 1
        || a >> 32u128 == 0xffffu128
        || a >> 80u128 == 0x0064_ff9b_0001u128
        || a >> 64u128 == 0x0100_0000_0000_0000u128
        || a >> 105u128 == 0x10_0080u128
        || a >> 96u128 == 0x2001_0db8u128
        || a >> 121u128 == 0x7eu128
        || a >> 118u128 == 0x3fau128)
}

pub open spec fn is_global(ip: IpAddress) -> bool {
    match ip {
        IpAddress::V4(a) => is_global_v4(a),
        IpAddress::V6(a) => is_global_v6(a),
    }
}

/// Whether the address is globally routable.
pub fn ip_is_global(ip: IpAddress) -> (r: bool)
    ensures
        r == is_global(ip),
{
    match ip {
        IpAddress::V4(a) => !(a <= 0x00ff_ffff
            || (0x0a00_0000 <= a && a <= 0x0aff_ffff)
            || (0x6440_0000 <= a && a <= 0x647f_ffff)
            || (0x7f00_0000 <= a && a <= 0x7fff_ffff)
            || (0xa9fe_0000 <= a && a <= 0xa9fe_ffff)
            || (0xac10_0000 <= a && a <= 0xac1f_ffff)
            || (0xc000_0000 <= a && a <= 0xc000_00ff && a != 0xc000_0009 && a != 0xc000_000a)
            || (0xc000_0200 <= a && a <= 0xc000_02ff)
            || (0xc0a8_0000 <= a && a <= 0xc0a8_ffff)
            || (0xc612_0000 <= a && a <= 0xc613_ffff)
            || (0xc633_6400 <= a && a <= 0xc633_64ff)
            || (0xcb00_7100 <= a && a <= 0xcb00_71ff)
            || 0xf000_0000 <= a),
        IpAddress::V6(a) => !(a <= 1
            || a >> 32u128 == 0xffffu128
            || a >> 80u128 == 0x0064_ff9b_0001u128
            || a >> 64u128 == 0x0100_0000_0000_0000u128
            || a >> 105u128 == 0x10_0080u128
            || a >> 96u128 == 0x2001_0db8u128
            || a >> 121u128 == 0x7eu128
            || a >> 118u128 == 0x3fau128),
    }
}

/// The port of the local side of a packet: the source when its address is
/// not globally routable, else the destination when its address is not,
/// else none (`0`).
pub open spec fn local_port_of(src: IpAddress, dst: IpAddress, src_port: u16, dst_port: u16) -> u16 {
    if !is_global(src) {
        src_port
    } else if !is_global(dst) {
        dst_port
    } else {
        0
    }
}

/// Picks the local port of a packet from which side is not globally routable.
pub fn local_port(src: IpAddress, dst: IpAddress, src_port: u16, dst_port: u16) -> (r: u16)
    ensures
        r == local_port_of(src, dst, src_port, dst_port),
{
    if !ip_is_global(src) {
        src_port
    } else if !ip_is_global(dst) {
        dst_port
    } else {
        0
    }
}

} // verus!
