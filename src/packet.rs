//! Reading the IP and transport headers of a diverted packet.
use vstd::prelude::*;
use crate::addr::IpAddress;

verus! {

/// What `Ipv4Slice::from_slice` of etherparse reads from a packet: source
/// and destination address, the number of the carried protocol and the
/// payload; none where it refuses the bytes.
pub uninterp spec fn ipv4_packet(data: Seq<u8>) -> Option<(u32, u32, u8, Seq<u8>)>;

/// What `Ipv6Slice::from_slice` of etherparse reads from a packet, past any
/// extension headers; none where it refuses the bytes.
pub uninterp spec fn ipv6_packet(data: Seq<u8>) -> Option<(u128, u128, u8, Seq<u8>)>;

/// The ports and payload length of a UDP or TCP segment.
#[derive(Clone, Copy, Debug, PartialEq, Eq, Structural)]
pub struct Segment {
    pub src_port: u16,
    pub dst_port: u16,
    pub payload_len: usize,
}

/// The big-endian 16-bit word at offset `i`.
pub open spec fn be16(b: Seq<u8>, i: int) -> u16 {
    (b[i] as int * 256 + b[i + 1] as int) as u16
}

/// A UDP datagram: an 8-byte header whose length field, when not zero, is at
/// least 8 and at most the bytes at hand and bounds the datagram; when zero
/// the datagram runs to the end of the bytes.
pub open spec fn udp_segment(b: Seq<u8>) -> Option<Segment> {
    if b.len() < 8 {
        None
    } else {
        let len = be16(b, 4) as int;
        if b.len() < len || (len != 0 && len < 8) {
            None
        } else {
            let end = if len == 0 { b.len() as int } else { len };
            Some(Segment { src_port: be16(b, 0), dst_port: be16(b, 2), payload_len: (end - 8) as usize })
        }
    }
}

/// A TCP segment: a header of at least 20 bytes whose length, four times the
/// upper nibble of byte 12, is at least 20 and fits the bytes at hand; the
/// payload is all that follows it.
pub open spec fn tcp_segment(b: Seq<u8>) -> Option<Segment> {
    if b.len() < 20 {
        None
    } else {
        let header_len = (b[12] as int / 16) * 4;
        if header_len < 20 || b.len() < header_len {
            None
        } else {
            Some(Segment {
                src_port: be16(b, 0),
                dst_port: be16(b, 2),
                payload_len: (b.len() - header_len) as usize,
            })
        }
    }
}

/// Relies on `etherparse::Ipv4Slice::from_slice`, and on its header's
/// `source` and `destination` and its payload's `ip_number` and `payload`.
#[verifier::external_body]
pub(crate) fn parse_ipv4<'a>(data: &'a [u8]) -> (r: Option<(u32, u32, u8, &'a [u8])>)
    ensures
        match r {
            Some((s, d, p, payload)) => ipv4_packet(data@) == Some((s, d, p, payload@)),
            None => ipv4_packet(data@) is None,
        },
{
    match etherparse::Ipv4Slice::from_slice(data) {
        Ok(ip) => Some((
            u32::from_be_bytes(ip.header().source()),
            u32::from_be_bytes(ip.header().destination()),
            ip.payload().ip_number.0,
            ip.payload().payload,
        )),
        Err(_) => None,
    }
}

/// Relies on `etherparse::Ipv6Slice::from_slice`, and on its header's
/// `source` and `destination` and its payload's `ip_number` and `payload`.
#[verifier::external_body]
fn parse_ipv6<'a>(data: &'a [u8]) -> (r: Option<(u128, u128, u8, &'a [u8])>)
    ensures
        match r {
            Some((s, d, p, payload)) => ipv6_packet(data@) == Some((s, d, p, payload@)),
            None => ipv6_packet(data@) is None,
        },
{
    match etherparse::Ipv6Slice::from_slice(data) {
        Ok(ip) => Some((
            u128::from_be_bytes(ip.header().source()),
            u128::from_be_bytes(ip.header().destination()),
            ip.payload().ip_number.0,
            ip.payload().payload,
        )),
        Err(_) => None,
    }
}

/// Relies on `etherparse::UdpSlice::from_slice`, `source_port`,
/// `destination_port` and `payload`.
#[verifier::external_body]
pub(crate) fn parse_udp(b: &[u8]) -> (r: Option<Segment>)
    ensures
        r == udp_segment(b@),
{
    match etherparse::UdpSlice::from_slice(b) {
        Ok(u) => Some(
            Segment {
                src_port: u.source_port(),
                dst_port: u.destination_port(),
                payload_len: u.payload().len(),
            },
        ),
        Err(_) => None,
    }
}

/// Relies on `etherparse::TcpSlice::from_slice`, `source_port`,
/// `destination_port` and `payload`.
#[verifier::external_body]
fn parse_tcp(b: &[u8]) -> (r: Option<Segment>)
    ensures
        r == tcp_segment(b@),
{
    match etherparse::TcpSlice::from_slice(b) {
        Ok(t) => Some(
            Segment {
                src_port: t.source_port(),
                dst_port: t.destination_port(),
                payload_len: t.payload().len(),
            },
        ),
        Err(_) => None,
    }
}

pub const IP_PROTO_TCP: u8 = 6;

pub const IP_PROTO_UDP: u8 = 17;

/// The transport protocol of a packet.
#[derive(Clone, Copy, Debug, PartialEq, Eq, Structural)]
pub enum Transport {
    Udp,
    Tcp,
}

/// The headers of a packet that the guard decides on.
#[derive(Clone, Copy, Debug, PartialEq, Eq, Structural)]
pub struct PacketHeaders {
    pub src: IpAddress,
    pub dst: IpAddress,
    pub transport: Transport,
    pub segment: Segment,
}

/// The headers of a UDP or TCP segment carried with protocol number `proto`.
pub open spec fn transport_headers(src: IpAddress, dst: IpAddress, proto: u8, payload: Seq<u8>) -> Option<PacketHeaders> {
    if proto == IP_PROTO_UDP {
        match udp_segment(payload) {
            Some(segment) => Some(PacketHeaders { src, dst, transport: Transport::Udp, segment }),
            None => None,
        }
    } else if proto == IP_PROTO_TCP {
        match tcp_segment(payload) {
            Some(segment) => Some(PacketHeaders { src, dst, transport: Transport::Tcp, segment }),
            None => None,
        }
    } else {
        None
    }
}

/// The headers of a packet read as IPv4, else as IPv6; none where neither
/// reading succeeds or the payload is neither UDP nor TCP.
pub open spec fn packet_headers(data: Seq<u8>) -> Option<PacketHeaders> {
    match ipv4_packet(data) {
        Some((s, d, proto, payload)) => transport_headers(
            IpAddress::V4(s),
            IpAddress::V4(d),
            proto,
            payload,
        ),
        None => match ipv6_packet(data) {
            Some((s, d, proto, payload)) => transport_headers(
                IpAddress::V6(s),
                IpAddress::V6(d),
                proto,
                payload,
            ),
            None => None,
        },
    }
}

fn read_transport(src: IpAddress, dst: IpAddress, proto: u8, payload: &[u8]) -> (r: Option<
    PacketHeaders,
>)
    ensures
        r == transport_headers(src, dst, proto, payload@),
{
    if proto == IP_PROTO_UDP {
        match parse_udp(payload) {
            Some(segment) => Some(PacketHeaders { src, dst, transport: Transport::Udp, segment }),
            None => None,
        }
    } else if proto == IP_PROTO_TCP {
        match parse_tcp(payload) {
            Some(segment) => Some(PacketHeaders { src, dst, transport: Transport::Tcp, segment }),
            None => None,
        }
    } else {
        None
    }
}

/// Reads the IP and transport headers of a packet.
pub fn parse_packet(data: &[u8]) -> (r: Option<PacketHeaders>)
    ensures
        r == packet_headers(data@),
{
    match parse_ipv4(data) {
        Some((s, d, proto, payload)) => read_transport(
            IpAddress::V4(s),
            IpAddress::V4(d),
            proto,
            payload,
        ),
        None => match parse_ipv6(data) {
            Some((s, d, proto, payload)) => read_transport(
                IpAddress::V6(s),
                IpAddress::V6(d),
                proto,
                payload,
            ),
            None => None,
        },
    }
}

} // verus!
