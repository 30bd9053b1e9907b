//! Captured packets of a session, their counts and their text for display.
use vstd::prelude::*;
use vstd::string::*;
use crate::fmt::{decimal, decimal_string};
use crate::gate::{is_heartbeat_len, is_heartbeat_size};
use crate::packet::{ipv4_packet, parse_ipv4, parse_udp, udp_segment};

verus! {

/// Relies on `SystemTime::now` and `duration_since(UNIX_EPOCH)`: whole
/// seconds since the Unix epoch, zero for a clock set before it. Nothing is
/// promised of the value.
#[verifier::external_body]
fn unix_time_secs() -> (r: u64) {
    match std::time::SystemTime::now().duration_since(std::time::UNIX_EPOCH) {
        Ok(d) => d.as_secs(),
        Err(_) => 0,
    }
}

/// One captured packet and what the filter decided on it.
#[derive(Clone, Debug)]
pub struct CapturedPacket {
    /// Seconds since the Unix epoch at capture.
    pub timestamp: u64,
    /// The raw packet.
    pub data: Vec<u8>,
    /// Length of the raw packet.
    pub size: u32,
    /// Whether the packet was let through.
    pub passed: bool,
    pub src_ip: String,
    pub dst_ip: String,
    pub src_port: u16,
    pub dst_port: u16,
    /// IP protocol number.
    pub protocol: u8,
}

pub open spec fn status_text(passed: bool) -> Seq<char> {
    if passed {
        "PASSED"@
    } else {
        "REJECTED"@
    }
}

/// `[STATUS] src:port -> dst:port (size: N bytes, proto: P)`.
pub open spec fn description_of(p: CapturedPacket) -> Seq<char> {
    "["@ + status_text(p.passed) + "] "@ + p.src_ip@ + ":"@ + decimal(p.src_port as nat) + " -> "@
        + p.dst_ip@ + ":"@ + decimal(p.dst_port as nat) + " (size: "@ + decimal(p.size as nat)
        + " bytes, proto: "@ + decimal(p.protocol as nat) + ")"@
}

impl CapturedPacket {
    /// A packet captured now.
    pub fn new(
        data: Vec<u8>,
        passed: bool,
        src_ip: String,
        dst_ip: String,
        src_port: u16,
        dst_port: u16,
        protocol: u8,
    ) -> (r: Self)
        ensures
            r.data == data,
            r.size == data@.len() as u32,
            r.passed == passed,
            r.src_ip == src_ip,
            r.dst_ip == dst_ip,
            r.src_port == src_port,
            r.dst_port == dst_port,
            r.protocol == protocol,
    {
        let size = data.len() as u32;
        let timestamp = unix_time_secs();
        CapturedPacket {
            timestamp,
            data,
            size,
            passed,
            src_ip,
            dst_ip,
            src_port,
            dst_port,
            protocol,
        }
    }

    /// A one-line description of the packet.
    pub fn description(&self) -> (r: String)
        ensures
            r@ == description_of(*self),
    {
        let mut s = String::from_str("[");
        if self.passed {
            s.append("PASSED");
        } else {
            s.append("REJECTED");
        }
        s.append("] ");
        s.append(self.src_ip.as_str());
        s.append(":");
        s.append(decimal_string(self.src_port as u64).as_str());
        s.append(" -> ");
        s.append(self.dst_ip.as_str());
        s.append(":");
        s.append(decimal_string(self.dst_port as u64).as_str());
        s.append(" (size: ");
        s.append(decimal_string(self.size as u64).as_str());
        s.append(" bytes, proto: ");
        s.append(decimal_string(self.protocol as u64).as_str());
        s.append(")");
        s
    }
}

/// How many of the packets passed.
pub open spec fn count_passed(s: Seq<CapturedPacket>) -> nat
    decreases s.len(),
{
    if s.len() == 0 {
        0
    } else {
        count_passed(s.drop_last()) + if s.last().passed { 1nat } else { 0nat }
    }
}

/// How many of the packets were rejected.
pub open spec fn count_rejected(s: Seq<CapturedPacket>) -> nat
    decreases s.len(),
{
    if s.len() == 0 {
        0
    } else {
        count_rejected(s.drop_last()) + if s.last().passed { 0nat } else { 1nat }
    }
}

/// Every packet is counted once, as passed or as rejected.
pub proof fn counts_add_up(s: Seq<CapturedPacket>)
    ensures
        count_passed(s) + count_rejected(s) == s.len(),
    decreases s.len(),
{
    if s.len() > 0 {
        counts_add_up(s.drop_last());
    }
}

proof fn count_bounds(s: Seq<CapturedPacket>)
    ensures
        count_passed(s) <= s.len(),
        count_rejected(s) <= s.len(),
{
    counts_add_up(s);
}

/// A capture session: its packets, and when it started and ended.
#[derive(Clone, Debug)]
pub struct PacketCapture {
    pub packets: Vec<CapturedPacket>,
    /// Seconds since the Unix epoch at the start.
    pub start_time: u64,
    /// Seconds since the Unix epoch at the end; zero while capturing.
    pub end_time: u64,
}

impl PacketCapture {
    /// A session that starts now, with no packets.
    pub fn new() -> (r: Self)
        ensures
            r.packets@.len() == 0,
            r.end_time == 0,
    {
        PacketCapture { packets: Vec::new(), start_time: unix_time_secs(), end_time: 0 }
    }

    /// Appends a packet.
    pub fn add_packet(&mut self, packet: CapturedPacket)
        ensures
            final(self).packets@ == old(self).packets@.push(packet),
            final(self).start_time == old(self).start_time,
            final(self).end_time == old(self).end_time,
    {
        self.packets.push(packet);
    }

    /// Ends the session now, unless it has ended already.
    pub fn end_session(&mut self)
        ensures
            final(self).packets == old(self).packets,
            final(self).start_time == old(self).start_time,
            old(self).end_time != 0 ==> final(self).end_time == old(self).end_time,
    {
        if self.end_time == 0 {
            self.end_time = unix_time_secs();
        }
    }

    /// The number of packets that passed.
    pub fn passed_count(&self) -> (r: usize)
        ensures
            r == count_passed(self.packets@),
    {
        let mut n: usize = 0;
        let mut i: usize = 0;
        while i < self.packets.len()
            invariant
                0 <= i <= self.packets@.len(),
                n == count_passed(self.packets@.take(i as int)),
            decreases self.packets@.len() - i,
        {
            proof {
                assert(self.packets@.take(i + 1).drop_last() =~= self.packets@.take(i as int));
                count_bounds(self.packets@.take(i as int));
            }
            if self.packets[i].passed {
                n = n + 1;
            }
            i = i + 1;
        }
        assert(self.packets@.take(i as int) =~= self.packets@);
        n
    }

    /// The number of packets that were rejected.
    pub fn rejected_count(&self) -> (r: usize)
        ensures
            r == count_rejected(self.packets@),
    {
        let mut n: usize = 0;
        let mut i: usize = 0;
        while i < self.packets.len()
            invariant
                0 <= i <= self.packets@.len(),
                n == count_rejected(self.packets@.take(i as int)),
            decreases self.packets@.len() - i,
        {
            proof {
                assert(self.packets@.take(i + 1).drop_last() =~= self.packets@.take(i as int));
                count_bounds(self.packets@.take(i as int));
            }
            if !self.packets[i].passed {
                n = n + 1;
            }
            i = i + 1;
        }
        assert(self.packets@.take(i as int) =~= self.packets@);
        n
    }

    /// The number of packets.
    pub fn total_count(&self) -> (r: usize)
        ensures
            r == self.packets@.len(),
    {
        self.packets.len()
    }
}

impl Default for PacketCapture {
    fn default() -> (r: Self)
        ensures
            r.packets@.len() == 0,
            r.end_time == 0,
    {
        Self::new()
    }
}

/// An IPv4 address in dotted-quad notation.
pub open spec fn dotted_quad(a: u32) -> Seq<char> {
    decimal((a / 0x100_0000) as nat) + "."@ + decimal(((a / 0x1_0000) % 256) as nat) + "."@ + decimal(
        ((a / 0x100) % 256) as nat,
    ) + "."@ + decimal((a % 256) as nat)
}

/// Renders an IPv4 address in dotted-quad notation.
pub fn dotted_quad_string(a: u32) -> (r: String)
    ensures
        r@ == dotted_quad(a),
{
    let mut s = decimal_string((a / 0x100_0000) as u64);
    s.append(".");
    s.append(decimal_string(((a / 0x1_0000) % 256) as u64).as_str());
    s.append(".");
    s.append(decimal_string(((a / 0x100) % 256) as u64).as_str());
    s.append(".");
    s.append(decimal_string((a % 256) as u64).as_str());
    s
}

/// Why a captured packet could not be read.
#[derive(Clone, Copy, Debug, PartialEq, Eq, Structural)]
pub enum CaptureError {
    /// The bytes are no IPv4 packet.
    IpParseFailed,
    /// The IPv4 payload is no UDP datagram.
    UdpParseFailed,
}

/// What the heartbeat capture reads from a packet.
#[derive(Debug)]
pub struct InspectedPacket {
    /// Whether it is a heartbeat, and so passes.
    pub passed: bool,
    pub src_ip: String,
    pub dst_ip: String,
    pub src_port: u16,
    pub dst_port: u16,
    /// IP protocol number.
    pub protocol: u8,
}

/// Reads a packet as IPv4 carrying UDP: it passes when its UDP payload has a
/// heartbeat size.
pub fn inspect_packet(data: &[u8]) -> (r: Result<InspectedPacket, CaptureError>)
    ensures
        match ipv4_packet(data@) {
            None => r == Err::<InspectedPacket, CaptureError>(CaptureError::IpParseFailed),
            Some((s, d, proto, payload)) => match udp_segment(payload) {
                None => r == Err::<InspectedPacket, CaptureError>(CaptureError::UdpParseFailed),
                Some(seg) => r matches Ok(p) && p.passed == is_heartbeat_size(seg.payload_len)
                    && p.src_ip@ == dotted_quad(s) && p.dst_ip@ == dotted_quad(d) && p.src_port
                    == seg.src_port && p.dst_port == seg.dst_port && p.protocol == proto,
            },
        },
{
    let (s, d, proto, payload) = match parse_ipv4(data) {
        Some(ip) => ip,
        None => return Err(CaptureError::IpParseFailed),
    };
    let seg = match parse_udp(payload) {
        Some(seg) => seg,
        None => return Err(CaptureError::UdpParseFailed),
    };
    Ok(
        InspectedPacket {
            passed: is_heartbeat_len(seg.payload_len),
            src_ip: dotted_quad_string(s),
            dst_ip: dotted_quad_string(d),
            src_port: seg.src_port,
            dst_port: seg.dst_port,
            protocol: proto,
        },
    )
}

} // verus!
