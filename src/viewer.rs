//! The text model of the packet viewer: one line per captured packet, a
//! summary, the details of one packet and the selection.
use vstd::prelude::*;
use vstd::string::*;
use crate::capture::{
    CapturedPacket, PacketCapture, count_passed, count_rejected, description_of, status_text,
};
use crate::fmt::{decimal, decimal_string};

verus! {

/// `[n] description [sizeB] mark`, with `n` counted from one and a check
/// mark for a packet that passed, a cross otherwise.
pub open spec fn list_line(index: int, p: CapturedPacket) -> Seq<char> {
    "["@ + decimal((index + 1) as nat) + "] "@ + description_of(p) + " ["@ + decimal(p.size as nat)
        + "B] "@ + (if p.passed { "\u{2713}"@ } else { "\u{2717}"@ })
}

/// `Total: t | Passed: p | Rejected: r`.
pub open spec fn summary_of(s: Seq<CapturedPacket>) -> Seq<char> {
    "Total: "@ + decimal(s.len()) + " | Passed: "@ + decimal(count_passed(s)) + " | Rejected: "@
        + decimal(count_rejected(s))
}

/// The details of a packet, one field per line.
pub open spec fn details_of(index: int, p: CapturedPacket) -> Seq<char> {
    "Packet #"@ + decimal((index + 1) as nat) + "\nSource: "@ + p.src_ip@ + ":"@ + decimal(
        p.src_port as nat,
    ) + "\nDestination: "@ + p.dst_ip@ + ":"@ + decimal(p.dst_port as nat) + "\nSize: "@ + decimal(
        p.size as nat,
    ) + " bytes\nProtocol: "@ + decimal(p.protocol as nat) + "\nStatus: "@ + status_text(p.passed)
        + "\nTimestamp: "@ + decimal(p.timestamp as nat)
}

/// The lines listing a session's packets.
pub open spec fn lines_of(s: Seq<CapturedPacket>, lines: Seq<String>) -> bool {
    lines.len() == s.len() && forall|i: int| 0 <= i < s.len() ==> #[trigger] lines[i]@ == list_line(i, s[i])
}

/// What the packet viewer shows.
pub struct PacketViewerModel {
    packet_list: Vec<String>,
    selected_index: usize,
    session: PacketCapture,
}

impl PacketViewerModel {
    pub closed spec fn session_packets(&self) -> Seq<CapturedPacket> {
        self.session.packets@
    }

    pub closed spec fn lines(&self) -> Seq<String> {
        self.packet_list@
    }

    pub closed spec fn selected(&self) -> usize {
        self.selected_index
    }

    /// The list always describes the session, and the selection is zero or
    /// an index of the list.
    pub open spec fn wf(&self) -> bool {
        lines_of(self.session_packets(), self.lines()) && (self.selected() == 0 || self.selected()
            < self.lines().len())
    }

    /// A viewer of a session, with the first packet selected.
    pub fn new(session: PacketCapture) -> (r: Self)
        ensures
            r.wf(),
            r.session_packets() == session.packets@,
            r.selected() == 0,
    {
        let packet_list = Self::build_packet_list(&session);
        PacketViewerModel { packet_list, selected_index: 0, session }
    }

    /// One line per packet of the session.
    pub fn build_packet_list(session: &PacketCapture) -> (r: Vec<String>)
        ensures
            lines_of(session.packets@, r@),
    {
        let mut lines: Vec<String> = Vec::new();
        let mut i: usize = 0;
        while i < session.packets.len()
            invariant
                0 <= i <= session.packets@.len(),
                lines@.len() == i,
                forall|j: int|
                    0 <= j < i ==> #[trigger] lines@[j]@ == list_line(j, session.packets@[j]),
            decreases session.packets@.len() - i,
        {
            let p = &session.packets[i];
            let mut s = String::from_str("[");
            s.append(decimal_string(i as u64 + 1).as_str());
            s.append("] ");
            s.append(p.description().as_str());
            s.append(" [");
            s.append(decimal_string(p.size as u64).as_str());
            s.append("B] ");
            if p.passed {
                s.append("\u{2713}");
            } else {
                s.append("\u{2717}");
            }
            lines.push(s);
            i = i + 1;
        }
        lines
    }

    /// The packet counts of the session.
    pub fn get_summary(&self) -> (r: String)
        ensures
            r@ == summary_of(self.session_packets()),
    {
        let mut s = String::from_str("Total: ");
        s.append(decimal_string(self.session.total_count() as u64).as_str());
        s.append(" | Passed: ");
        s.append(decimal_string(self.session.passed_count() as u64).as_str());
        s.append(" | Rejected: ");
        s.append(decimal_string(self.session.rejected_count() as u64).as_str());
        s
    }

    /// The details of the packet at `index`; none past the end.
    pub fn get_packet_details(&self, index: usize) -> (r: Option<String>)
        ensures
            match r {
                Some(d) => index < self.session_packets().len() && d@ == details_of(
                    index as int,
                    self.session_packets()[index as int],
                ),
                None => index >= self.session_packets().len(),
            },
    {
        if index >= self.session.packets.len() {
            return None;
        }
        let p = &self.session.packets[index];
        let mut s = String::from_str("Packet #");
        s.append(decimal_string(index as u64 + 1).as_str());
        s.append("\nSource: ");
        s.append(p.src_ip.as_str());
        s.append(":");
        s.append(decimal_string(p.src_port as u64).as_str());
        s.append("\nDestination: ");
        s.append(p.dst_ip.as_str());
        s.append(":");
        s.append(decimal_string(p.dst_port as u64).as_str());
        s.append("\nSize: ");
        s.append(decimal_string(p.size as u64).as_str());
        s.append(" bytes\nProtocol: ");
        s.append(decimal_string(p.protocol as u64).as_str());
        s.append("\nStatus: ");
        if p.passed {
            s.append("PASSED");
        } else {
            s.append("REJECTED");
        }
        s.append("\nTimestamp: ");
        s.append(decimal_string(p.timestamp).as_str());
        Some(s)
    }

    /// Shows another session, with the first packet selected.
    pub fn set_session(&mut self, session: PacketCapture)
        ensures
            final(self).wf(),
            final(self).session_packets() == session.packets@,
            final(self).selected() == 0,
    {
        self.packet_list = Self::build_packet_list(&session);
        self.session = session;
        self.selected_index = 0;
    }

    /// The lines of the list.
    pub fn packet_list(&self) -> (r: &[String])
        ensures
            r@ == self.lines(),
    {
        self.packet_list.as_slice()
    }

    /// Selects the packet at `index`; ignored past the end of the list.
    pub fn set_selected(&mut self, index: usize)
        requires
            old(self).wf(),
        ensures
            final(self).wf(),
            final(self).session_packets() == old(self).session_packets(),
            final(self).lines() == old(self).lines(),
            final(self).selected() == if index < old(self).lines().len() {
                index
            } else {
                old(self).selected()
            },
    {
        if index < self.packet_list.len() {
            self.selected_index = index;
        }
    }

    /// The selected index.
    pub fn selected_index(&self) -> (r: usize)
        ensures
            r == self.selected(),
    {
        self.selected_index
    }
}

} // verus!
