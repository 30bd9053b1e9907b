//! Filter modes, the kernel filter expressions and the runtime configuration.
use vstd::prelude::*;
use vstd::string::*;
use crate::fmt::{decimal, decimal_string};

verus! {

/// The UDP port of the game's session traffic.
pub const TARGET_UDP_PORT: u16 = 6672;

/// The session shape that the guard enforces.
#[derive(Clone, Copy, Debug, PartialEq, Eq, Structural)]
pub enum FilterMode {
    /// Only heartbeats of tracked processes pass.
    Solo,
    /// Join requests of tracked processes are dropped, the rest passes.
    Locked,
    /// Nothing of tracked processes passes.
    Disconnect,
}

impl Default for FilterMode {
    fn default() -> (r: Self)
        ensures
            r == FilterMode::Locked,
    {
        FilterMode::Locked
    }
}

/// Kernel filter for session traffic on the game port.
pub open spec fn udp_port_filter() -> Seq<char> {
    "udp.DstPort == 6672 and udp.PayloadLength > 0 and ip"@
}

/// Kernel filter for all IP traffic.
pub open spec fn all_ip_filter() -> Seq<char> {
    "ip"@
}

impl FilterMode {
    pub open spec fn divert_filter_of(self) -> Seq<char> {
        match self {
            FilterMode::Solo | FilterMode::Locked => udp_port_filter(),
            FilterMode::Disconnect => all_ip_filter(),
        }
    }

    /// The kernel filter expression this mode diverts with.
    pub fn to_divert_filter(&self) -> (r: &'static str)
        ensures
            r@ == self.divert_filter_of(),
    {
        match self {
            FilterMode::Solo | FilterMode::Locked => {
                "udp.DstPort == 6672 and udp.PayloadLength > 0 and ip"
            },
            FilterMode::Disconnect => "ip",
        }
    }
}

/// Whether switching modes needs a new divert handle: it does exactly when
/// the two modes divert with different filters.
pub fn needs_handle_swap(from: FilterMode, to: FilterMode) -> (r: bool)
    ensures
        r == (from.divert_filter_of() != to.divert_filter_of()),
{
    proof {
        reveal_strlit("ip");
        reveal_strlit("udp.DstPort == 6672 and udp.PayloadLength > 0 and ip");
        assert(udp_port_filter().len() != all_ip_filter().len());
    }
    let from_all = match from {
        FilterMode::Disconnect => true,
        _ => false,
    };
    let to_all = match to {
        FilterMode::Disconnect => true,
        _ => false,
    };
    from_all != to_all
}

/// The kernel filter for session traffic, with the game port spelled out.
pub fn divert_filter() -> (r: String)
    ensures
        r@ == udp_port_filter(),
{
    let mut s = String::from_str("udp.DstPort == ");
    let port = decimal_string(TARGET_UDP_PORT as u64);
    s.append(port.as_str());
    s.append(" and udp.PayloadLength > 0 and ip");
    proof {
        reveal_with_fuel(decimal, 5);
        reveal_strlit("udp.DstPort == ");
        reveal_strlit(" and udp.PayloadLength > 0 and ip");
        reveal_strlit("udp.DstPort == 6672 and udp.PayloadLength > 0 and ip");
        assert(s@ =~= udp_port_filter());
    }
    s
}

/// The UDP clause of the composite filter: the game port and its
/// neighbouring range, with a payload.
pub open spec fn udp_clause() -> Seq<char> {
    "(udp ? ((udp.SrcPort == 6672 or udp.DstPort == 6672 or (udp.SrcPort >= 61455 and udp.SrcPort <= 61458) or (udp.DstPort >= 61455 and udp.DstPort <= 61458)) and udp.PayloadLength > 0) : false)"@
}

/// The TCP clause of the composite filter: web ports, with a payload.
pub open spec fn tcp_clause() -> Seq<char> {
    "or (tcp ? ((tcp.DstPort == 80 or tcp.DstPort == 443 or tcp.SrcPort == 80 or tcp.SrcPort == 443) and tcp.PayloadLength > 0) : false)"@
}

/// The composite filter: the UDP clause, the TCP clause when asked for, and
/// the IP clause. The trailing `and (ip or ipv6)` is meant to hold of the
/// whole expression.
pub open spec fn network_filter(capture_tcp: bool) -> Seq<char> {
    udp_clause() + " "@ + (if capture_tcp { tcp_clause() } else { ""@ }) + " and (ip or ipv6)"@
}

/// Builds the composite kernel filter, with TCP on ports 80 and 443 when
/// `capture_tcp` holds.
pub fn build_network_filter(capture_tcp: bool) -> (r: String)
    ensures
        r@ == network_filter(capture_tcp),
{
    let tcp_filter = if capture_tcp {
        "or (tcp ? ((tcp.DstPort == 80 or tcp.DstPort == 443 or tcp.SrcPort == 80 or tcp.SrcPort == 443) and tcp.PayloadLength > 0) : false)"
    } else {
        ""
    };
    let mut s = String::from_str(
        "(udp ? ((udp.SrcPort == 6672 or udp.DstPort == 6672 or (udp.SrcPort >= 61455 and udp.SrcPort <= 61458) or (udp.DstPort >= 61455 and udp.DstPort <= 61458)) and udp.PayloadLength > 0) : false)",
    );
    s.append(" ");
    s.append(tcp_filter);
    s.append(" and (ip or ipv6)");
    s
}

/// What `str::to_lowercase` returns for a string: its lowercase mapping,
/// which depends on the characters alone.
pub uninterp spec fn lower_of(s: Seq<char>) -> Seq<char>;

/// Relies on `str::to_lowercase`.
#[verifier::external_body]
fn lowercase(s: &str) -> (r: String)
    ensures
        r@ == lower_of(s@),
{
    s.to_lowercase()
}

/// Whether `target` is among `names`.
pub fn contains_name(names: &Vec<String>, target: &String) -> (r: bool)
    ensures
        r == exists|i: int| 0 <= i < names@.len() && #[trigger] names@[i]@ == target@,
{
    let mut i: usize = 0;
    while i < names.len()
        invariant
            0 <= i <= names@.len(),
            forall|j: int| 0 <= j < i ==> #[trigger] names@[j]@ != target@,
        decreases names@.len() - i,
    {
        if names[i] == *target {
            return true;
        }
        i = i + 1;
    }
    false
}

/// Whether `name` equals one of `names` once both are lowercased.
pub open spec fn matches_any(names: Seq<String>, name: Seq<char>) -> bool {
    exists|i: int| 0 <= i < names.len() && lower_of(#[trigger] names[i]@) == lower_of(name)
}

/// Runtime configuration of the guard.
#[derive(Clone, Debug)]
pub struct GuardConfig {
    /// Executable names of the guarded game, matched without regard to case.
    pub executable_names: Vec<String>,
    /// The session shape to enforce.
    pub filter_mode: FilterMode,
}

/// The executables guarded unless configured otherwise.
pub open spec fn default_executables(names: Seq<String>) -> bool {
    names.len() == 2 && names[0]@ == "GTA5.exe"@ && names[1]@ == "GTA5_Enhanced.exe"@
}

impl Default for GuardConfig {
    fn default() -> (r: Self)
        ensures
            default_executables(r.executable_names@),
            r.filter_mode == FilterMode::Locked,
    {
        let mut names: Vec<String> = Vec::new();
        names.push(String::from_str("GTA5.exe"));
        names.push(String::from_str("GTA5_Enhanced.exe"));
        GuardConfig { executable_names: names, filter_mode: FilterMode::Locked }
    }
}

impl GuardConfig {
    /// The default configuration.
    pub fn new() -> (r: Self)
        ensures
            default_executables(r.executable_names@),
            r.filter_mode == FilterMode::Locked,
    {
        Self::default()
    }

    /// The configuration with other executable names.
    pub fn with_executables(self, names: Vec<String>) -> (r: Self)
        ensures
            r.executable_names == names,
            r.filter_mode == self.filter_mode,
    {
        GuardConfig { executable_names: names, filter_mode: self.filter_mode }
    }

    /// The configuration with another filter mode.
    pub fn with_filter_mode(self, mode: FilterMode) -> (r: Self)
        ensures
            r.executable_names == self.executable_names,
            r.filter_mode == mode,
    {
        GuardConfig { executable_names: self.executable_names, filter_mode: mode }
    }

    /// Whether a process name is one of the configured executables, ignoring
    /// case.
    pub fn matches_executable(&self, name: &str) -> (r: bool)
        ensures
            r == matches_any(self.executable_names@, name@),
    {
        let target = lowercase(name);
        let mut lowered: Vec<String> = Vec::new();
        let mut i: usize = 0;
        while i < self.executable_names.len()
            invariant
                0 <= i <= self.executable_names@.len(),
                lowered@.len() == i,
                forall|j: int|
                    0 <= j < i ==> #[trigger] lowered@[j]@ == lower_of(self.executable_names@[j]@),
            decreases self.executable_names@.len() - i,
        {
            let l = lowercase(self.executable_names[i].as_str());
            lowered.push(l);
            i = i + 1;
        }
        let r = contains_name(&lowered, &target);
        proof {
            if r {
                let j = choose|j: int| 0 <= j < lowered@.len() && #[trigger] lowered@[j]@ == target@;
                assert(lower_of(self.executable_names@[j]@) == lower_of(name@));
            }
            if matches_any(self.executable_names@, name@) {
                let j = choose|j: int|
                    0 <= j < self.executable_names@.len() && lower_of(
                        #[trigger] self.executable_names@[j]@,
                    ) == lower_of(name@);
                assert(lowered@[j]@ == target@);
            }
        }
        r
    }
}

} // verus!
