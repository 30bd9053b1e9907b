//! The endpoint index: tracked process ids and the UDP ports and TCP port
//! pairs that they own.
use vstd::prelude::*;
use dashmap::DashSet;

verus! {

/// A socket endpoint owned by a process.
#[derive(Clone, Copy, Debug, PartialEq, Eq, Hash, Structural)]
pub enum Endpoint {
    Udp { pid: u32, local_port: u16 },
    Tcp { pid: u32, local_port: u16, remote_port: u16 },
}

impl Endpoint {
    pub open spec fn owner(self) -> u32 {
        match self {
            Endpoint::Udp { pid, .. } => pid,
            Endpoint::Tcp { pid, .. } => pid,
        }
    }

    /// No field of the endpoint is zero.
    pub open spec fn is_nonzero(self) -> bool {
        match self {
            Endpoint::Udp { pid, local_port } => pid != 0 && local_port != 0,
            Endpoint::Tcp { pid, local_port, remote_port } => pid != 0 && local_port != 0
                && remote_port != 0,
        }
    }
}

pub uninterp spec fn pid_members(s: DashSet<u32>) -> Set<u32>;

pub uninterp spec fn endpoint_members(s: DashSet<Endpoint>) -> Set<Endpoint>;

/// Relies on `DashSet::new`: a new set is empty.
#[verifier::external_body]
fn pid_set_new() -> (r: DashSet<u32>)
    ensures
        pid_members(r) == Set::<u32>::empty(),
{
    DashSet::new()
}

/// Relies on `DashSet::insert`: the key is a member afterwards, the rest stay.
#[verifier::external_body]
fn pid_set_insert(s: &mut DashSet<u32>, pid: u32)
    ensures
        pid_members(*final(s)) == pid_members(*old(s)).insert(pid),
{
    s.insert(pid);
}

/// Relies on `DashSet::remove`: the key is no member afterwards, the rest stay.
#[verifier::external_body]
fn pid_set_remove(s: &mut DashSet<u32>, pid: u32)
    ensures
        pid_members(*final(s)) == pid_members(*old(s)).remove(pid),
{
    s.remove(&pid);
}

/// Relies on `DashSet::contains`: membership of the key.
#[verifier::external_body]
fn pid_set_contains(s: &DashSet<u32>, pid: u32) -> (r: bool)
    ensures
        r == pid_members(*s).contains(pid),
{
    s.contains(&pid)
}

/// Relies on `DashSet::iter`: it yields every member of the set.
#[verifier::external_body]
fn pid_set_snapshot(s: &DashSet<u32>) -> (r: Vec<u32>)
    ensures
        r@.to_set() == pid_members(*s),
{
    s.iter().map(|k| *k.key()).collect()
}

/// Relies on `DashSet::new`: a new set is empty.
#[verifier::external_body]
fn endpoint_set_new() -> (r: DashSet<Endpoint>)
    ensures
        endpoint_members(r) == Set::<Endpoint>::empty(),
{
    DashSet::new()
}

/// Relies on `DashSet::insert`: the key is a member afterwards, the rest stay.
#[verifier::external_body]
fn endpoint_set_insert(s: &mut DashSet<Endpoint>, e: Endpoint)
    ensures
        endpoint_members(*final(s)) == endpoint_members(*old(s)).insert(e),
{
    s.insert(e);
}

/// Relies on `DashSet::remove`: the key is no member afterwards, the rest stay.
#[verifier::external_body]
fn endpoint_set_remove(s: &mut DashSet<Endpoint>, e: Endpoint)
    ensures
        endpoint_members(*final(s)) == endpoint_members(*old(s)).remove(e),
{
    s.remove(&e);
}

/// Relies on `DashSet::contains`: membership of the key.
#[verifier::external_body]
fn endpoint_set_contains(s: &DashSet<Endpoint>, e: Endpoint) -> (r: bool)
    ensures
        r == endpoint_members(*s).contains(e),
{
    s.contains(&e)
}

/// Whether an endpoint is owned by some other process than `pid`.
fn owned_by_other(e: &Endpoint, pid: u32) -> (r: bool)
    ensures
        r == (e.owner() != pid),
{
    match e {
        Endpoint::Udp { pid: p, .. } => *p != pid,
        Endpoint::Tcp { pid: p, .. } => *p != pid,
    }
}

/// Relies on `DashSet::retain`: exactly the members for which the predicate
/// holds stay.
#[verifier::external_body]
fn endpoint_set_retain_others(s: &mut DashSet<Endpoint>, pid: u32)
    ensures
        endpoint_members(*final(s)) == endpoint_members(*old(s)).filter(
            |e: Endpoint| e.owner() != pid,
        ),
{
    s.retain(|e| owned_by_other(e, pid));
}

/// The endpoints after a guarded add: unchanged when a field is zero or the
/// owner is not tracked.
pub open spec fn endpoints_after_add(pids: Set<u32>, eps: Set<Endpoint>, e: Endpoint) -> Set<Endpoint> {
    if e.is_nonzero() && pids.contains(e.owner()) {
        eps.insert(e)
    } else {
        eps
    }
}

/// The endpoints after a guarded removal: unchanged when a field is zero.
pub open spec fn endpoints_after_remove(eps: Set<Endpoint>, e: Endpoint) -> Set<Endpoint> {
    if e.is_nonzero() {
        eps.remove(e)
    } else {
        eps
    }
}

/// The endpoints that remain once process `pid` is gone.
pub open spec fn endpoints_without(eps: Set<Endpoint>, pid: u32) -> Set<Endpoint> {
    eps.filter(|e: Endpoint| e.owner() != pid)
}

/// Tracked process ids and the socket endpoints that they own.
pub struct ConnectionTracker {
    pid_set: DashSet<u32>,
    endpoints: DashSet<Endpoint>,
}

impl ConnectionTracker {
    /// The tracked process ids.
    pub closed spec fn pids(&self) -> Set<u32> {
        pid_members(self.pid_set)
    }

    /// The registered endpoints.
    pub closed spec fn endpoints(&self) -> Set<Endpoint> {
        endpoint_members(self.endpoints)
    }

    /// Every endpoint has non-zero fields and a tracked owner.
    pub open spec fn wf(&self) -> bool {
        forall|e: Endpoint| #[trigger] self.endpoints().contains(e) ==> e.is_nonzero()
            && self.pids().contains(e.owner())
    }

    /// Some tracked process has UDP port `port` registered.
    pub open spec fn udp_tracked(&self, port: u16) -> bool {
        exists|pid: u32|
            self.pids().contains(pid) && #[trigger] self.endpoints().contains(
                Endpoint::Udp { pid, local_port: port },
            )
    }

    /// Some tracked process has the port pair `(a, b)` or `(b, a)` registered.
    pub open spec fn tcp_tracked(&self, a: u16, b: u16) -> bool {
        exists|pid: u32|
            self.pids().contains(pid) && (#[trigger] self.endpoints().contains(
                Endpoint::Tcp { pid, local_port: a, remote_port: b },
            ) || self.endpoints().contains(Endpoint::Tcp { pid, local_port: b, remote_port: a }))
    }

    /// An empty index.
    pub fn new() -> (r: Self)
        ensures
            r.wf(),
            r.pids() == Set::<u32>::empty(),
            r.endpoints() == Set::<Endpoint>::empty(),
    {
        ConnectionTracker { pid_set: pid_set_new(), endpoints: endpoint_set_new() }
    }

    /// Starts tracking a process; tracking it twice is tracking it once.
    pub fn add_process(&mut self, pid: u32)
        requires
            old(self).wf(),
        ensures
            final(self).wf(),
            final(self).pids() == old(self).pids().insert(pid),
            final(self).endpoints() == old(self).endpoints(),
    {
        pid_set_insert(&mut self.pid_set, pid);
        assert(self.endpoints() == old(self).endpoints());
    }

    /// Stops tracking a process: its endpoints are evicted first, then its id.
    pub fn remove_process(&mut self, pid: u32)
        requires
            old(self).wf(),
        ensures
            final(self).wf(),
            final(self).pids() == old(self).pids().remove(pid),
            final(self).endpoints() == endpoints_without(old(self).endpoints(), pid),
            forall|e: Endpoint| e.owner() == pid ==> !#[trigger] final(self).endpoints().contains(e),
    {
        endpoint_set_retain_others(&mut self.endpoints, pid);
        pid_set_remove(&mut self.pid_set, pid);
        assert(self.endpoints() == endpoints_without(old(self).endpoints(), pid));
        assert(self.pids() == old(self).pids().remove(pid));
    }

    /// Whether the process is tracked.
    pub fn contains_process(&self, pid: u32) -> (r: bool)
        ensures
            r == self.pids().contains(pid),
    {
        pid_set_contains(&self.pid_set, pid)
    }

    /// Registers a TCP connection of a tracked process; ignored when a field
    /// is zero or the process is not tracked.
    pub fn add_tcp_connection(&mut self, pid: u32, local_port: u16, remote_port: u16)
        requires
            old(self).wf(),
        ensures
            final(self).wf(),
            final(self).pids() == old(self).pids(),
            final(self).endpoints() == endpoints_after_add(
                old(self).pids(),
                old(self).endpoints(),
                Endpoint::Tcp { pid, local_port, remote_port },
            ),
            pid == 0 || local_port == 0 || remote_port == 0 ==> final(self).endpoints()
                == old(self).endpoints(),
    {
        let e = Endpoint::Tcp { pid, local_port, remote_port };
        if local_port == 0 || remote_port == 0 || pid == 0 {
            return;
        }
        if pid_set_contains(&self.pid_set, pid) {
            endpoint_set_insert(&mut self.endpoints, e);
            assert(self.endpoints() == old(self).endpoints().insert(e));
        }
    }

    /// Unregisters a TCP connection; ignored when a field is zero.
    pub fn remove_tcp_connection(&mut self, pid: u32, local_port: u16, remote_port: u16)
        requires
            old(self).wf(),
        ensures
            final(self).wf(),
            final(self).pids() == old(self).pids(),
            final(self).endpoints() == endpoints_after_remove(
                old(self).endpoints(),
                Endpoint::Tcp { pid, local_port, remote_port },
            ),
    {
        if local_port == 0 || remote_port == 0 || pid == 0 {
            return;
        }
        let e = Endpoint::Tcp { pid, local_port, remote_port };
        endpoint_set_remove(&mut self.endpoints, e);
        assert(self.endpoints() == old(self).endpoints().remove(e));
    }

    /// Registers a UDP endpoint of a tracked process; ignored when a field is
    /// zero or the process is not tracked.
    pub fn add_udp_endpoint(&mut self, pid: u32, local_port: u16)
        requires
            old(self).wf(),
        ensures
            final(self).wf(),
            final(self).pids() == old(self).pids(),
            final(self).endpoints() == endpoints_after_add(
                old(self).pids(),
                old(self).endpoints(),
                Endpoint::Udp { pid, local_port },
            ),
            pid == 0 || local_port == 0 ==> final(self).endpoints() == old(self).endpoints(),
    {
        if local_port == 0 || pid == 0 {
            return;
        }
        let e = Endpoint::Udp { pid, local_port };
        if pid_set_contains(&self.pid_set, pid) {
            endpoint_set_insert(&mut self.endpoints, e);
            assert(self.endpoints() == old(self).endpoints().insert(e));
        }
    }

    /// Unregisters a UDP endpoint; ignored when a field is zero.
    pub fn remove_udp_endpoint(&mut self, pid: u32, local_port: u16)
        requires
            old(self).wf(),
        ensures
            final(self).wf(),
            final(self).pids() == old(self).pids(),
            final(self).endpoints() == endpoints_after_remove(
                old(self).endpoints(),
                Endpoint::Udp { pid, local_port },
            ),
    {
        if local_port == 0 || pid == 0 {
            return;
        }
        let e = Endpoint::Udp { pid, local_port };
        endpoint_set_remove(&mut self.endpoints, e);
        assert(self.endpoints() == old(self).endpoints().remove(e));
    }

    /// Whether some tracked process has UDP port `local_port` registered.
    pub fn is_tracked_udp(&self, local_port: u16) -> (r: bool)
        requires
            self.wf(),
        ensures
            r == self.udp_tracked(local_port),
    {
        if local_port == 0 {
            return false;
        }
        let pids = pid_set_snapshot(&self.pid_set);
        let mut i: usize = 0;
        while i < pids.len()
            invariant
                0 <= i <= pids@.len(),
                pids@.to_set() == self.pids(),
                forall|j: int| 0 <= j < i ==> !self.endpoints().contains(
                    Endpoint::Udp { pid: #[trigger] pids@[j], local_port },
                ),
            decreases pids@.len() - i,
        {
            let pid = pids[i];
            if endpoint_set_contains(&self.endpoints, Endpoint::Udp { pid, local_port }) {
                assert(pids@.contains(pid));
                assert(self.pids().contains(pid));
                assert(self.endpoints().contains(Endpoint::Udp { pid, local_port }));
                assert(self.udp_tracked(local_port));
                return true;
            }
            i = i + 1;
        }
        proof {
            if self.udp_tracked(local_port) {
                let pid = choose|pid: u32|
                    self.pids().contains(pid) && #[trigger] self.endpoints().contains(
                        Endpoint::Udp { pid, local_port },
                    );
                assert(pids@.to_set().contains(pid));
                let j = choose|j: int| 0 <= j < pids@.len() && pids@[j] == pid;
                assert(!self.endpoints().contains(Endpoint::Udp { pid: pids@[j], local_port }));
            }
        }
        false
    }

    /// Whether some tracked process has the port pair registered, in either
    /// order.
    pub fn is_tracked_tcp(&self, src_port: u16, dst_port: u16) -> (r: bool)
        requires
            self.wf(),
        ensures
            r == self.tcp_tracked(src_port, dst_port),
    {
        if src_port == 0 || dst_port == 0 {
            return false;
        }
        let pids = pid_set_snapshot(&self.pid_set);
        let mut i: usize = 0;
        while i < pids.len()
            invariant
                0 <= i <= pids@.len(),
                pids@.to_set() == self.pids(),
                forall|j: int|
                    0 <= j < i ==> !self.endpoints().contains(
                        Endpoint::Tcp {
                            pid: #[trigger] pids@[j],
                            local_port: src_port,
                            remote_port: dst_port,
                        },
                    ) && !self.endpoints().contains(
                        Endpoint::Tcp { pid: pids@[j], local_port: dst_port, remote_port: src_port },
                    ),
            decreases pids@.len() - i,
        {
            let pid = pids[i];
            if endpoint_set_contains(
                &self.endpoints,
                Endpoint::Tcp { pid, local_port: src_port, remote_port: dst_port },
            ) || endpoint_set_contains(
                &self.endpoints,
                Endpoint::Tcp { pid, local_port: dst_port, remote_port: src_port },
            ) {
                assert(pids@.contains(pid));
                assert(self.pids().contains(pid));
                assert(self.endpoints().contains(
                    Endpoint::Tcp { pid, local_port: src_port, remote_port: dst_port },
                ) || self.endpoints().contains(
                    Endpoint::Tcp { pid, local_port: dst_port, remote_port: src_port },
                ));
                assert(self.tcp_tracked(src_port, dst_port));
                return true;
            }
            i = i + 1;
        }
        proof {
            if self.tcp_tracked(src_port, dst_port) {
                let pid = choose|pid: u32|
                    self.pids().contains(pid) && (#[trigger] self.endpoints().contains(
                        Endpoint::Tcp { pid, local_port: src_port, remote_port: dst_port },
                    ) || self.endpoints().contains(
                        Endpoint::Tcp { pid, local_port: dst_port, remote_port: src_port },
                    ));
                assert(pids@.to_set().contains(pid));
                let j = choose|j: int| 0 <= j < pids@.len() && pids@[j] == pid;
                assert(!self.endpoints().contains(
                    Endpoint::Tcp { pid: pids@[j], local_port: src_port, remote_port: dst_port },
                ));
            }
        }
        false
    }
}

impl Default for ConnectionTracker {
    fn default() -> (r: Self)
        ensures
            r.wf(),
            r.pids() == Set::<u32>::empty(),
            r.endpoints() == Set::<Endpoint>::empty(),
    {
        Self::new()
    }
}

/// Whether a TCP packet is tracked does not depend on the order in which its
/// two ports are given.
pub proof fn tcp_tracking_symmetric(t: &ConnectionTracker, a: u16, b: u16)
    ensures
        t.tcp_tracked(a, b) == t.tcp_tracked(b, a),
{
    if t.tcp_tracked(a, b) {
        let pid = choose|pid: u32|
            t.pids().contains(pid) && (#[trigger] t.endpoints().contains(
                Endpoint::Tcp { pid, local_port: a, remote_port: b },
            ) || t.endpoints().contains(Endpoint::Tcp { pid, local_port: b, remote_port: a }));
        assert(t.endpoints().contains(Endpoint::Tcp { pid, local_port: b, remote_port: a })
            || t.endpoints().contains(Endpoint::Tcp { pid, local_port: a, remote_port: b }));
    }
    if t.tcp_tracked(b, a) {
        let pid = choose|pid: u32|
            t.pids().contains(pid) && (#[trigger] t.endpoints().contains(
                Endpoint::Tcp { pid, local_port: b, remote_port: a },
            ) || t.endpoints().contains(Endpoint::Tcp { pid, local_port: a, remote_port: b }));
        assert(t.endpoints().contains(Endpoint::Tcp { pid, local_port: a, remote_port: b })
            || t.endpoints().contains(Endpoint::Tcp { pid, local_port: b, remote_port: a }));
    }
}

/// Registering a UDP endpoint that was not registered and then unregistering
/// it leaves the endpoints as they were.
pub proof fn add_then_remove_udp_restores(t: &ConnectionTracker, pid: u32, local_port: u16)
    requires
        t.wf(),
        !t.endpoints().contains(Endpoint::Udp { pid, local_port }),
    ensures
        endpoints_after_remove(
            endpoints_after_add(t.pids(), t.endpoints(), Endpoint::Udp { pid, local_port }),
            Endpoint::Udp { pid, local_port },
        ) == t.endpoints(),
{
    let e = Endpoint::Udp { pid, local_port };
    assert(t.endpoints().insert(e).remove(e) =~= t.endpoints());
}

/// Tracking a process twice is the same as tracking it once.
pub proof fn add_process_idempotent(t: &ConnectionTracker, pid: u32)
    ensures
        t.pids().insert(pid).insert(pid) == t.pids().insert(pid),
{
    assert(t.pids().insert(pid).insert(pid) =~= t.pids().insert(pid));
}

} // verus!
