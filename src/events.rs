//! Platform notifications about processes and sockets, and how they change
//! the endpoint index.
use vstd::prelude::*;
use crate::addr::IpAddress;
use crate::config::{GuardConfig, matches_any};
use crate::flow::FlowKey;
use crate::index::{ConnectionTracker, Endpoint, endpoints_after_add, endpoints_after_remove};

verus! {

/// A running process.
#[derive(Debug)]
pub struct Process {
    pub name: String,
    pub process_id: u32,
}

/// A process was created.
#[derive(Debug)]
pub struct ProcessOpenEvent {
    pub target_instance: Process,
}

/// A process was deleted.
#[derive(Debug)]
pub struct ProcessCloseEvent {
    pub target_instance: Process,
}

/// An open TCP connection.
#[derive(Clone, Copy, Debug)]
pub struct NetTCPConnection {
    pub local_port: u16,
    pub remote_address: IpAddress,
    pub remote_port: u16,
    pub owning_process: u32,
}

/// A bound UDP endpoint.
#[derive(Clone, Copy, Debug)]
pub struct NetUDPEndpoint {
    pub local_port: u16,
    pub owning_process: u32,
}

/// A UDP endpoint was created.
#[derive(Clone, Copy, Debug)]
pub struct UDPInstCreateEvent {
    pub target_instance: NetUDPEndpoint,
}

/// A UDP endpoint was modified; a close is reported as a modification to
/// zeros.
#[derive(Clone, Copy, Debug)]
pub struct UDPInstModifyEvent {
    pub target_instance: NetUDPEndpoint,
    pub previous_instance: NetUDPEndpoint,
}

/// A UDP endpoint was deleted.
#[derive(Clone, Copy, Debug)]
pub struct UDPInstDeleteEvent {
    pub target_instance: NetUDPEndpoint,
}

/// A TCP connection was created.
#[derive(Clone, Copy, Debug)]
pub struct TCPInstCreateEvent {
    pub target_instance: NetTCPConnection,
}

/// A TCP connection was modified; a close is reported as a modification to
/// zeros.
#[derive(Clone, Copy, Debug)]
pub struct TCPInstModifyEvent {
    pub target_instance: NetTCPConnection,
    pub previous_instance: NetTCPConnection,
}

/// A TCP connection was deleted.
#[derive(Clone, Copy, Debug)]
pub struct TCPInstDeleteEvent {
    pub target_instance: NetTCPConnection,
}

/// What the monitors report.
#[derive(Clone, Debug)]
pub enum MonitorEvent {
    ProcessFound(u32),
    ProcessLost(u32),
    FlowEstablished(FlowKey),
    FlowDeleted(FlowKey),
}

/// What the guard reports.
#[derive(Clone, Copy, Debug, PartialEq, Eq, Structural)]
pub enum GuardEvent {
    PacketBlocked,
    PacketAllowed,
    EngineStopped,
}

/// Any report to the supervisor.
#[derive(Clone, Debug)]
pub enum AppEvent {
    Monitor(MonitorEvent),
    Guard(GuardEvent),
    Error(String),
}

pub open spec fn udp_endpoint(u: NetUDPEndpoint) -> Endpoint {
    Endpoint::Udp { pid: u.owning_process, local_port: u.local_port }
}

pub open spec fn tcp_endpoint(c: NetTCPConnection) -> Endpoint {
    Endpoint::Tcp { pid: c.owning_process, local_port: c.local_port, remote_port: c.remote_port }
}

/// A process was created: it is tracked when its name is a configured
/// executable. The result says whether it is.
pub fn on_process_created(t: &mut ConnectionTracker, config: &GuardConfig, ev: &ProcessOpenEvent) -> (r:
    bool)
    requires
        old(t).wf(),
    ensures
        final(t).wf(),
        r == matches_any(config.executable_names@, ev.target_instance.name@),
        final(t).pids() == if r {
            old(t).pids().insert(ev.target_instance.process_id)
        } else {
            old(t).pids()
        },
        final(t).endpoints() == old(t).endpoints(),
{
    if config.matches_executable(ev.target_instance.name.as_str()) {
        t.add_process(ev.target_instance.process_id);
        true
    } else {
        false
    }
}

/// A process was deleted: it is no longer tracked, and its endpoints go.
pub fn on_process_deleted(t: &mut ConnectionTracker, ev: &ProcessCloseEvent)
    requires
        old(t).wf(),
    ensures
        final(t).wf(),
        final(t).pids() == old(t).pids().remove(ev.target_instance.process_id),
        final(t).endpoints() == crate::index::endpoints_without(
            old(t).endpoints(),
            ev.target_instance.process_id,
        ),
{
    t.remove_process(ev.target_instance.process_id);
}

/// A UDP endpoint was created: registered when its owner is tracked.
pub fn on_udp_created(t: &mut ConnectionTracker, ev: &UDPInstCreateEvent)
    requires
        old(t).wf(),
    ensures
        final(t).wf(),
        final(t).pids() == old(t).pids(),
        final(t).endpoints() == endpoints_after_add(
            old(t).pids(),
            old(t).endpoints(),
            udp_endpoint(ev.target_instance),
        ),
{
    t.add_udp_endpoint(ev.target_instance.owning_process, ev.target_instance.local_port);
}

/// A UDP endpoint was deleted: unregistered.
pub fn on_udp_deleted(t: &mut ConnectionTracker, ev: &UDPInstDeleteEvent)
    requires
        old(t).wf(),
    ensures
        final(t).wf(),
        final(t).pids() == old(t).pids(),
        final(t).endpoints() == endpoints_after_remove(
            old(t).endpoints(),
            udp_endpoint(ev.target_instance),
        ),
{
    t.remove_udp_endpoint(ev.target_instance.owning_process, ev.target_instance.local_port);
}

/// A UDP endpoint was modified: the previous instance is unregistered, then
/// the new one registered when its owner is tracked.
pub fn on_udp_modified(t: &mut ConnectionTracker, ev: &UDPInstModifyEvent)
    requires
        old(t).wf(),
    ensures
        final(t).wf(),
        final(t).pids() == old(t).pids(),
        final(t).endpoints() == endpoints_after_add(
            old(t).pids(),
            endpoints_after_remove(old(t).endpoints(), udp_endpoint(ev.previous_instance)),
            udp_endpoint(ev.target_instance),
        ),
{
    let prev = ev.previous_instance;
    let cur = ev.target_instance;
    t.remove_udp_endpoint(prev.owning_process, prev.local_port);
    t.add_udp_endpoint(cur.owning_process, cur.local_port);
}

/// A TCP connection was created: registered when its owner is tracked.
pub fn on_tcp_created(t: &mut ConnectionTracker, ev: &TCPInstCreateEvent)
    requires
        old(t).wf(),
    ensures
        final(t).wf(),
        final(t).pids() == old(t).pids(),
        final(t).endpoints() == endpoints_after_add(
            old(t).pids(),
            old(t).endpoints(),
            tcp_endpoint(ev.target_instance),
        ),
{
    let c = ev.target_instance;
    t.add_tcp_connection(c.owning_process, c.local_port, c.remote_port);
}

/// A TCP connection was deleted: unregistered.
pub fn on_tcp_deleted(t: &mut ConnectionTracker, ev: &TCPInstDeleteEvent)
    requires
        old(t).wf(),
    ensures
        final(t).wf(),
        final(t).pids() == old(t).pids(),
        final(t).endpoints() == endpoints_after_remove(
            old(t).endpoints(),
            tcp_endpoint(ev.target_instance),
        ),
{
    let c = ev.target_instance;
    t.remove_tcp_connection(c.owning_process, c.local_port, c.remote_port);
}

/// A TCP connection was modified: the previous instance is unregistered,
/// then the new one registered when its owner is tracked.
pub fn on_tcp_modified(t: &mut ConnectionTracker, ev: &TCPInstModifyEvent)
    requires
        old(t).wf(),
    ensures
        final(t).wf(),
        final(t).pids() == old(t).pids(),
        final(t).endpoints() == endpoints_after_add(
            old(t).pids(),
            endpoints_after_remove(old(t).endpoints(), tcp_endpoint(ev.previous_instance)),
            tcp_endpoint(ev.target_instance),
        ),
{
    let prev = ev.previous_instance;
    let cur = ev.target_instance;
    t.remove_tcp_connection(prev.owning_process, prev.local_port, prev.remote_port);
    t.add_tcp_connection(cur.owning_process, cur.local_port, cur.remote_port);
}

/// The endpoints once each of `new` has been registered in turn: those of
/// tracked owners with no zero field are added.
pub open spec fn admitted(pids: Set<u32>, eps: Set<Endpoint>, new: Seq<Endpoint>) -> Set<Endpoint> {
    eps.union(new.to_set().filter(|e: Endpoint| e.is_nonzero() && pids.contains(e.owner())))
}

proof fn admitted_push(pids: Set<u32>, eps: Set<Endpoint>, new: Seq<Endpoint>, e: Endpoint)
    ensures
        admitted(pids, eps, new.push(e)) == endpoints_after_add(pids, admitted(pids, eps, new), e),
{
    assert(new.push(e).to_set() =~= new.to_set().insert(e)) by {
        assert forall|a: Endpoint| new.push(e).to_set().contains(a) implies new.to_set().insert(
            e,
        ).contains(a) by {
            let i = choose|i: int| 0 <= i < new.push(e).len() && new.push(e)[i] == a;
            if i < new.len() {
                assert(new[i] == a);
            }
        }
        assert forall|a: Endpoint| new.to_set().insert(e).contains(a) implies new.push(
            e,
        ).to_set().contains(a) by {
            if a == e {
                assert(new.push(e)[new.len() as int] == a);
            } else {
                let i = choose|i: int| 0 <= i < new.len() && new[i] == a;
                assert(new.push(e)[i] == a);
            }
        }
    }
    assert(admitted(pids, eps, new.push(e)) =~= endpoints_after_add(
        pids,
        admitted(pids, eps, new),
        e,
    ));
}

/// Tracks every listed process whose name is a configured executable.
pub fn track_processes(t: &mut ConnectionTracker, config: &GuardConfig, procs: &Vec<Process>)
    requires
        old(t).wf(),
    ensures
        final(t).wf(),
        final(t).endpoints() == old(t).endpoints(),
        forall|pid: u32|
            #[trigger] final(t).pids().contains(pid) <==> old(t).pids().contains(pid) || exists|
                i: int,
            |
                0 <= i < procs@.len() && procs@[i].process_id == pid && matches_any(
                    config.executable_names@,
                    #[trigger] procs@[i].name@,
                ),
{
    let mut i: usize = 0;
    while i < procs.len()
        invariant
            0 <= i <= procs@.len(),
            t.wf(),
            t.endpoints() == old(t).endpoints(),
            forall|pid: u32|
                #[trigger] t.pids().contains(pid) <==> old(t).pids().contains(pid) || exists|
                    j: int,
                |
                    0 <= j < i && procs@[j].process_id == pid && matches_any(
                        config.executable_names@,
                        #[trigger] procs@[j].name@,
                    ),
        decreases procs@.len() - i,
    {
        let p = &procs[i];
        if config.matches_executable(p.name.as_str()) {
            t.add_process(p.process_id);
        }
        proof {
            assert forall|pid: u32|
                #[trigger] t.pids().contains(pid) <==> old(t).pids().contains(pid) || exists|
                    j: int,
                |
                    0 <= j < i + 1 && procs@[j].process_id == pid && matches_any(
                        config.executable_names@,
                        #[trigger] procs@[j].name@,
                    ) by {
                if pid == procs@[i as int].process_id && matches_any(
                    config.executable_names@,
                    procs@[i as int].name@,
                ) {
                    assert(t.pids().contains(pid));
                }
            }
        }
        i = i + 1;
    }
}

/// Registers every listed UDP endpoint whose owner is tracked.
pub fn register_udp_endpoints(t: &mut ConnectionTracker, eps: &Vec<NetUDPEndpoint>)
    requires
        old(t).wf(),
    ensures
        final(t).wf(),
        final(t).pids() == old(t).pids(),
        final(t).endpoints() == admitted(
            old(t).pids(),
            old(t).endpoints(),
            eps@.map_values(|u: NetUDPEndpoint| udp_endpoint(u)),
        ),
{
    let ghost all = eps@.map_values(|u: NetUDPEndpoint| udp_endpoint(u));
    let mut i: usize = 0;
    proof {
        assert(all.take(0) =~= Seq::<Endpoint>::empty());
        assert(admitted(old(t).pids(), old(t).endpoints(), all.take(0)) =~= old(t).endpoints());
    }
    while i < eps.len()
        invariant
            0 <= i <= eps@.len(),
            all == eps@.map_values(|u: NetUDPEndpoint| udp_endpoint(u)),
            t.wf(),
            t.pids() == old(t).pids(),
            t.endpoints() == admitted(old(t).pids(), old(t).endpoints(), all.take(i as int)),
        decreases eps@.len() - i,
    {
        let u = eps[i];
        t.add_udp_endpoint(u.owning_process, u.local_port);
        proof {
            assert(all.take(i + 1) =~= all.take(i as int).push(udp_endpoint(u)));
            admitted_push(old(t).pids(), old(t).endpoints(), all.take(i as int), udp_endpoint(u));
        }
        i = i + 1;
    }
    proof {
        assert(all.take(eps@.len() as int) =~= all);
    }
}

/// Registers every listed TCP connection whose owner is tracked.
pub fn register_tcp_connections(t: &mut ConnectionTracker, conns: &Vec<NetTCPConnection>)
    requires
        old(t).wf(),
    ensures
        final(t).wf(),
        final(t).pids() == old(t).pids(),
        final(t).endpoints() == admitted(
            old(t).pids(),
            old(t).endpoints(),
            conns@.map_values(|c: NetTCPConnection| tcp_endpoint(c)),
        ),
{
    let ghost all = conns@.map_values(|c: NetTCPConnection| tcp_endpoint(c));
    let mut i: usize = 0;
    proof {
        assert(all.take(0) =~= Seq::<Endpoint>::empty());
        assert(admitted(old(t).pids(), old(t).endpoints(), all.take(0)) =~= old(t).endpoints());
    }
    while i < conns.len()
        invariant
            0 <= i <= conns@.len(),
            all == conns@.map_values(|c: NetTCPConnection| tcp_endpoint(c)),
            t.wf(),
            t.pids() == old(t).pids(),
            t.endpoints() == admitted(old(t).pids(), old(t).endpoints(), all.take(i as int)),
        decreases conns@.len() - i,
    {
        let c = conns[i];
        t.add_tcp_connection(c.owning_process, c.local_port, c.remote_port);
        proof {
            assert(all.take(i + 1) =~= all.take(i as int).push(tcp_endpoint(c)));
            admitted_push(old(t).pids(), old(t).endpoints(), all.take(i as int), tcp_endpoint(c));
        }
        i = i + 1;
    }
    proof {
        assert(all.take(conns@.len() as int) =~= all);
    }
}

} // verus!
