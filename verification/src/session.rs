//! The connection supervisor and the session state it owns.
//!
//! A session bundles the process-scoped state of one connection: the
//! connection phase, the command-queue gateway, the watcher registry, the
//! task handles and the last-command cache. The surrounding
//! task performs the transport work — opening the connection, issuing the
//! probe calls, spawning and aborting tasks — and drives this machine with
//! the results; every transition and its full-teardown guarantees are
//! verified.
//!
//! Lifecycle: `Disconnected` → `Connecting` (transport and authentication) →
//! `Loading` (system identity, node topology) → `Connected` (router running,
//! heartbeat every half timeout) → `Disconnected`. A failure while connecting
//! or loading aborts only that attempt; a heartbeat failure is fatal to the
//! session and tears everything down.

use crate::catalog::{ItemState, NitData, NitKind};
use crate::errors::{DispatchError, RemoteError};
use crate::nodes::{node_map, nodes_sorted, sort_nodes, svc_entries, pair_views, NodeInfo};
use crate::notify::{StatusKind, UiCommand};
use crate::queue::Gateway;
use crate::registry::{CorrelationId, WatcherRegistry};
use vstd::prelude::*;
use vstd::string::{StrSliceExecFns, StringExecFns};

verus! {

/// Where the session stands in its lifecycle.
#[derive(Clone, Copy, Debug, PartialEq, Eq, Structural)]
pub enum Phase {
    Disconnected,
    Connecting,
    Loading,
    Connected,
}

/// Everything torn down when a session ends: the task handles the caller
/// must abort — every watcher, the supervisor and the router — and the
/// notification announcing the disconnect.
pub struct Teardown<V, H> {
    pub watchers: Vec<H>,
    pub supervisor_task: Option<H>,
    pub router_task: Option<H>,
    pub notice: UiCommand<V>,
}

/// What a successful topology load produces: the connected notification with
/// the sorted node list, the initial state query handed to the caller, the
/// node-to-service routing map, and the heartbeat period.
pub struct ConnectedOk<V> {
    pub connected_notice: UiCommand<V>,
    pub initial_query_notice: UiCommand<V>,
    pub node_map: Vec<(String, String)>,
    pub heartbeat_period_ms: u64,
}

/// The outcome of feeding the node-topology result to the supervisor.
pub enum LoadOutcome<V, H> {
    /// The session is up.
    Up(ConnectedOk<V>),
    /// The attempt failed: everything of it was torn down again and the
    /// status notice reports the error.
    Failed(Teardown<V, H>, UiCommand<V>),
}

/// One live session: at most one of these is installed at any instant, and
/// replacing it tears the previous state down in full first.
///
/// The command queue pairs each enqueued command with its single-use reply
/// ticket `R` (the caller's reply channel), so a reply can only ever reach
/// the caller whose command it answers.
pub struct Session<V, R, H> {
    pub phase: Phase,
    pub path: Option<String>,
    pub timeout_ms: u64,
    pub credentials: Option<(String, String)>,
    pub system_name: Option<String>,
    pub gateway: Gateway<(NitData<V>, R)>,
    pub registry: WatcherRegistry<H>,
    pub supervisor_task: Option<H>,
    pub router_task: Option<H>,
    pub last_command: Option<NitData<V>>,
}

/// The session's invariant: its parts are well-formed, and the command queue
/// exists exactly while the session is connected.
pub open spec fn session_wf<V, R, H>(s: Session<V, R, H>) -> bool {
    &&& s.gateway.wf()
    &&& s.registry.wf()
    &&& (s.gateway.is_installed() ==> s.phase is Connected)
}

/// A session that holds nothing: no queue, no watchers, no tasks, no cache.
pub open spec fn fully_down<V, R, H>(s: Session<V, R, H>) -> bool {
    &&& s.phase is Disconnected
    &&& !s.gateway.is_installed()
    &&& s.gateway.pending_cmd() is None
    &&& s.registry.view() == Map::<CorrelationId, H>::empty()
    &&& s.supervisor_task is None
    &&& s.router_task is None
    &&& s.last_command is None
}

impl<V, R, H> Session<V, R, H> {
    /// A fresh session: disconnected, empty.
    pub fn new() -> (s: Session<V, R, H>)
        ensures
            session_wf(s),
            fully_down(s),
            s.timeout_ms == 0,
            s.path is None,
            s.system_name is None,
    {
        Session {
            phase: Phase::Disconnected,
            path: None,
            timeout_ms: 0,
            credentials: None,
            system_name: None,
            gateway: Gateway::new(),
            registry: WatcherRegistry::new(),
            supervisor_task: None,
            router_task: None,
            last_command: None,
        }
    }

    /// Tears the session down in full, whatever state it is in — always safe
    /// to call, also when nothing is connected. Every watcher, the router
    /// and the supervisor are handed back for abortion, the queue and the
    /// last-command cache are cleared, and the disconnect is announced —
    /// regardless of how many watchers were active.
    pub fn disconnect(&mut self) -> (t: Teardown<V, H>)
        requires
            session_wf(*old(self)),
        ensures
            session_wf(*final(self)),
            fully_down(*final(self)),
            final(self).timeout_ms == old(self).timeout_ms,
            final(self).path == old(self).path,
            final(self).system_name == old(self).system_name,
            t.watchers@.len() == old(self).registry.view().len(),
            t.watchers@ == old(self).registry.entries@.map_values(|e: (CorrelationId, H)| e.1),
            t.supervisor_task == old(self).supervisor_task,
            t.router_task == old(self).router_task,
            t.notice == UiCommand::<V>::MarkDisconnected,
    {
        self.phase = Phase::Disconnected;
        let _dropped = self.gateway.uninstall();
        let watchers = self.registry.cancel_all();
        let supervisor_task = self.supervisor_task.take();
        let router_task = self.router_task.take();
        self.last_command = None;
        Teardown { watchers, supervisor_task, router_task, notice: UiCommand::MarkDisconnected }
    }

    /// Starts a connection attempt to `path`: idempotent with respect to any
    /// prior session, which is fully torn down first. The status notice
    /// announces the attempt; the caller then opens the transport and
    /// reports through [`Session::on_transport`].
    pub fn connect(
        &mut self,
        path: String,
        timeout_ms: u64,
        credentials: Option<(String, String)>,
    ) -> (r: (Teardown<V, H>, UiCommand<V>))
        requires
            session_wf(*old(self)),
        ensures
            session_wf(*final(self)),
            final(self).phase is Connecting,
            !final(self).gateway.is_installed(),
            final(self).gateway.pending_cmd() is None,
            final(self).registry.view() == Map::<CorrelationId, H>::empty(),
            final(self).last_command is None,
            final(self).path == Some(path),
            final(self).timeout_ms == timeout_ms,
            final(self).credentials == credentials,
            final(self).system_name is None,
            r.0.watchers@.len() == old(self).registry.view().len(),
            r.0.supervisor_task == old(self).supervisor_task,
            r.0.router_task == old(self).router_task,
            r.0.notice == UiCommand::<V>::MarkDisconnected,
            r.1 matches UiCommand::SetStatus(m, k) && k == StatusKind::Info && m@ == "Connecting to "@
                + path@ + "..."@,
    {
        let teardown = self.disconnect();
        let mut m = String::new();
        m.append("Connecting to ");
        m.append(path.as_str());
        m.append("...");
        proof {
            assert(m@ =~= "Connecting to "@ + path@ + "..."@);
        }
        self.phase = Phase::Connecting;
        self.path = Some(path);
        self.timeout_ms = timeout_ms;
        self.credentials = credentials;
        self.system_name = None;
        (teardown, UiCommand::SetStatus(m, StatusKind::Info))
    }

    /// Feeds in the transport-and-authentication outcome. Success moves the
    /// session to `Loading` and announces it — the caller then asks the node
    /// for its identity; failure reports the error once and abandons only
    /// this attempt.
    pub fn on_transport(&mut self, res: Result<(), RemoteError>) -> (notice: UiCommand<V>)
        requires
            session_wf(*old(self)),
            old(self).phase is Connecting,
            old(self).path is Some,
        ensures
            session_wf(*final(self)),
            final(self).gateway == old(self).gateway,
            final(self).registry == old(self).registry,
            final(self).path == old(self).path,
            final(self).timeout_ms == old(self).timeout_ms,
            match res {
                Ok(_) => {
                    &&& final(self).phase is Loading
                    &&& notice matches UiCommand::SetStatus(m, k) && k == StatusKind::Info && m@
                        == "Loading data from "@ + old(self).path->0@ + "..."@
                },
                Err(e) => {
                    &&& final(self).phase is Disconnected
                    &&& notice matches UiCommand::SetStatus(m, k) && k == StatusKind::Error && (
                    match e.message {
                        Some(em) => m@ == em@,
                        None => m@ == "Connection error"@,
                    })
                },
            },
    {
        match res {
            Ok(_) => {
                self.phase = Phase::Loading;
                let mut m = String::new();
                m.append("Loading data from ");
                match &self.path {
                    Some(p) => {
                        m.append(p.as_str());
                    },
                    None => {},
                }
                m.append("...");
                proof {
                    assert(m@ =~= "Loading data from "@ + old(self).path->0@ + "..."@);
                }
                UiCommand::SetStatus(m, StatusKind::Info)
            },
            Err(e) => {
                self.phase = Phase::Disconnected;
                UiCommand::SetStatus(e.message_or("Connection error"), StatusKind::Error)
            },
        }
    }

    /// Feeds in the system-identity probe's result. Success records the
    /// system name — the caller then loads the node topology; failure
    /// reports the error once and abandons only this attempt.
    pub fn on_system_info(&mut self, res: Result<String, RemoteError>) -> (notice: Option<
        UiCommand<V>,
    >)
        requires
            session_wf(*old(self)),
            old(self).phase is Loading,
        ensures
            session_wf(*final(self)),
            final(self).gateway == old(self).gateway,
            final(self).registry == old(self).registry,
            final(self).path == old(self).path,
            final(self).timeout_ms == old(self).timeout_ms,
            match res {
                Ok(name) => {
                    &&& final(self).phase is Loading
                    &&& final(self).system_name == Some(name)
                    &&& notice is None
                },
                Err(e) => {
                    &&& final(self).phase is Disconnected
                    &&& notice matches Some(UiCommand::SetStatus(m, k)) && k == StatusKind::Error
                        && (match e.message {
                        Some(em) => m@ == em@,
                        None => m@ == "Connection error"@,
                    })
                },
            },
    {
        match res {
            Ok(name) => {
                self.system_name = Some(name);
                None
            },
            Err(e) => {
                self.phase = Phase::Disconnected;
                Some(UiCommand::SetStatus(e.message_or("Connection error"), StatusKind::Error))
            },
        }
    }

    /// Feeds in the node-topology result, completing the connection attempt.
    ///
    /// On success the node list is sorted by the display policy (local node
    /// first, remotes lexicographically), the routing map from node name to
    /// service address is built, the command queue is installed, and the
    /// session is connected: the caller starts the router task, emits the
    /// connected notification, runs the initial state query, and probes
    /// liveness every half timeout. On failure the attempt is abandoned with
    /// one error report.
    pub fn on_node_list(&mut self, res: Result<Vec<NodeInfo<V>>, RemoteError>) -> (out: LoadOutcome<
        V,
        H,
    >)
        requires
            session_wf(*old(self)),
            old(self).phase is Loading,
            old(self).path is Some,
            old(self).system_name is Some,
        ensures
            session_wf(*final(self)),
            final(self).path == old(self).path,
            final(self).timeout_ms == old(self).timeout_ms,
            match (res, out) {
                (Ok(nodes), LoadOutcome::Up(ok)) => {
                    &&& final(self).phase is Connected
                    &&& final(self).gateway.is_installed()
                    &&& final(self).gateway.pending_cmd() is None
                    &&& ok.connected_notice matches UiCommand::MarkConnected(p, ns) && p == old(
                        self,
                    ).path->0 && nodes_sorted(ns@) && ns@.to_multiset() == nodes@.to_multiset()
                        && pair_views(ok.node_map@) == svc_entries(ns@)
                    &&& ok.heartbeat_period_ms == old(self).timeout_ms / 2
                    &&& ok.initial_query_notice matches UiCommand::ProcessNit(nd) && nd.node@ == old(
                        self,
                    ).system_name->0@ && nd.kind == NitKind::<V>::State
                },
                (Err(e), LoadOutcome::Failed(t, notice)) => {
                    &&& fully_down(*final(self))
                    &&& t.watchers@.len() == old(self).registry.view().len()
                    &&& t.notice == UiCommand::<V>::MarkDisconnected
                    &&& notice matches UiCommand::SetStatus(m, k) && k == StatusKind::Error && (
                    match e.message {
                        Some(em) => m@ == em@,
                        None => m@ == "Connection error"@,
                    })
                },
                _ => false,
            },
    {
        match res {
            Ok(nodes) => {
                let sorted = sort_nodes(nodes);
                let map = node_map(&sorted);
                let _dropped = self.gateway.install();
                self.phase = Phase::Connected;
                let path = match &self.path {
                    Some(p) => p.clone(),
                    None => unreached(),
                };
                let system_name: &str = match &self.system_name {
                    Some(n) => n.as_str(),
                    None => unreached(),
                };
                let initial: NitData<V> = NitData::new_state(system_name);
                LoadOutcome::Up(
                    ConnectedOk {
                        connected_notice: UiCommand::MarkConnected(path, sorted),
                        initial_query_notice: UiCommand::ProcessNit(initial),
                        node_map: map,
                        heartbeat_period_ms: self.timeout_ms / 2,
                    },
                )
            },
            Err(e) => {
                let t = self.disconnect();
                LoadOutcome::Failed(
                    t,
                    UiCommand::SetStatus(e.message_or("Connection error"), StatusKind::Error),
                )
            },
        }
    }

    /// Feeds in one liveness probe's outcome. A healthy probe changes
    /// nothing; a failed one is fatal to the whole session — the error is
    /// reported once and everything is torn down.
    pub fn on_heartbeat(&mut self, res: Result<(), RemoteError>) -> (out: Option<
        (Teardown<V, H>, UiCommand<V>),
    >)
        requires
            session_wf(*old(self)),
            old(self).phase is Connected,
        ensures
            session_wf(*final(self)),
            match res {
                Ok(_) => out is None && *final(self) == *old(self),
                Err(e) => {
                    &&& out matches Some((t, notice))
                    &&& fully_down(*final(self))
                    &&& t.watchers@.len() == old(self).registry.view().len()
                    &&& t.supervisor_task == old(self).supervisor_task
                    &&& t.router_task == old(self).router_task
                    &&& t.notice == UiCommand::<V>::MarkDisconnected
                    &&& notice matches UiCommand::SetStatus(m, k) && k == StatusKind::Error && (
                    match e.message {
                        Some(em) => m@ == em@,
                        None => m@ == "Connection error"@,
                    })
                },
            },
    {
        match res {
            Ok(_) => None,
            Err(e) => {
                let t = self.disconnect();
                Some((t, UiCommand::SetStatus(e.message_or("Connection error"), StatusKind::Error)))
            },
        }
    }

    /// Submits one command for the router together with its single-use reply
    /// ticket, without blocking: fails at once with the fixed not-connected
    /// error when no queue is installed, and with the fixed
    /// admission-rejected error while another command sits unconsumed —
    /// which leaves that first command and its ticket untouched.
    pub fn submit(&mut self, cmd: NitData<V>, reply: R) -> (r: Result<(), DispatchError>)
        requires
            session_wf(*old(self)),
        ensures
            session_wf(*final(self)),
            final(self).registry == old(self).registry,
            final(self).phase == old(self).phase,
            final(self).gateway.is_installed() == old(self).gateway.is_installed(),
            ({
                let was_installed = old(self).gateway.is_installed();
                let was_pending = old(self).gateway.pending_cmd();
                let now_pending = final(self).gateway.pending_cmd();
                &&& !was_installed ==> r == Result::<(), DispatchError>::Err(
                    DispatchError::NotConnected,
                ) && now_pending == was_pending
                &&& was_installed && was_pending is Some ==> r == Result::<(), DispatchError>::Err(
                    DispatchError::AdmissionRejected,
                ) && now_pending == was_pending
                &&& was_installed && was_pending is None ==> r == Result::<(), DispatchError>::Ok(
                    (),
                ) && now_pending == Some((cmd, reply))
            }),
    {
        self.gateway.submit((cmd, reply))
    }

    /// The router's side of the queue: consumes the pending command with the
    /// reply ticket it was admitted with, if any.
    pub fn next_command(&mut self) -> (r: Option<(NitData<V>, R)>)
        requires
            session_wf(*old(self)),
        ensures
            session_wf(*final(self)),
            r == old(self).gateway.pending_cmd(),
            final(self).gateway.pending_cmd() is None,
            final(self).registry == old(self).registry,
            final(self).phase == old(self).phase,
    {
        self.gateway.take_next()
    }

    /// Records the supervisor task's handle.
    pub fn set_supervisor_task(&mut self, h: H)
        ensures
            final(self).supervisor_task == Some(h),
            final(self).gateway == old(self).gateway,
            final(self).registry == old(self).registry,
            final(self).phase == old(self).phase,
            final(self).last_command == old(self).last_command,
            final(self).router_task == old(self).router_task,
    {
        self.supervisor_task = Some(h);
    }

    /// Records the router task's handle.
    pub fn set_router_task(&mut self, h: H)
        ensures
            final(self).router_task == Some(h),
            final(self).gateway == old(self).gateway,
            final(self).registry == old(self).registry,
            final(self).phase == old(self).phase,
            final(self).last_command == old(self).last_command,
            final(self).supervisor_task == old(self).supervisor_task,
    {
        self.router_task = Some(h);
    }

    /// Caches the command for a later reload replay.
    pub fn set_last_command(&mut self, cmd: NitData<V>)
        ensures
            final(self).last_command == Some(cmd),
            final(self).gateway == old(self).gateway,
            final(self).registry == old(self).registry,
            final(self).phase == old(self).phase,
    {
        self.last_command = Some(cmd);
    }

    /// Hands the cached command out for a reload replay.
    pub fn take_last_command(&mut self) -> (r: Option<NitData<V>>)
        ensures
            r == old(self).last_command,
            final(self).last_command is None,
            final(self).gateway == old(self).gateway,
            final(self).registry == old(self).registry,
            final(self).phase == old(self).phase,
    {
        self.last_command.take()
    }
}

/// Validates a decoded item-state reply: exactly one record is owed, and it
/// must report the object that was asked about.
pub fn item_state_check<V>(oid: &str, states: Vec<ItemState<V>>) -> (r: Result<
    ItemState<V>,
    DispatchError,
>)
    ensures
        match r {
            Ok(st) => states@.len() == 1 && st == states@[0] && st.oid@ == oid@,
            Err(e) => {
                if states@.len() != 1 {
                    e matches DispatchError::Invalid(m) && m@ == "invalid payload received"@
                } else {
                    states@[0].oid@ != oid@ && (e matches DispatchError::Invalid(m) && m@
                        == "OID mismatch"@)
                }
            },
        },
{
    let mut states = states;
    if states.len() == 1 {
        let st = states.remove(0);
        if crate::catalog::str_eq(st.oid.as_str(), oid) {
            Ok(st)
        } else {
            Err(DispatchError::Invalid("OID mismatch".to_owned()))
        }
    } else {
        Err(DispatchError::Invalid("invalid payload received".to_owned()))
    }
}

/// Normalises the caller-given endpoint path: a `rt://` scheme prefix is
/// stripped, anything else is taken as given.
pub fn normalize_connection_path(path: &str) -> (r: String)
    ensures
        path@.len() >= 5 && path@.subrange(0, 5) == "rt://"@ ==> r@ == path@.skip(5),
        !(path@.len() >= 5 && path@.subrange(0, 5) == "rt://"@) ==> r@ == path@,
{
    let n = path.unicode_len();
    proof {
        reveal_strlit("rt://");
    }
    if n >= 5 {
        let m0 = path.get_char(0);
        let m1 = path.get_char(1);
        let m2 = path.get_char(2);
        let m3 = path.get_char(3);
        let m4 = path.get_char(4);
        if (m0 as u32) == ('r' as u32) && (m1 as u32) == ('t' as u32) && (m2 as u32) == (
        ':' as u32) && (m3 as u32) == ('/' as u32) && (m4 as u32) == ('/' as u32) {
            proof {
                assert(m0 == 'r');
                assert(m1 == 't');
                assert(m2 == ':');
                assert(m3 == '/');
                assert(m4 == '/');
                assert(path@.subrange(0, 5) =~= "rt://"@);
            }
            let rest = path.substring_char(5, n);
            return rest.to_owned();
        }
        proof {
            if path@.subrange(0, 5) == "rt://"@ {
                assert(path@[0] == "rt://"@[0]);
                assert(path@[1] == "rt://"@[1]);
                assert(path@[2] == "rt://"@[2]);
                assert(path@[3] == "rt://"@[3]);
                assert(path@[4] == "rt://"@[4]);
                assert(false);
            }
        }
        path.to_owned()
    } else {
        path.to_owned()
    }
}

} // verus!
