//! The command catalog: the closed, tagged set of administrative operations
//! the dispatcher executes against a remote node.
//!
//! A command ([`NitData`]) pairs one node name with one operation
//! ([`NitKind`]); each variant carries exactly the parameters its remote call
//! needs. Payload values the dispatcher only carries through — deploy bodies,
//! action parameters, service-call arguments — appear as the type parameter
//! `V`.

use crate::registry::CorrelationId;
use vstd::prelude::*;
use vstd::string::{StrSliceExecFns, StringExecFns};

verus! {

/// Filter of a log query.
#[derive(Clone, Debug, PartialEq, Eq)]
pub struct LogFilter {
    pub level: Option<String>,
    pub time: Option<u32>,
    pub limit: Option<u32>,
    pub module: Option<String>,
    pub rx: Option<String>,
}

/// Filter of a user-list query: the authentication service to ask.
#[derive(Clone, Debug, PartialEq, Eq)]
pub struct UsersFilter {
    pub svc: Option<String>,
}

/// Filter of an action-list query.
#[derive(Clone, Debug, PartialEq, Eq)]
pub struct ActionFilter {
    pub i: Option<String>,
    pub sq: Option<String>,
    pub svc: Option<String>,
    pub time: Option<u32>,
    pub limit: Option<u32>,
}

/// Arguments of a logic-variable set: the target id is filled in per
/// variable while a bulk set runs.
#[derive(Clone, Debug, PartialEq)]
pub struct PayloadLvarSet<V> {
    pub i: Option<String>,
    pub status: Option<i16>,
    pub value: Option<V>,
}

/// Arguments of a unit action or a macro run; `params` is the opaque
/// parameter body.
#[derive(Clone, Debug, PartialEq)]
pub struct PayloadAction<V> {
    pub i: Option<String>,
    pub params: V,
}

/// A service's deploy description: the id the dispatcher validates, and the
/// opaque parameter body it hands through.
#[derive(Clone, Debug, PartialEq)]
pub struct ServiceParams<V> {
    pub id: Option<String>,
    pub params: V,
}

/// One object's reported state: its identifier, numeric status and opaque
/// value.
#[derive(Clone, Debug, PartialEq)]
pub struct ItemState<V> {
    pub oid: String,
    pub status: i16,
    pub value: Option<V>,
}

/// One abstract administrative operation, with its parameters.
#[derive(Debug, PartialEq)]
pub enum NitKind<V> {
    State,
    Services,
    Items(Option<String>, Option<String>),
    Log(Option<LogFilter>),
    Users(Option<UsersFilter>),
    Actions(Option<ActionFilter>),
    ItemGetConfig(String),
    ItemGetState(String),
    ItemDeploySingle(V),
    ItemDeployMultiple(Vec<V>),
    ItemAnnounce(Vec<String>),
    ItemDestroy(Vec<String>),
    ItemDisable(Vec<String>),
    ItemEnable(Vec<String>),
    LvarSet(Vec<String>, PayloadLvarSet<V>),
    LvarReset(Vec<String>),
    LvarClear(Vec<String>),
    LvarToggle(Vec<String>),
    LvarIncr(Vec<String>),
    LvarDecr(Vec<String>),
    UnitActionToggle(String),
    UnitAction(PayloadAction<V>),
    LmacroRun(PayloadAction<V>),
    Broker,
    Save,
    Restart,
    SvcRestart(Vec<String>),
    SvcDestroy(Vec<String>),
    SvcPurge(Vec<String>),
    SvcGetParams(String),
    SvcGetParamsX(String),
    ItemGetConfigX(String),
    SvcDeploySingle(ServiceParams<V>),
    SvcDeployMultiple(Vec<V>),
    SvcGetInfo(String),
    SvcCall(CorrelationId, String, String, Option<V>),
    SPoints,
    StartItemWatcher(CorrelationId, String, u64),
    StartActionWatcher(CorrelationId, CorrelationId, u64),
    StopWatcher(CorrelationId),
}

/// One command: an operation addressed to one node.
#[derive(Debug, PartialEq)]
pub struct NitData<V> {
    pub node: String,
    pub kind: NitKind<V>,
}

/// The canonical short display name of an operation; operations without one
/// display nothing.
pub open spec fn tag_name<V>(kind: NitKind<V>) -> Seq<char> {
    match kind {
        NitKind::Save => "save"@,
        NitKind::Restart => "restart"@,
        NitKind::SvcRestart(_) => "svc.restart"@,
        NitKind::SvcDestroy(_) => "svc.undeploy"@,
        NitKind::SvcPurge(_) => "svc.purge"@,
        NitKind::ItemDestroy(_) => "item.undeploy"@,
        NitKind::ItemDisable(_) => "item.disable"@,
        NitKind::ItemEnable(_) => "item.enable"@,
        NitKind::ItemAnnounce(_) => "item.announce"@,
        NitKind::LvarSet(_, _) => "lvar.set"@,
        NitKind::LvarReset(_) => "lvar.reset"@,
        NitKind::LvarClear(_) => "lvar.clear"@,
        NitKind::LvarToggle(_) => "lvar.toggle"@,
        NitKind::LvarIncr(_) => "lvar.incr"@,
        NitKind::LvarDecr(_) => "lvar.decr"@,
        _ => ""@,
    }
}

impl<V> NitKind<V> {
    /// The canonical short display name of this operation.
    pub fn tag(&self) -> (r: &'static str)
        ensures
            r@ == tag_name(*self),
    {
        match self {
            NitKind::Save => "save",
            NitKind::Restart => "restart",
            NitKind::SvcRestart(_) => "svc.restart",
            NitKind::SvcDestroy(_) => "svc.undeploy",
            NitKind::SvcPurge(_) => "svc.purge",
            NitKind::ItemDestroy(_) => "item.undeploy",
            NitKind::ItemDisable(_) => "item.disable",
            NitKind::ItemEnable(_) => "item.enable",
            NitKind::ItemAnnounce(_) => "item.announce",
            NitKind::LvarSet(_, _) => "lvar.set",
            NitKind::LvarReset(_) => "lvar.reset",
            NitKind::LvarClear(_) => "lvar.clear",
            NitKind::LvarToggle(_) => "lvar.toggle",
            NitKind::LvarIncr(_) => "lvar.incr",
            NitKind::LvarDecr(_) => "lvar.decr",
            _ => "",
        }
    }
}

impl<V> NitData<V> {
    /// The node the command is addressed to.
    pub fn node(&self) -> (r: &str)
        ensures
            r@ == self.node@,
    {
        self.node.as_str()
    }

    /// The operation the command carries.
    pub fn kind(&self) -> (r: &NitKind<V>)
        ensures
            r == &self.kind,
    {
        &self.kind
    }

    /// Replaces the operation, keeping the node.
    pub fn set_kind(&mut self, kind: NitKind<V>)
        ensures
            final(self).kind == kind,
            final(self).node == old(self).node,
    {
        self.kind = kind;
    }

    /// The status-line rendering of the command: node, arrow, canonical
    /// operation name.
    pub fn display_string(&self) -> (r: String)
        ensures
            r@ == self.node@ + "->"@ + tag_name(self.kind),
    {
        let mut s = String::new();
        s.append(self.node.as_str());
        s.append("->");
        s.append(self.kind.tag());
        proof {
            assert(s@ =~= self.node@ + "->"@ + tag_name(self.kind));
        }
        s
    }

    pub fn new_state(node: &str) -> (r: NitData<V>)
        ensures
            r.node@ == node@,
            r.kind == NitKind::<V>::State,
    {
        NitData { node: node.to_owned(), kind: NitKind::State }
    }

    pub fn new_log(node: &str, filter: LogFilter) -> (r: NitData<V>)
        ensures
            r.node@ == node@,
            r.kind == NitKind::<V>::Log(Some(filter)),
    {
        NitData { node: node.to_owned(), kind: NitKind::Log(Some(filter)) }
    }

    pub fn new_users(node: &str, filter: UsersFilter) -> (r: NitData<V>)
        ensures
            r.node@ == node@,
            r.kind == NitKind::<V>::Users(Some(filter)),
    {
        NitData { node: node.to_owned(), kind: NitKind::Users(Some(filter)) }
    }

    pub fn new_actions(node: &str, filter: ActionFilter) -> (r: NitData<V>)
        ensures
            r.node@ == node@,
            r.kind == NitKind::<V>::Actions(Some(filter)),
    {
        NitData { node: node.to_owned(), kind: NitKind::Actions(Some(filter)) }
    }

    pub fn new_save(node: &str) -> (r: NitData<V>)
        ensures
            r.node@ == node@,
            r.kind == NitKind::<V>::Save,
    {
        NitData { node: node.to_owned(), kind: NitKind::Save }
    }

    pub fn new_restart(node: &str) -> (r: NitData<V>)
        ensures
            r.node@ == node@,
            r.kind == NitKind::<V>::Restart,
    {
        NitData { node: node.to_owned(), kind: NitKind::Restart }
    }

    pub fn new_services(node: &str) -> (r: NitData<V>)
        ensures
            r.node@ == node@,
            r.kind == NitKind::<V>::Services,
    {
        NitData { node: node.to_owned(), kind: NitKind::Services }
    }

    pub fn new_spoints(node: &str) -> (r: NitData<V>)
        ensures
            r.node@ == node@,
            r.kind == NitKind::<V>::SPoints,
    {
        NitData { node: node.to_owned(), kind: NitKind::SPoints }
    }

    pub fn new_broker(node: &str) -> (r: NitData<V>)
        ensures
            r.node@ == node@,
            r.kind == NitKind::<V>::Broker,
    {
        NitData { node: node.to_owned(), kind: NitKind::Broker }
    }

    pub fn new_svc_restart(node: &str, svcs: Vec<String>) -> (r: NitData<V>)
        ensures
            r.node@ == node@,
            r.kind == NitKind::<V>::SvcRestart(svcs),
    {
        NitData { node: node.to_owned(), kind: NitKind::SvcRestart(svcs) }
    }

    pub fn new_svc_destroy(node: &str, svcs: Vec<String>) -> (r: NitData<V>)
        ensures
            r.node@ == node@,
            r.kind == NitKind::<V>::SvcDestroy(svcs),
    {
        NitData { node: node.to_owned(), kind: NitKind::SvcDestroy(svcs) }
    }

    pub fn new_svc_purge(node: &str, svcs: Vec<String>) -> (r: NitData<V>)
        ensures
            r.node@ == node@,
            r.kind == NitKind::<V>::SvcPurge(svcs),
    {
        NitData { node: node.to_owned(), kind: NitKind::SvcPurge(svcs) }
    }

    pub fn new_svc_get_params(node: &str, svc: String) -> (r: NitData<V>)
        ensures
            r.node@ == node@,
            r.kind == NitKind::<V>::SvcGetParams(svc),
    {
        NitData { node: node.to_owned(), kind: NitKind::SvcGetParams(svc) }
    }

    pub fn new_svc_get_params_x(node: &str, svc: String) -> (r: NitData<V>)
        ensures
            r.node@ == node@,
            r.kind == NitKind::<V>::SvcGetParamsX(svc),
    {
        NitData { node: node.to_owned(), kind: NitKind::SvcGetParamsX(svc) }
    }

    pub fn new_svc_get_info(node: &str, svc: String) -> (r: NitData<V>)
        ensures
            r.node@ == node@,
            r.kind == NitKind::<V>::SvcGetInfo(svc),
    {
        NitData { node: node.to_owned(), kind: NitKind::SvcGetInfo(svc) }
    }

    pub fn new_svc_call(
        u: CorrelationId,
        node: &str,
        svc: String,
        method: String,
        payload: Option<V>,
    ) -> (r: NitData<V>)
        ensures
            r.node@ == node@,
            r.kind == NitKind::<V>::SvcCall(u, svc, method, payload),
    {
        NitData { node: node.to_owned(), kind: NitKind::SvcCall(u, svc, method, payload) }
    }

    pub fn new_item_get_state(node: &str, oid: String) -> (r: NitData<V>)
        ensures
            r.node@ == node@,
            r.kind == NitKind::<V>::ItemGetState(oid),
    {
        NitData { node: node.to_owned(), kind: NitKind::ItemGetState(oid) }
    }

    pub fn new_item_get_config(node: &str, oid: String) -> (r: NitData<V>)
        ensures
            r.node@ == node@,
            r.kind == NitKind::<V>::ItemGetConfig(oid),
    {
        NitData { node: node.to_owned(), kind: NitKind::ItemGetConfig(oid) }
    }

    pub fn new_item_get_config_x(node: &str, oid: String) -> (r: NitData<V>)
        ensures
            r.node@ == node@,
            r.kind == NitKind::<V>::ItemGetConfigX(oid),
    {
        NitData { node: node.to_owned(), kind: NitKind::ItemGetConfigX(oid) }
    }

    pub fn new_svc_deploy(node: &str, params: ServiceParams<V>) -> (r: NitData<V>)
        ensures
            r.node@ == node@,
            r.kind == NitKind::<V>::SvcDeploySingle(params),
    {
        NitData { node: node.to_owned(), kind: NitKind::SvcDeploySingle(params) }
    }

    pub fn new_svc_deploy_multi(node: &str, svcs: Vec<V>) -> (r: NitData<V>)
        ensures
            r.node@ == node@,
            r.kind == NitKind::<V>::SvcDeployMultiple(svcs),
    {
        NitData { node: node.to_owned(), kind: NitKind::SvcDeployMultiple(svcs) }
    }

    pub fn new_item_list(node: &str, oid: Option<String>, item_node: Option<String>) -> (r: NitData<
        V,
    >)
        ensures
            r.node@ == node@,
            r.kind == NitKind::<V>::Items(oid, item_node),
    {
        NitData { node: node.to_owned(), kind: NitKind::Items(oid, item_node) }
    }

    pub fn new_item_deploy(node: &str, config: V) -> (r: NitData<V>)
        ensures
            r.node@ == node@,
            r.kind == NitKind::<V>::ItemDeploySingle(config),
    {
        NitData { node: node.to_owned(), kind: NitKind::ItemDeploySingle(config) }
    }

    pub fn new_item_deploy_multi(node: &str, items: Vec<V>) -> (r: NitData<V>)
        ensures
            r.node@ == node@,
            r.kind == NitKind::<V>::ItemDeployMultiple(items),
    {
        NitData { node: node.to_owned(), kind: NitKind::ItemDeployMultiple(items) }
    }

    pub fn new_item_announce(node: &str, oids: Vec<String>) -> (r: NitData<V>)
        ensures
            r.node@ == node@,
            r.kind == NitKind::<V>::ItemAnnounce(oids),
    {
        NitData { node: node.to_owned(), kind: NitKind::ItemAnnounce(oids) }
    }

    pub fn new_item_destroy(node: &str, oids: Vec<String>) -> (r: NitData<V>)
        ensures
            r.node@ == node@,
            r.kind == NitKind::<V>::ItemDestroy(oids),
    {
        NitData { node: node.to_owned(), kind: NitKind::ItemDestroy(oids) }
    }

    pub fn new_item_disable(node: &str, oids: Vec<String>) -> (r: NitData<V>)
        ensures
            r.node@ == node@,
            r.kind == NitKind::<V>::ItemDisable(oids),
    {
        NitData { node: node.to_owned(), kind: NitKind::ItemDisable(oids) }
    }

    pub fn new_item_enable(node: &str, oids: Vec<String>) -> (r: NitData<V>)
        ensures
            r.node@ == node@,
            r.kind == NitKind::<V>::ItemEnable(oids),
    {
        NitData { node: node.to_owned(), kind: NitKind::ItemEnable(oids) }
    }

    pub fn new_unit_action_toggle(node: &str, oid: String) -> (r: NitData<V>)
        ensures
            r.node@ == node@,
            r.kind == NitKind::<V>::UnitActionToggle(oid),
    {
        NitData { node: node.to_owned(), kind: NitKind::UnitActionToggle(oid) }
    }

    pub fn new_unit_action(node: &str, p_action: PayloadAction<V>) -> (r: NitData<V>)
        ensures
            r.node@ == node@,
            r.kind == NitKind::<V>::UnitAction(p_action),
    {
        NitData { node: node.to_owned(), kind: NitKind::UnitAction(p_action) }
    }

    pub fn new_lmacro_run(node: &str, p_action: PayloadAction<V>) -> (r: NitData<V>)
        ensures
            r.node@ == node@,
            r.kind == NitKind::<V>::LmacroRun(p_action),
    {
        NitData { node: node.to_owned(), kind: NitKind::LmacroRun(p_action) }
    }

    pub fn new_lvar_set(node: &str, oids: Vec<String>, p_set: PayloadLvarSet<V>) -> (r: NitData<V>)
        ensures
            r.node@ == node@,
            r.kind == NitKind::<V>::LvarSet(oids, p_set),
    {
        NitData { node: node.to_owned(), kind: NitKind::LvarSet(oids, p_set) }
    }

    pub fn new_lvar_reset(node: &str, oids: Vec<String>) -> (r: NitData<V>)
        ensures
            r.node@ == node@,
            r.kind == NitKind::<V>::LvarReset(oids),
    {
        NitData { node: node.to_owned(), kind: NitKind::LvarReset(oids) }
    }

    pub fn new_lvar_clear(node: &str, oids: Vec<String>) -> (r: NitData<V>)
        ensures
            r.node@ == node@,
            r.kind == NitKind::<V>::LvarClear(oids),
    {
        NitData { node: node.to_owned(), kind: NitKind::LvarClear(oids) }
    }

    pub fn new_lvar_toggle(node: &str, oids: Vec<String>) -> (r: NitData<V>)
        ensures
            r.node@ == node@,
            r.kind == NitKind::<V>::LvarToggle(oids),
    {
        NitData { node: node.to_owned(), kind: NitKind::LvarToggle(oids) }
    }

    pub fn new_lvar_incr(node: &str, oids: Vec<String>) -> (r: NitData<V>)
        ensures
            r.node@ == node@,
            r.kind == NitKind::<V>::LvarIncr(oids),
    {
        NitData { node: node.to_owned(), kind: NitKind::LvarIncr(oids) }
    }

    pub fn new_lvar_decr(node: &str, oids: Vec<String>) -> (r: NitData<V>)
        ensures
            r.node@ == node@,
            r.kind == NitKind::<V>::LvarDecr(oids),
    {
        NitData { node: node.to_owned(), kind: NitKind::LvarDecr(oids) }
    }

    pub fn start_item_watcher(u: CorrelationId, node: &str, oid: String, interval_ms: u64) -> (r:
        NitData<V>)
        ensures
            r.node@ == node@,
            r.kind == NitKind::<V>::StartItemWatcher(u, oid, interval_ms),
    {
        NitData { node: node.to_owned(), kind: NitKind::StartItemWatcher(u, oid, interval_ms) }
    }

    pub fn start_action_watcher(
        u: CorrelationId,
        node: &str,
        action_uuid: CorrelationId,
        interval_ms: u64,
    ) -> (r: NitData<V>)
        ensures
            r.node@ == node@,
            r.kind == NitKind::<V>::StartActionWatcher(u, action_uuid, interval_ms),
    {
        NitData {
            node: node.to_owned(),
            kind: NitKind::StartActionWatcher(u, action_uuid, interval_ms),
        }
    }

    pub fn stop_watcher(u: CorrelationId) -> (r: NitData<V>)
        ensures
            r.node@.len() == 0,
            r.kind == NitKind::<V>::StopWatcher(u),
    {
        NitData { node: String::new(), kind: NitKind::StopWatcher(u) }
    }
}

/// Whether two strings hold the same characters.
pub fn str_eq(a: &str, b: &str) -> (r: bool)
    ensures
        r == (a@ == b@),
{
    let alen = a.unicode_len();
    let blen = b.unicode_len();
    if alen != blen {
        return false;
    }
    let mut i: usize = 0;
    while i < alen
        invariant
            i <= alen,
            alen == a@.len(),
            alen == b@.len(),
            forall|j: int| 0 <= j < i ==> a@[j] == b@[j],
        decreases alen - i,
    {
        if a.get_char(i) as u32 != b.get_char(i) as u32 {
            return false;
        }
        proof {
            assert(a@[i as int] as u32 == b@[i as int] as u32);
            assert(a@[i as int] == b@[i as int]);
        }
        i = i + 1;
    }
    proof {
        assert(a@ =~= b@);
    }
    true
}

/// The operation a node-tree leaf name denotes.
pub open spec fn leaf_kind<V>(leaf: Seq<char>) -> Option<NitKind<V>> {
    if leaf == "broker"@ {
        Some(NitKind::Broker)
    } else if leaf == "services"@ {
        Some(NitKind::Services)
    } else if leaf == "spoints"@ {
        Some(NitKind::SPoints)
    } else if leaf == "items"@ {
        Some(NitKind::Items(None, None))
    } else if leaf == "log"@ {
        Some(NitKind::Log(None))
    } else if leaf == "actions"@ {
        Some(NitKind::Actions(None))
    } else if leaf == "users"@ {
        Some(NitKind::Users(None))
    } else {
        None
    }
}

/// The command a selected node-tree path denotes: the bare node selects the
/// state view; a recognised leaf under it selects that view; anything else
/// selects nothing.
pub open spec fn path_command<V>(views: Seq<Seq<char>>) -> Option<(Seq<char>, NitKind<V>)> {
    if views.len() == 0 {
        None
    } else if views.len() == 1 {
        Some((views[0], NitKind::State))
    } else {
        match leaf_kind::<V>(views[1]) {
            Some(k) => Some((views[0], k)),
            None => None,
        }
    }
}

/// Parses a selected node-tree path into a command.
pub fn nd_from_path<V>(path: &Vec<String>) -> (r: Option<NitData<V>>)
    ensures
        match r {
            Some(nd) => path_command::<V>(path@.map_values(|s: String| s@)) == Some(
                (nd.node@, nd.kind),
            ),
            None => path_command::<V>(path@.map_values(|s: String| s@)) is None,
        },
{
    let ghost views: Seq<Seq<char>> = path@.map_values(|s: String| s@);
    if path.len() == 0 {
        return None;
    }
    let node_name = &path[0];
    proof {
        assert(views[0] == path@[0]@);
    }
    if path.len() == 1 {
        return Some(NitData { node: node_name.clone(), kind: NitKind::State });
    }
    let leaf = &path[1];
    proof {
        assert(views[1] == path@[1]@);
    }
    let kind: Option<NitKind<V>> = if str_eq(leaf.as_str(), "broker") {
        Some(NitKind::Broker)
    } else if str_eq(leaf.as_str(), "services") {
        Some(NitKind::Services)
    } else if str_eq(leaf.as_str(), "spoints") {
        Some(NitKind::SPoints)
    } else if str_eq(leaf.as_str(), "items") {
        Some(NitKind::Items(None, None))
    } else if str_eq(leaf.as_str(), "log") {
        Some(NitKind::Log(None))
    } else if str_eq(leaf.as_str(), "actions") {
        Some(NitKind::Actions(None))
    } else if str_eq(leaf.as_str(), "users") {
        Some(NitKind::Users(None))
    } else {
        None
    };
    match kind {
        Some(k) => Some(NitData { node: node_name.clone(), kind: k }),
        None => None,
    }
}

} // verus!
