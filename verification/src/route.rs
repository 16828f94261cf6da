//! The command router: how each catalog operation maps to its remote call —
//! or short sequence of calls — and how the results fold into one reply.
//!
//! Routing is a step machine. [`route_command`] inspects one command and
//! either finishes at once (local validation failures, immediate
//! acknowledgements, watcher bookkeeping) or asks the surrounding task to
//! perform one remote call; [`resume_command`] folds each call's result into
//! the next step. The surrounding task owns the network: it performs each
//! requested call against the shared connection and feeds the result back,
//! so every decision in between is verified.
//!
//! Bulk operations run strictly in list order and halt at the first failure,
//! reporting which identifier failed; already-applied items are not rolled
//! back. Compound queries make two calls in order and reply with the ordered
//! pair, discarding everything if either half fails.

use crate::catalog::{NitData, NitKind, PayloadAction, PayloadLvarSet, LogFilter, ActionFilter};
use crate::errors::{DispatchError, RemoteError};
use crate::registry::CorrelationId;
use vstd::prelude::*;
use vstd::string::{StrSliceExecFns, StringExecFns};

verus! {

/// One remote call: node, target service, method, payload shape.
#[derive(Debug, PartialEq)]
pub struct RemoteCall<V> {
    pub node: String,
    pub target: String,
    pub method: String,
    pub payload: Payload<V>,
}

/// The payload shape of a remote call, as the wire protocol fixes it per
/// method.
#[derive(Debug, PartialEq)]
pub enum Payload<V> {
    /// No parameters.
    Void,
    /// A single identifier: `{i: <id>}`.
    Id(String),
    /// An action id: `{u: <uuid>}`.
    Uuid(CorrelationId),
    /// An identifier list: `{items: [...]}`.
    Items(Vec<String>),
    /// A service list: `{svcs: [...]}`.
    Svcs(Vec<String>),
    /// An item-list query: identifier mask plus optional source node.
    ItemList { i: String, src: Option<String> },
    /// A log query filter.
    Log(LogFilter),
    /// An action-list query filter.
    Actions(ActionFilter),
    /// One logic-variable set, the target id filled in.
    LvarSet(PayloadLvarSet<V>),
    /// A unit action or macro run.
    Action(PayloadAction<V>),
    /// One service deploy: `{svcs: [{id, params}]}`.
    SvcDeploy { id: String, params: V },
    /// A deploy of raw service descriptions: `{svcs: [...]}`.
    SvcDeployVals(Vec<V>),
    /// One item deploy: `{items: [<config>]}`.
    ItemDeployOne(V),
    /// A deploy of raw item configurations: `{items: [...]}`.
    ItemDeployVals(Vec<V>),
}

/// A reply value: what one command folds the remote results into.
#[derive(Debug, PartialEq)]
pub enum Outcome<V> {
    /// Plain acknowledgement.
    Unit,
    /// The single call's result.
    One(V),
    /// A compound query's two results, in reply order.
    Pair(V, V),
    /// The fixed empty list a filterless query answers without any call.
    Empty,
}

/// Work the surrounding task performs besides replying: spawning and
/// stopping the independent tasks that bypass the queue.
#[derive(Debug, PartialEq)]
pub enum Effect<V> {
    /// Spawn an item watcher polling `oid` on `node` every `interval_ms`.
    SpawnItemWatcher { u: CorrelationId, node: String, oid: String, interval_ms: u64 },
    /// Spawn an action watcher polling the result of `action_uuid`.
    SpawnActionWatcher {
        u: CorrelationId,
        node: String,
        action_uuid: CorrelationId,
        interval_ms: u64,
    },
    /// Cancel the watcher registered under `u`.
    StopWatcher { u: CorrelationId },
    /// Spawn an independent task performing the call and reporting its result
    /// as a notification tagged `u`, off the serialized queue.
    SpawnSvcCall {
        u: CorrelationId,
        node: String,
        target: String,
        method: String,
        payload: Option<V>,
    },
}

/// Arguments a bulk logic-variable set carries across its calls.
#[derive(Debug, PartialEq)]
pub struct LvarArgs<V> {
    pub status: Option<i16>,
    pub value: Option<V>,
}

/// How each call of a bulk operation carries its one identifier: the wire
/// protocol fixes the payload shape per method.
#[derive(Debug, PartialEq)]
pub enum BulkStyle<V> {
    /// `{i: <id>}`.
    Id,
    /// A one-element `{items: [<id>]}` list.
    ItemsOne,
    /// A one-element `{svcs: [<id>]}` list.
    SvcsOne,
    /// A filled logic-variable set carrying these arguments.
    LvarSet(LvarArgs<V>),
}

/// The router's state while one command's calls are in flight.
#[derive(Debug, PartialEq)]
pub enum RouterRun<V> {
    /// One call out; its result is the reply.
    AwaitSimple,
    /// A compound's first call is out; `second` follows it. `first_leads`
    /// says whether the first result leads the reply pair.
    AwaitFirst { second: RemoteCall<V>, first_leads: bool },
    /// A compound's second call is out; `first` is the kept first result.
    AwaitSecond { first: V, first_leads: bool },
    /// A bulk operation: the call for `ids[idx]` is out.
    AwaitBulk {
        node: String,
        method: String,
        ids: Vec<String>,
        idx: usize,
        style: BulkStyle<V>,
    },
}

/// One step of the router: either a remote call to perform with the state to
/// resume with, or the finished reply with its side effect.
#[derive(Debug, PartialEq)]
pub enum RouterStep<V> {
    Continue { run: RouterRun<V>, call: RemoteCall<V> },
    Finish { reply: Result<Outcome<V>, DispatchError>, effect: Option<Effect<V>> },
}

/// A run state that can actually resume.
pub open spec fn run_wf<V>(run: RouterRun<V>) -> bool {
    match run {
        RouterRun::AwaitBulk { ids, idx, .. } => idx < ids.len(),
        _ => true,
    }
}

/// Whether `b` holds a possible clone of `a`.
pub open spec fn option_cloned<V: Clone>(a: Option<V>, b: Option<V>) -> bool {
    match (a, b) {
        (Option::None, Option::None) => true,
        (Option::Some(x), Option::Some(y)) => cloned::<V>(x, y),
        _ => false,
    }
}

/// The shape of one remote call: node by value, target and method by text,
/// payload by value.
pub open spec fn call_shape<V>(
    c: RemoteCall<V>,
    node: String,
    target: Seq<char>,
    method: Seq<char>,
    payload: Payload<V>,
) -> bool {
    &&& c.node == node
    &&& c.target@ == target
    &&& c.method@ == method
    &&& c.payload == payload
}

/// The first call and kept state of a compound query: `first` out now,
/// `second` after it, `first_leads` fixing the reply order.
pub open spec fn compound_shape<V>(
    r: RouterStep<V>,
    node: String,
    first_method: Seq<char>,
    second_method: Seq<char>,
    second_payload: Payload<V>,
    first_leads: bool,
) -> bool {
    &&& r matches RouterStep::Continue { run, call }
    &&& call_shape(call, node, "eva.core"@, first_method, Payload::Void)
    &&& run matches RouterRun::AwaitFirst { second, first_leads: fl }
    &&& fl == first_leads
    &&& call_shape(second, node, "eva.core"@, second_method, second_payload)
}

/// The first call and kept state of a bulk operation over `ids`.
pub open spec fn bulk_start_shape<V: Clone>(
    r: RouterStep<V>,
    node: String,
    method: Seq<char>,
    ids: Seq<String>,
    style: BulkStyle<V>,
) -> bool {
    if ids.len() == 0 {
        r == RouterStep::<V>::Finish { reply: Ok(Outcome::Unit), effect: None }
    } else {
        &&& r matches RouterStep::Continue { run, call }
        &&& run matches RouterRun::AwaitBulk { node: n2, method: m2, ids: ids2, idx, style: s2 }
        &&& n2 == node
        &&& m2@ == method
        &&& ids2@ == ids
        &&& idx == 0
        &&& s2 == style
        &&& bulk_call_shape(call, node, method, ids[0], style)
    }
}

/// The shape of one bulk call: its one identifier carried in the payload
/// shape its method fixes; a logic-variable set's opaque value is a clone of
/// the command's.
pub open spec fn bulk_call_shape<V: Clone>(
    c: RemoteCall<V>,
    node: String,
    method: Seq<char>,
    id: String,
    style: BulkStyle<V>,
) -> bool {
    &&& c.node@ == node@
    &&& c.target@ == "eva.core"@
    &&& c.method@ == method
    &&& match style {
        BulkStyle::Id => c.payload == Payload::<V>::Id(id),
        BulkStyle::ItemsOne => c.payload matches Payload::Items(v) && v@ == seq![id],
        BulkStyle::SvcsOne => c.payload matches Payload::Svcs(v) && v@ == seq![id],
        BulkStyle::LvarSet(args) => {
            &&& c.payload matches Payload::LvarSet(p)
            &&& p.i == Some(id)
            &&& p.status == args.status
            &&& option_cloned(args.value, p.value)
        },
    }
}

/// A finished step carrying a local validation failure, with no call made
/// and no side effect.
pub open spec fn local_invalid<V>(r: RouterStep<V>, msg: Seq<char>) -> bool {
    &&& r matches RouterStep::Finish { reply, effect }
    &&& effect is None
    &&& reply matches Err(DispatchError::Invalid(m))
    &&& m@ == msg
}

/// What routing one command must produce: the exhaustive catalog mapping.
pub open spec fn routes<V: Clone>(cmd: NitData<V>, r: RouterStep<V>) -> bool {
    match cmd.kind {
        NitKind::State => compound_shape(
            r,
            cmd.node,
            "test"@,
            "node.list"@,
            Payload::Void,
            true,
        ),
        NitKind::Services => simple_shape(r, cmd.node, "eva.core"@, "svc.list"@, Payload::Void),
        NitKind::SPoints => simple_shape(r, cmd.node, "eva.core"@, "spoint.list"@, Payload::Void),
        NitKind::Save => simple_shape(r, cmd.node, "eva.core"@, "save"@, Payload::Void),
        NitKind::Restart => simple_shape(
            r,
            cmd.node,
            "eva.core"@,
            "core.shutdown"@,
            Payload::Void,
        ),
        NitKind::Broker => simple_shape(r, cmd.node, ".broker"@, "client.list"@, Payload::Void),
        NitKind::Items(oid, src) => match oid {
            Some(i) => simple_shape(
                r,
                cmd.node,
                "eva.core"@,
                "item.list"@,
                Payload::ItemList { i, src: normalized_src(src) },
            ),
            None => r == RouterStep::<V>::Finish { reply: Ok(Outcome::Empty), effect: None },
        },
        NitKind::Log(filter) => match filter {
            Some(f) => simple_shape(r, cmd.node, "eva.core"@, "log.get"@, Payload::Log(f)),
            None => r == RouterStep::<V>::Finish { reply: Ok(Outcome::Empty), effect: None },
        },
        NitKind::Actions(filter) => match filter {
            Some(f) => simple_shape(r, cmd.node, "eva.core"@, "action.list"@, Payload::Actions(f)),
            None => r == RouterStep::<V>::Finish { reply: Ok(Outcome::Empty), effect: None },
        },
        NitKind::Users(filter) => match filter {
            Some(f) => match f.svc {
                Some(svc) => simple_shape(r, cmd.node, svc@, "user.list"@, Payload::Void),
                None => r == RouterStep::<V>::Finish { reply: Ok(Outcome::Empty), effect: None },
            },
            None => r == RouterStep::<V>::Finish { reply: Ok(Outcome::Empty), effect: None },
        },
        NitKind::ItemGetState(oid) => simple_shape(
            r,
            cmd.node,
            "eva.core"@,
            "item.state"@,
            Payload::Id(oid),
        ),
        NitKind::ItemGetConfig(oid) => simple_shape(
            r,
            cmd.node,
            "eva.core"@,
            "item.get_config"@,
            Payload::Id(oid),
        ),
        NitKind::ItemGetConfigX(oid) => compound_shape(
            r,
            cmd.node,
            "svc.list"@,
            "item.get_config"@,
            Payload::Id(oid),
            false,
        ),
        NitKind::ItemDeploySingle(config) => simple_shape(
            r,
            cmd.node,
            "eva.core"@,
            "item.deploy"@,
            Payload::ItemDeployOne(config),
        ),
        NitKind::ItemDeployMultiple(items) => simple_shape(
            r,
            cmd.node,
            "eva.core"@,
            "item.deploy"@,
            Payload::ItemDeployVals(items),
        ),
        NitKind::ItemDestroy(oids) => bulk_start_shape(
            r,
            cmd.node,
            "item.undeploy"@,
            oids@,
            BulkStyle::ItemsOne,
        ),
        NitKind::ItemAnnounce(oids) => bulk_start_shape(
            r,
            cmd.node,
            "item.announce"@,
            oids@,
            BulkStyle::Id,
        ),
        NitKind::ItemDisable(oids) => bulk_start_shape(
            r,
            cmd.node,
            "item.disable"@,
            oids@,
            BulkStyle::Id,
        ),
        NitKind::ItemEnable(oids) => bulk_start_shape(
            r,
            cmd.node,
            "item.enable"@,
            oids@,
            BulkStyle::Id,
        ),
        NitKind::LvarSet(oids, p) => bulk_start_shape(
            r,
            cmd.node,
            "lvar.set"@,
            oids@,
            BulkStyle::LvarSet(LvarArgs { status: p.status, value: p.value }),
        ),
        NitKind::LvarReset(oids) => bulk_start_shape(
            r,
            cmd.node,
            "lvar.reset"@,
            oids@,
            BulkStyle::Id,
        ),
        NitKind::LvarClear(oids) => bulk_start_shape(
            r,
            cmd.node,
            "lvar.clear"@,
            oids@,
            BulkStyle::Id,
        ),
        NitKind::LvarToggle(oids) => bulk_start_shape(
            r,
            cmd.node,
            "lvar.toggle"@,
            oids@,
            BulkStyle::Id,
        ),
        NitKind::LvarIncr(oids) => bulk_start_shape(
            r,
            cmd.node,
            "lvar.incr"@,
            oids@,
            BulkStyle::Id,
        ),
        NitKind::LvarDecr(oids) => bulk_start_shape(
            r,
            cmd.node,
            "lvar.decr"@,
            oids@,
            BulkStyle::Id,
        ),
        NitKind::UnitActionToggle(oid) => simple_shape(
            r,
            cmd.node,
            "eva.core"@,
            "action.toggle"@,
            Payload::Id(oid),
        ),
        NitKind::UnitAction(p) => simple_shape(
            r,
            cmd.node,
            "eva.core"@,
            "action"@,
            Payload::Action(p),
        ),
        NitKind::LmacroRun(p) => simple_shape(r, cmd.node, "eva.core"@, "run"@, Payload::Action(p)),
        NitKind::SvcRestart(svcs) => bulk_start_shape(
            r,
            cmd.node,
            "svc.restart"@,
            svcs@,
            BulkStyle::Id,
        ),
        NitKind::SvcDestroy(svcs) => bulk_start_shape(
            r,
            cmd.node,
            "svc.undeploy"@,
            svcs@,
            BulkStyle::SvcsOne,
        ),
        NitKind::SvcPurge(svcs) => simple_shape(
            r,
            cmd.node,
            "eva.core"@,
            "svc.purge"@,
            Payload::Svcs(svcs),
        ),
        NitKind::SvcGetParams(svc) => simple_shape(
            r,
            cmd.node,
            "eva.core"@,
            "svc.get_params"@,
            Payload::Id(svc),
        ),
        NitKind::SvcGetParamsX(svc) => compound_shape(
            r,
            cmd.node,
            "spoint.list"@,
            "svc.get_params"@,
            Payload::Id(svc),
            false,
        ),
        NitKind::SvcDeploySingle(sp) => match sp.id {
            None => local_invalid(r, "ID is not set"@),
            Some(id) => if id@.len() > 0 && id@.last() == '.' {
                local_invalid(r, "invalid ID"@)
            } else {
                simple_shape(
                    r,
                    cmd.node,
                    "eva.core"@,
                    "svc.deploy"@,
                    Payload::SvcDeploy { id, params: sp.params },
                )
            },
        },
        NitKind::SvcDeployMultiple(svcs) => simple_shape(
            r,
            cmd.node,
            "eva.core"@,
            "svc.deploy"@,
            Payload::SvcDeployVals(svcs),
        ),
        NitKind::SvcGetInfo(svc) => simple_shape(r, cmd.node, svc@, "info"@, Payload::Void),
        NitKind::SvcCall(u, svc, method, payload) => r == RouterStep::<V>::Finish {
            reply: Ok(Outcome::Unit),
            effect: Some(
                Effect::SpawnSvcCall { u, node: cmd.node, target: svc, method, payload },
            ),
        },
        NitKind::StartItemWatcher(u, oid, interval_ms) => r == RouterStep::<V>::Finish {
            reply: Ok(Outcome::Unit),
            effect: Some(Effect::SpawnItemWatcher { u, node: cmd.node, oid, interval_ms }),
        },
        NitKind::StartActionWatcher(u, action_uuid, interval_ms) => r == RouterStep::<V>::Finish {
            reply: Ok(Outcome::Unit),
            effect: Some(
                Effect::SpawnActionWatcher { u, node: cmd.node, action_uuid, interval_ms },
            ),
        },
        NitKind::StopWatcher(u) => r == RouterStep::<V>::Finish {
            reply: Ok(Outcome::Unit),
            effect: Some(Effect::StopWatcher { u }),
        },
    }
}

/// One call out, whose result is the reply.
pub open spec fn simple_shape<V>(
    r: RouterStep<V>,
    node: String,
    target: Seq<char>,
    method: Seq<char>,
    payload: Payload<V>,
) -> bool {
    &&& r matches RouterStep::Continue { run, call }
    &&& run is AwaitSimple
    &&& call_shape(call, node, target, method, payload)
}

/// How an item-list query's source node is normalised: empty and wildcard
/// sources mean "everywhere".
pub open spec fn normalized_src(src: Option<String>) -> Option<String> {
    match src {
        Option::None => Option::None,
        Option::Some(n) => if n@.len() == 0 || n@ == "*"@ || n@ == "#"@ {
            Option::None
        } else {
            Option::Some(n)
        },
    }
}

/// Every step a run can make keeps its state well-formed.
pub open spec fn step_wf<V>(r: RouterStep<V>) -> bool {
    match r {
        RouterStep::Continue { run, .. } => run_wf(run),
        RouterStep::Finish { .. } => true,
    }
}

pub(crate) fn str_owned(s: &str) -> (r: String)
    ensures
        r@ == s@,
{
    s.to_owned()
}

fn ends_with_dot(s: &str) -> (r: bool)
    ensures
        r == (s@.len() > 0 && s@.last() == '.'),
{
    let n = s.unicode_len();
    if n == 0 {
        false
    } else {
        let c = s.get_char(n - 1);
        if (c as u32) == ('.' as u32) {
            proof {
                assert(c == '.');
            }
            true
        } else {
            false
        }
    }
}

fn is_wildcard_src(s: &str) -> (r: bool)
    ensures
        r == (s@.len() == 0 || s@ == "*"@ || s@ == "#"@),
{
    if s.unicode_len() == 0 {
        return true;
    }
    if crate::catalog::str_eq(s, "*") {
        return true;
    }
    if crate::catalog::str_eq(s, "#") {
        return true;
    }
    false
}

/// Routes one command: resolves it through the catalog to its first remote
/// call, or finishes at once where no call is owed — watcher bookkeeping and
/// spawned service calls acknowledge immediately, filterless queries answer
/// an empty list, and an invalid deploy id fails locally before any
/// transmission.
pub fn route_command<V: Clone>(cmd: NitData<V>) -> (r: RouterStep<V>)
    ensures
        routes(cmd, r),
        step_wf(r),
{
    let NitData { node, kind } = cmd;
    match kind {
        NitKind::State => RouterStep::Continue {
            run: RouterRun::AwaitFirst {
                second: RemoteCall {
                    node: node.clone(),
                    target: str_owned("eva.core"),
                    method: str_owned("node.list"),
                    payload: Payload::Void,
                },
                first_leads: true,
            },
            call: RemoteCall {
                node,
                target: str_owned("eva.core"),
                method: str_owned("test"),
                payload: Payload::Void,
            },
        },
        NitKind::Services => simple(node, str_owned("eva.core"), "svc.list", Payload::Void),
        NitKind::SPoints => simple(node, str_owned("eva.core"), "spoint.list", Payload::Void),
        NitKind::Save => simple(node, str_owned("eva.core"), "save", Payload::Void),
        NitKind::Restart => simple(node, str_owned("eva.core"), "core.shutdown", Payload::Void),
        NitKind::Broker => simple(node, str_owned(".broker"), "client.list", Payload::Void),
        NitKind::Items(oid, src) => match oid {
            Some(i) => {
                let src_n: Option<String> = match src {
                    Some(n) => {
                        if is_wildcard_src(n.as_str()) {
                            None
                        } else {
                            Some(n)
                        }
                    },
                    None => None,
                };
                simple(
                    node,
                    str_owned("eva.core"),
                    "item.list",
                    Payload::ItemList { i, src: src_n },
                )
            },
            None => RouterStep::Finish { reply: Ok(Outcome::Empty), effect: None },
        },
        NitKind::Log(filter) => match filter {
            Some(f) => simple(node, str_owned("eva.core"), "log.get", Payload::Log(f)),
            None => RouterStep::Finish { reply: Ok(Outcome::Empty), effect: None },
        },
        NitKind::Actions(filter) => match filter {
            Some(f) => simple(node, str_owned("eva.core"), "action.list", Payload::Actions(f)),
            None => RouterStep::Finish { reply: Ok(Outcome::Empty), effect: None },
        },
        NitKind::Users(filter) => match filter {
            Some(f) => match f.svc {
                Some(svc) => simple(node, svc, "user.list", Payload::Void),
                None => RouterStep::Finish { reply: Ok(Outcome::Empty), effect: None },
            },
            None => RouterStep::Finish { reply: Ok(Outcome::Empty), effect: None },
        },
        NitKind::ItemGetState(oid) => simple(
            node,
            str_owned("eva.core"),
            "item.state",
            Payload::Id(oid),
        ),
        NitKind::ItemGetConfig(oid) => simple(
            node,
            str_owned("eva.core"),
            "item.get_config",
            Payload::Id(oid),
        ),
        NitKind::ItemGetConfigX(oid) => RouterStep::Continue {
            run: RouterRun::AwaitFirst {
                second: RemoteCall {
                    node: node.clone(),
                    target: str_owned("eva.core"),
                    method: str_owned("item.get_config"),
                    payload: Payload::Id(oid),
                },
                first_leads: false,
            },
            call: RemoteCall {
                node,
                target: str_owned("eva.core"),
                method: str_owned("svc.list"),
                payload: Payload::Void,
            },
        },
        NitKind::ItemDeploySingle(config) => simple(
            node,
            str_owned("eva.core"),
            "item.deploy",
            Payload::ItemDeployOne(config),
        ),
        NitKind::ItemDeployMultiple(items) => simple(
            node,
            str_owned("eva.core"),
            "item.deploy",
            Payload::ItemDeployVals(items),
        ),
        NitKind::ItemDestroy(oids) => bulk(node, "item.undeploy", oids, BulkStyle::ItemsOne),
        NitKind::ItemAnnounce(oids) => bulk(node, "item.announce", oids, BulkStyle::Id),
        NitKind::ItemDisable(oids) => bulk(node, "item.disable", oids, BulkStyle::Id),
        NitKind::ItemEnable(oids) => bulk(node, "item.enable", oids, BulkStyle::Id),
        NitKind::LvarSet(oids, p) => bulk(
            node,
            "lvar.set",
            oids,
            BulkStyle::LvarSet(LvarArgs { status: p.status, value: p.value }),
        ),
        NitKind::LvarReset(oids) => bulk(node, "lvar.reset", oids, BulkStyle::Id),
        NitKind::LvarClear(oids) => bulk(node, "lvar.clear", oids, BulkStyle::Id),
        NitKind::LvarToggle(oids) => bulk(node, "lvar.toggle", oids, BulkStyle::Id),
        NitKind::LvarIncr(oids) => bulk(node, "lvar.incr", oids, BulkStyle::Id),
        NitKind::LvarDecr(oids) => bulk(node, "lvar.decr", oids, BulkStyle::Id),
        NitKind::UnitActionToggle(oid) => simple(
            node,
            str_owned("eva.core"),
            "action.toggle",
            Payload::Id(oid),
        ),
        NitKind::UnitAction(p) => simple(node, str_owned("eva.core"), "action", Payload::Action(p)),
        NitKind::LmacroRun(p) => simple(node, str_owned("eva.core"), "run", Payload::Action(p)),
        NitKind::SvcRestart(svcs) => bulk(node, "svc.restart", svcs, BulkStyle::Id),
        NitKind::SvcDestroy(svcs) => bulk(node, "svc.undeploy", svcs, BulkStyle::SvcsOne),
        NitKind::SvcPurge(svcs) => simple(
            node,
            str_owned("eva.core"),
            "svc.purge",
            Payload::Svcs(svcs),
        ),
        NitKind::SvcGetParams(svc) => simple(
            node,
            str_owned("eva.core"),
            "svc.get_params",
            Payload::Id(svc),
        ),
        NitKind::SvcGetParamsX(svc) => RouterStep::Continue {
            run: RouterRun::AwaitFirst {
                second: RemoteCall {
                    node: node.clone(),
                    target: str_owned("eva.core"),
                    method: str_owned("svc.get_params"),
                    payload: Payload::Id(svc),
                },
                first_leads: false,
            },
            call: RemoteCall {
                node,
                target: str_owned("eva.core"),
                method: str_owned("spoint.list"),
                payload: Payload::Void,
            },
        },
        NitKind::SvcDeploySingle(sp) => match sp.id {
            None => RouterStep::Finish {
                reply: Err(DispatchError::Invalid(str_owned("ID is not set"))),
                effect: None,
            },
            Some(id) => {
                if ends_with_dot(id.as_str()) {
                    RouterStep::Finish {
                        reply: Err(DispatchError::Invalid(str_owned("invalid ID"))),
                        effect: None,
                    }
                } else {
                    simple(
                        node,
                        str_owned("eva.core"),
                        "svc.deploy",
                        Payload::SvcDeploy { id, params: sp.params },
                    )
                }
            },
        },
        NitKind::SvcDeployMultiple(svcs) => simple(
            node,
            str_owned("eva.core"),
            "svc.deploy",
            Payload::SvcDeployVals(svcs),
        ),
        NitKind::SvcGetInfo(svc) => simple(node, svc, "info", Payload::Void),
        NitKind::SvcCall(u, svc, method, payload) => RouterStep::Finish {
            reply: Ok(Outcome::Unit),
            effect: Some(Effect::SpawnSvcCall { u, node, target: svc, method, payload }),
        },
        NitKind::StartItemWatcher(u, oid, interval_ms) => RouterStep::Finish {
            reply: Ok(Outcome::Unit),
            effect: Some(Effect::SpawnItemWatcher { u, node, oid, interval_ms }),
        },
        NitKind::StartActionWatcher(u, action_uuid, interval_ms) => RouterStep::Finish {
            reply: Ok(Outcome::Unit),
            effect: Some(Effect::SpawnActionWatcher { u, node, action_uuid, interval_ms }),
        },
        NitKind::StopWatcher(u) => RouterStep::Finish {
            reply: Ok(Outcome::Unit),
            effect: Some(Effect::StopWatcher { u }),
        },
    }
}

fn simple<V>(node: String, target: String, method: &str, payload: Payload<V>) -> (r: RouterStep<V>)
    ensures
        simple_shape(r, node, target@, method@, payload),
        step_wf(r),
{
    RouterStep::Continue {
        run: RouterRun::AwaitSimple,
        call: RemoteCall { node, target, method: str_owned(method), payload },
    }
}

fn bulk<V: Clone>(node: String, method: &str, ids: Vec<String>, style: BulkStyle<V>) -> (r:
    RouterStep<V>)
    ensures
        bulk_start_shape(r, node, method@, ids@, style),
        step_wf(r),
{
    if ids.len() == 0 {
        return RouterStep::Finish { reply: Ok(Outcome::Unit), effect: None };
    }
    let first = bulk_call(&node, method, &ids, 0, &style);
    RouterStep::Continue {
        run: RouterRun::AwaitBulk { node, method: str_owned(method), ids, idx: 0, style },
        call: first,
    }
}

fn bulk_call<V: Clone>(
    node: &String,
    method: &str,
    ids: &Vec<String>,
    idx: usize,
    style: &BulkStyle<V>,
) -> (c: RemoteCall<V>)
    requires
        idx < ids@.len(),
    ensures
        bulk_call_shape(c, *node, method@, ids@[idx as int], *style),
{
    let payload: Payload<V> = match style {
        BulkStyle::Id => Payload::Id(ids[idx].clone()),
        BulkStyle::ItemsOne => {
            let payload = Payload::Items(vec![ids[idx].clone()]);
            proof {
                assert(payload->Items_0@ =~= seq![ids@[idx as int]]);
            }
            payload
        },
        BulkStyle::SvcsOne => {
            let payload = Payload::Svcs(vec![ids[idx].clone()]);
            proof {
                assert(payload->Svcs_0@ =~= seq![ids@[idx as int]]);
            }
            payload
        },
        BulkStyle::LvarSet(args) => {
            let value_c: Option<V> = match &args.value {
                Some(v) => Some(v.clone()),
                None => None,
            };
            Payload::LvarSet(
                PayloadLvarSet { i: Some(ids[idx].clone()), status: args.status, value: value_c },
            )
        },
    };
    RemoteCall {
        node: node.clone(),
        target: str_owned("eva.core"),
        method: str_owned(method),
        payload,
    }
}

/// What resuming a run with one call's result must produce: a simple call's
/// result is the reply; a compound keeps its first result, then pairs the
/// two in reply order, discarding everything if either call failed; a bulk
/// operation advances strictly in list order and halts at the first failure,
/// naming the identifier it failed on — the identifiers after it are not
/// attempted, which the shape of the machine itself guarantees, a finished
/// step having no call left to make.
pub open spec fn resumes<V: Clone>(
    run: RouterRun<V>,
    res: Result<V, RemoteError>,
    r: RouterStep<V>,
) -> bool {
    match run {
        RouterRun::AwaitSimple => match res {
            Ok(v) => r == RouterStep::<V>::Finish { reply: Ok(Outcome::One(v)), effect: None },
            Err(e) => r == RouterStep::<V>::Finish {
                reply: Err(DispatchError::Remote(e)),
                effect: None,
            },
        },
        RouterRun::AwaitFirst { second, first_leads } => match res {
            Ok(v) => {
                &&& r matches RouterStep::Continue { run: r2, call }
                &&& call == second
                &&& r2 == RouterRun::<V>::AwaitSecond { first: v, first_leads }
            },
            Err(e) => r == RouterStep::<V>::Finish {
                reply: Err(DispatchError::Remote(e)),
                effect: None,
            },
        },
        RouterRun::AwaitSecond { first, first_leads } => match res {
            Ok(v) => r == RouterStep::<V>::Finish {
                reply: Ok(
                    if first_leads {
                        Outcome::Pair(first, v)
                    } else {
                        Outcome::Pair(v, first)
                    },
                ),
                effect: None,
            },
            Err(e) => r == RouterStep::<V>::Finish {
                reply: Err(DispatchError::Remote(e)),
                effect: None,
            },
        },
        RouterRun::AwaitBulk { node, method, ids, idx, style } => match res {
            Ok(_) => if idx + 1 < ids.len() {
                &&& r matches RouterStep::Continue { run: r2, call }
                &&& r2 matches RouterRun::AwaitBulk {
                    node: n2,
                    method: m2,
                    ids: ids2,
                    idx: idx2,
                    style: s2,
                }
                &&& n2 == node
                &&& m2 == method
                &&& ids2 == ids
                &&& idx2 == idx + 1
                &&& s2 == style
                &&& bulk_call_shape(call, node, method@, ids[idx + 1], style)
            } else {
                r == RouterStep::<V>::Finish { reply: Ok(Outcome::Unit), effect: None }
            },
            Err(e) => {
                &&& r matches RouterStep::Finish { reply, effect }
                &&& effect is None
                &&& reply matches Err(DispatchError::BulkItem { item, cause })
                &&& item == ids[idx as int]
                &&& cause == e
            },
        },
    }
}

/// The index of the first failed outcome, if any failed.
pub open spec fn first_failure<V>(outcomes: Seq<Result<V, RemoteError>>) -> Option<int>
    decreases outcomes.len(),
{
    if outcomes.len() == 0 {
        None
    } else if outcomes[0] is Err {
        Some(0)
    } else {
        match first_failure(outcomes.drop_first()) {
            Some(i) => Some(i + 1),
            None => None,
        }
    }
}

proof fn lemma_first_failure_none<V>(s: Seq<Result<V, RemoteError>>)
    requires
        forall|j: int| 0 <= j < s.len() ==> s[j] is Ok,
    ensures
        first_failure(s) is None,
    decreases s.len(),
{
    if s.len() > 0 {
        assert(forall|j: int| 0 <= j < s.drop_first().len() ==> s.drop_first()[j] == s[j + 1]);
        lemma_first_failure_none(s.drop_first());
    }
}

proof fn lemma_first_failure_at<V>(s: Seq<Result<V, RemoteError>>, k: int)
    requires
        0 <= k < s.len(),
        s[k] is Err,
        forall|j: int| 0 <= j < k ==> s[j] is Ok,
    ensures
        first_failure(s) == Some(k),
    decreases k,
{
    if k > 0 {
        assert(forall|j: int| 0 <= j < s.drop_first().len() ==> s.drop_first()[j] == s[j + 1]);
        lemma_first_failure_at(s.drop_first(), k - 1);
    }
}

/// Folds one remote call's result into the router's next step.
pub fn resume_command<V: Clone>(run: RouterRun<V>, res: Result<V, RemoteError>) -> (r: RouterStep<
    V,
>)
    requires
        run_wf(run),
    ensures
        resumes(run, res, r),
        step_wf(r),
{
    match run {
        RouterRun::AwaitSimple => match res {
            Ok(v) => RouterStep::Finish { reply: Ok(Outcome::One(v)), effect: None },
            Err(e) => RouterStep::Finish { reply: Err(DispatchError::Remote(e)), effect: None },
        },
        RouterRun::AwaitFirst { second, first_leads } => match res {
            Ok(v) => RouterStep::Continue {
                run: RouterRun::AwaitSecond { first: v, first_leads },
                call: second,
            },
            Err(e) => RouterStep::Finish { reply: Err(DispatchError::Remote(e)), effect: None },
        },
        RouterRun::AwaitSecond { first, first_leads } => match res {
            Ok(v) => RouterStep::Finish {
                reply: Ok(
                    if first_leads {
                        Outcome::Pair(first, v)
                    } else {
                        Outcome::Pair(v, first)
                    },
                ),
                effect: None,
            },
            Err(e) => RouterStep::Finish { reply: Err(DispatchError::Remote(e)), effect: None },
        },
        RouterRun::AwaitBulk { node, method, ids, idx, style } => match res {
            Ok(_) => {
                if idx + 1 < ids.len() {
                    let call = bulk_call(&node, method.as_str(), &ids, idx + 1, &style);
                    RouterStep::Continue {
                        run: RouterRun::AwaitBulk { node, method, ids, idx: idx + 1, style },
                        call,
                    }
                } else {
                    RouterStep::Finish { reply: Ok(Outcome::Unit), effect: None }
                }
            },
            Err(e) => {
                let mut ids = ids;
                let item = ids.remove(idx);
                RouterStep::Finish {
                    reply: Err(DispatchError::BulkItem { item, cause: e }),
                    effect: None,
                }
            },
        },
    }
}

/// Law: however the remote calls of a bulk operation turn out, the machine
/// attempts the identifiers strictly in list order and halts at the first
/// failure. With `outcomes[i]` answering the call for `ids[i]`, the attempted
/// identifiers are exactly `ids` when every call succeeds, and exactly the
/// prefix of `ids` up to and including the first failing one otherwise — the
/// identifiers after it are never called — and the reply then names that
/// identifier with its cause. This function drives one whole bulk run of the
/// router through [`resume_command`] and returns the attempted identifiers
/// with the final reply.
pub fn bulk_attempts<V: Clone>(
    node: String,
    method: &str,
    ids: Vec<String>,
    style: BulkStyle<V>,
    outcomes: Vec<Result<V, RemoteError>>,
) -> (r: (Vec<String>, Result<Outcome<V>, DispatchError>))
    requires
        outcomes@.len() == ids@.len(),
    ensures
        match first_failure(outcomes@) {
            None => r.0@ == ids@ && r.1 == Result::<Outcome<V>, DispatchError>::Ok(Outcome::Unit),
            Some(k) => r.0@ == ids@.take(k + 1) && r.1 == Result::<Outcome<V>, DispatchError>::Err(
                DispatchError::BulkItem { item: ids@[k], cause: outcomes@[k]->Err_0 },
            ),
        },
{
    let ghost all_ids: Seq<String> = ids@;
    let ghost all_outcomes: Seq<Result<V, RemoteError>> = outcomes@;
    let mut attempted: Vec<String> = Vec::new();
    let mut rest = outcomes;
    let mut oi: usize = 0;
    let mut cur: (RouterRun<V>, RemoteCall<V>) = match bulk(node, method, ids, style) {
        RouterStep::Finish { reply, effect: _ } => {
            proof {
                assert(all_ids.len() == 0);
                lemma_first_failure_none(all_outcomes);
                assert(attempted@ =~= all_ids);
            }
            return (attempted, reply);
        },
        RouterStep::Continue { run, call } => (run, call),
    };
    loop
        invariant
            all_ids == ids@,
            all_outcomes == outcomes@,
            oi < all_ids.len(),
            all_outcomes.len() == all_ids.len(),
            rest@ == all_outcomes.skip(oi as int),
            attempted@ == all_ids.take(oi as int),
            forall|j: int| 0 <= j < oi ==> all_outcomes[j] is Ok,
            cur.0 matches RouterRun::AwaitBulk { node: n2, method: m2, ids: ids2, idx, style: s2 }
                && ids2@ == all_ids && idx == oi,
            run_wf(cur.0),
            ({
                let k = cur.0->AwaitBulk_node;
                bulk_call_shape(cur.1, k, cur.0->AwaitBulk_method@, all_ids[oi as int], cur.0->AwaitBulk_style)
            }),
        decreases all_ids.len() - oi,
    {
        let (run, call) = cur;
        let id: String = match call.payload {
            Payload::Id(i) => i,
            Payload::Items(mut v) => match v.pop() {
                Some(i) => i,
                None => unreached(),
            },
            Payload::Svcs(mut v) => match v.pop() {
                Some(i) => i,
                None => unreached(),
            },
            Payload::LvarSet(p) => match p.i {
                Some(i) => i,
                None => unreached(),
            },
            _ => unreached(),
        };
        attempted.push(id);
        proof {
            assert(attempted@ =~= all_ids.take(oi + 1));
        }
        let out = rest.remove(0);
        let ghost this_outcome: Result<V, RemoteError> = out;
        proof {
            assert(this_outcome == all_outcomes[oi as int]);
        }
        let step = resume_command(run, out);
        oi = oi + 1;
        proof {
            assert(rest@ =~= all_outcomes.skip(oi as int));
        }
        match step {
            RouterStep::Finish { reply, effect: _ } => {
                proof {
                    if this_outcome is Err {
                        lemma_first_failure_at(all_outcomes, oi - 1);
                    } else {
                        assert(oi == all_ids.len());
                        assert(forall|j: int| 0 <= j < all_outcomes.len() ==> all_outcomes[j] is Ok);
                        lemma_first_failure_none(all_outcomes);
                        assert(attempted@ =~= all_ids);
                    }
                }
                return (attempted, reply);
            },
            RouterStep::Continue { run, call } => {
                cur = (run, call);
            },
        }
    }
}

} // verus!
