//! The notification stream: everything the dispatcher reports to the
//! presentation layer out of band — status changes, connection marks, watcher
//! ticks and spawned service-call results.
//!
//! The notification path and the command-queue reply path are two distinct,
//! never-merged channels: watchers and spawned calls report here, tagged with
//! their correlation id, and never touch the administrative queue.

use crate::catalog::NitData;
use crate::errors::RemoteError;
use crate::nodes::NodeInfo;
use crate::registry::CorrelationId;
use vstd::prelude::*;

verus! {

/// How a status text is to be rendered.
#[derive(Clone, Copy, Debug, PartialEq, Eq, Structural)]
pub enum StatusKind {
    Info,
    Error,
}

/// One notification to the presentation layer.
#[derive(Debug, PartialEq)]
pub enum UiCommand<V> {
    /// A status-line text.
    SetStatus(String, StatusKind),
    /// A session is up: the endpoint path and the sorted node list.
    MarkConnected(String, Vec<NodeInfo<V>>),
    /// The session is gone.
    MarkDisconnected,
    /// A command the presentation layer should run next (the initial state
    /// query after connecting).
    ProcessNit(NitData<V>),
    /// An item watcher's poll result.
    ProcessItemWatch(CorrelationId, V),
    /// An action watcher's poll result; `None` is the explicit void
    /// notification meaning the action record was purged by the remote side.
    ProcessActionWatch(CorrelationId, Option<V>),
    /// The out-of-band result of a spawned service call.
    ProcessSvcCallResult(CorrelationId, Result<V, RemoteError>),
}

} // verus!
