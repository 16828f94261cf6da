//! The synchronous-to-asynchronous bridge: an admission-controlled command
//! queue of capacity one.
//!
//! The caller submits a command through [`Gateway::submit`]; the router drains
//! it through [`Gateway::take_next`]. Admission is non-blocking: while one
//! command sits unconsumed, a second submission is rejected outright rather
//! than queued, so a slow or stuck remote call can never block the caller or
//! grow a backlog. A gateway with no queue installed (no session) rejects
//! every submission.

use crate::errors::DispatchError;
use vstd::prelude::*;

verus! {

/// The admission-control point between the caller and the command router.
pub struct Gateway<T> {
    pub installed: bool,
    pub pending: Option<T>,
}

impl<T> Gateway<T> {
    /// Whether a command queue is installed (a session is up).
    pub open spec fn is_installed(&self) -> bool {
        self.installed
    }

    /// The command admitted and not yet consumed by the router, if any.
    pub open spec fn pending_cmd(&self) -> Option<T> {
        self.pending
    }

    /// A command can only be pending while a queue is installed.
    pub open spec fn wf(&self) -> bool {
        self.pending is Some ==> self.installed
    }

    /// A fresh gateway: no queue installed, nothing pending.
    pub fn new() -> (g: Gateway<T>)
        ensures
            !g.is_installed(),
            g.pending_cmd() is None,
            g.wf(),
    {
        Gateway { installed: false, pending: None }
    }

    /// Installs a fresh queue; anything left from a previous session is
    /// dropped and returned.
    pub fn install(&mut self) -> (dropped: Option<T>)
        ensures
            final(self).is_installed(),
            final(self).pending_cmd() is None,
            final(self).wf(),
            dropped == old(self).pending_cmd(),
    {
        self.installed = true;
        self.pending.take()
    }

    /// Removes the queue; an unconsumed command is dropped and returned.
    pub fn uninstall(&mut self) -> (dropped: Option<T>)
        ensures
            !final(self).is_installed(),
            final(self).pending_cmd() is None,
            final(self).wf(),
            dropped == old(self).pending_cmd(),
    {
        self.installed = false;
        self.pending.take()
    }

    /// Non-blocking admission: fails immediately when no queue is installed
    /// or when the single slot is already occupied; in both failure cases the
    /// gateway — including the already-admitted command — is left untouched.
    pub fn submit(&mut self, cmd: T) -> (r: Result<(), DispatchError>)
        requires
            old(self).wf(),
        ensures
            final(self).wf(),
            final(self).is_installed() == old(self).is_installed(),
            !old(self).is_installed() ==> r == Result::<(), DispatchError>::Err(
                DispatchError::NotConnected,
            ) && final(self).pending_cmd() == old(self).pending_cmd(),
            old(self).is_installed() && old(self).pending_cmd() is Some ==> r == Result::<
                (),
                DispatchError,
            >::Err(DispatchError::AdmissionRejected) && final(self).pending_cmd() == old(
                self,
            ).pending_cmd(),
            old(self).is_installed() && old(self).pending_cmd() is None ==> r == Result::<
                (),
                DispatchError,
            >::Ok(()) && final(self).pending_cmd() == Some(cmd),
    {
        if !self.installed {
            Err(DispatchError::NotConnected)
        } else if self.pending.is_some() {
            Err(DispatchError::AdmissionRejected)
        } else {
            self.pending = Some(cmd);
            Ok(())
        }
    }

    /// The router's side: consumes the pending command, if any.
    pub fn take_next(&mut self) -> (r: Option<T>)
        ensures
            r == old(self).pending_cmd(),
            final(self).pending_cmd() is None,
            final(self).is_installed() == old(self).is_installed(),
            final(self).wf(),
    {
        self.pending.take()
    }
}

/// Runs a sequence of commands through the gateway one at a time, each
/// consumed by the router before the next is submitted, and returns the
/// commands in the order the router received them.
///
/// Law: under the serial protocol, the capacity-one queue neither drops,
/// duplicates nor reorders commands — the router observes exactly the
/// submission order, so replies are paired with commands in submission order.
pub fn drain_in_order<T>(g: &mut Gateway<T>, cmds: Vec<T>) -> (received: Vec<T>)
    requires
        old(g).wf(),
        old(g).is_installed(),
        old(g).pending_cmd() is None,
    ensures
        received@ == cmds@,
        final(g).wf(),
        final(g).is_installed(),
        final(g).pending_cmd() is None,
{
    let mut rest = cmds;
    let mut received: Vec<T> = Vec::new();
    let ghost all: Seq<T> = rest@;
    let mut i: usize = 0;
    while rest.len() > 0
        invariant
            g.wf(),
            g.is_installed(),
            g.pending_cmd() is None,
            received@ + rest@ == all,
        decreases rest.len(),
    {
        let cmd = rest.remove(0);
        let admitted = g.submit(cmd);
        assert(admitted is Ok);
        match g.take_next() {
            Some(c) => {
                received.push(c);
            },
            None => unreached(),
        }
        proof {
            assert(received@ + rest@ =~= all);
        }
    }
    proof {
        assert(received@ =~= all);
    }
    received
}

} // verus!
