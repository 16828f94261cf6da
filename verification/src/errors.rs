//! The dispatcher's error taxonomy and the display strings it surfaces.
//!
//! A remote failure carries the numeric code and optional message reported by
//! the remote node; the code doubles as the failure kind. Local failures of
//! the dispatcher itself (no session installed, queue full, a reply of the
//! wrong shape, a payload rejected before transmission) are separate variants
//! with fixed or structured messages.

use crate::text::{i16_dec, int_dec_str};
use vstd::prelude::*;
use vstd::string::StringExecFns;

verus! {

/// Code reported by the remote side for a missing resource; inside an action
/// watcher it is the sentinel meaning the action record was purged.
pub const ERR_CODE_NOT_FOUND: i16 = -32001;

pub const ERR_CODE_ACCESS_DENIED: i16 = -32002;

pub const ERR_CODE_SYSTEM_ERROR: i16 = -32003;

pub const ERR_CODE_OTHER: i16 = -32004;

pub const ERR_CODE_NOT_READY: i16 = -32005;

pub const ERR_CODE_UNSUPPORTED: i16 = -32006;

pub const ERR_CODE_CORE_ERROR: i16 = -32007;

pub const ERR_CODE_TIMEOUT: i16 = -32008;

pub const ERR_CODE_INVALID_DATA: i16 = -32009;

pub const ERR_CODE_FUNC_FAILED: i16 = -32010;

pub const ERR_CODE_ABORTED: i16 = -32011;

pub const ERR_CODE_ALREADY_EXISTS: i16 = -32012;

pub const ERR_CODE_BUSY: i16 = -32013;

pub const ERR_CODE_METHOD_NOT_IMPLEMENTED: i16 = -32014;

pub const ERR_CODE_IO: i16 = -32016;

/// A failure reported by the remote node: a numeric code that names the kind,
/// and an optional human-readable message.
#[derive(Clone, Debug, PartialEq, Eq)]
pub struct RemoteError {
    pub code: i16,
    pub message: Option<String>,
}

/// The display name of a remote failure code; codes outside the known set
/// read as `Other`.
pub open spec fn kind_name(code: int) -> Seq<char> {
    if code == -32001 {
        "Resource not found"@
    } else if code == -32002 {
        "Access denied"@
    } else if code == -32003 {
        "System error"@
    } else if code == -32005 {
        "Not ready"@
    } else if code == -32006 {
        "Unsupported"@
    } else if code == -32007 {
        "Core error"@
    } else if code == -32008 {
        "Timed out"@
    } else if code == -32009 {
        "Invalid data"@
    } else if code == -32010 {
        "Function failed"@
    } else if code == -32011 {
        "Aborted"@
    } else if code == -32012 {
        "Resource already exists"@
    } else if code == -32013 {
        "Resource busy"@
    } else if code == -32014 {
        "Method not implemented"@
    } else if code == -32016 {
        "IO error"@
    } else {
        "Other"@
    }
}

/// How a remote failure is rendered: kind name, numeric code in parentheses,
/// then the message when one was reported.
pub open spec fn remote_display(e: RemoteError) -> Seq<char> {
    kind_name(e.code as int) + " ("@ + int_dec_str(e.code as int) + ")"@ + (match e.message {
        Some(m) => ": "@ + m@,
        None => Seq::<char>::empty(),
    })
}

impl RemoteError {
    /// Whether the remote side reported the resource as missing.
    pub fn is_not_found(&self) -> (r: bool)
        ensures
            r == (self.code == ERR_CODE_NOT_FOUND),
    {
        self.code == ERR_CODE_NOT_FOUND
    }

    /// The display name of this failure's kind.
    pub fn kind_str(&self) -> (r: &'static str)
        ensures
            r@ == kind_name(self.code as int),
    {
        if self.code == ERR_CODE_NOT_FOUND {
            "Resource not found"
        } else if self.code == ERR_CODE_ACCESS_DENIED {
            "Access denied"
        } else if self.code == ERR_CODE_SYSTEM_ERROR {
            "System error"
        } else if self.code == ERR_CODE_NOT_READY {
            "Not ready"
        } else if self.code == ERR_CODE_UNSUPPORTED {
            "Unsupported"
        } else if self.code == ERR_CODE_CORE_ERROR {
            "Core error"
        } else if self.code == ERR_CODE_TIMEOUT {
            "Timed out"
        } else if self.code == ERR_CODE_INVALID_DATA {
            "Invalid data"
        } else if self.code == ERR_CODE_FUNC_FAILED {
            "Function failed"
        } else if self.code == ERR_CODE_ABORTED {
            "Aborted"
        } else if self.code == ERR_CODE_ALREADY_EXISTS {
            "Resource already exists"
        } else if self.code == ERR_CODE_BUSY {
            "Resource busy"
        } else if self.code == ERR_CODE_METHOD_NOT_IMPLEMENTED {
            "Method not implemented"
        } else if self.code == ERR_CODE_IO {
            "IO error"
        } else {
            "Other"
        }
    }

    /// Renders the failure for status display.
    pub fn display_string(&self) -> (r: String)
        ensures
            r@ == remote_display(*self),
    {
        let mut s = String::new();
        s.append(self.kind_str());
        s.append(" (");
        let code = i16_dec(self.code);
        s.append(code.as_str());
        s.append(")");
        match &self.message {
            Some(m) => {
                s.append(": ");
                s.append(m.as_str());
            },
            None => {},
        }
        proof {
            assert(s@ =~= remote_display(*self));
        }
        s
    }

    /// The message to surface while connecting, where only the remote
    /// message matters and a fixed fallback covers a silent failure.
    pub fn message_or(&self, fallback: &str) -> (r: String)
        ensures
            match self.message {
                Some(m) => r@ == m@,
                None => r@ == fallback@,
            },
    {
        match &self.message {
            Some(m) => m.clone(),
            None => {
                let mut s = String::new();
                s.append(fallback);
                proof {
                    assert(s@ =~= fallback@);
                }
                s
            },
        }
    }
}

/// Everything a dispatcher call can fail with.
#[derive(Clone, Debug, PartialEq, Eq)]
pub enum DispatchError {
    /// No session is installed.
    NotConnected,
    /// The command queue already holds an unconsumed command; the caller
    /// should retry later instead of blocking.
    AdmissionRejected,
    /// The remote call itself failed.
    Remote(RemoteError),
    /// One element of a bulk operation failed; `item` names the offending
    /// identifier and `cause` is the remote failure on it.
    BulkItem { item: String, cause: RemoteError },
    /// A reply did not match the shape the caller expected.
    Decode(String),
    /// A payload was rejected locally, before any transmission.
    Invalid(String),
}

/// How a dispatcher failure is rendered. The admission and connection
/// failures read as fixed strings, so the caller never needs to inspect
/// their structure.
pub open spec fn dispatch_display(e: DispatchError) -> Seq<char> {
    match e {
        DispatchError::NotConnected => "Not connected"@,
        DispatchError::AdmissionRejected => "Operations pending"@,
        DispatchError::Remote(re) => remote_display(re),
        DispatchError::BulkItem { item, cause } => item@ + ": "@ + remote_display(cause),
        DispatchError::Decode(m) => "Invalid data: "@ + m@,
        DispatchError::Invalid(m) => "Invalid data: "@ + m@,
    }
}

impl DispatchError {
    /// Renders the failure for status display.
    pub fn display_string(&self) -> (r: String)
        ensures
            r@ == dispatch_display(*self),
    {
        let mut s = String::new();
        match self {
            DispatchError::NotConnected => {
                s.append("Not connected");
            },
            DispatchError::AdmissionRejected => {
                s.append("Operations pending");
            },
            DispatchError::Remote(re) => {
                let d = re.display_string();
                s.append(d.as_str());
            },
            DispatchError::BulkItem { item, cause } => {
                s.append(item.as_str());
                s.append(": ");
                let d = cause.display_string();
                s.append(d.as_str());
            },
            DispatchError::Decode(m) => {
                s.append("Invalid data: ");
                s.append(m.as_str());
            },
            DispatchError::Invalid(m) => {
                s.append("Invalid data: ");
                s.append(m.as_str());
            },
        }
        proof {
            assert(s@ =~= dispatch_display(*self));
        }
        s
    }
}

} // verus!
