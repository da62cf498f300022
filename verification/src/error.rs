//! The closed error taxonomy of the initialization protocol.

use vstd::prelude::*;
use vstd::string::StringExecFns;

verus! {

/// The kind of a failure. The set is closed: every step of initialization
/// reports one of these, and the first failure aborts the whole run.
#[derive(Debug)]
pub enum ErrorKind {
    /// Catch-all, also used when the embedding program violates the
    /// initialization protocol.
    Unknown,
    /// A required factory symbol is missing, or device creation was rejected.
    NotSupported,
    /// The named driver module is not loaded in the process.
    ModuleNotFound(String),
    /// A second initialization was begun while one is active.
    AlreadyInitialized,
    /// A result was requested before initialization finished.
    NotInitialized,
    /// An operating-system call failed; carries the reported error code.
    IoError(u32),
}

/// A failure: its kind together with a human-readable message.
#[derive(Debug)]
pub struct KieroError {
    pub kind: ErrorKind,
    pub message: String,
}

impl ErrorKind {
    /// The kind's name, as the error's description prints it.
    pub open spec fn spec_label(&self) -> Seq<char> {
        match self {
            ErrorKind::Unknown => "Unknown"@,
            ErrorKind::NotSupported => "NotSupported"@,
            ErrorKind::ModuleNotFound(_) => "ModuleNotFound"@,
            ErrorKind::AlreadyInitialized => "AlreadyInitialized"@,
            ErrorKind::NotInitialized => "NotInitialized"@,
            ErrorKind::IoError(_) => "IoError"@,
        }
    }

    /// The kind's name.
    pub fn label(&self) -> (r: &'static str)
        ensures
            r@ == self.spec_label(),
    {
        match self {
            ErrorKind::Unknown => "Unknown",
            ErrorKind::NotSupported => "NotSupported",
            ErrorKind::ModuleNotFound(_) => "ModuleNotFound",
            ErrorKind::AlreadyInitialized => "AlreadyInitialized",
            ErrorKind::NotInitialized => "NotInitialized",
            ErrorKind::IoError(_) => "IoError",
        }
    }
}

impl KieroError {
    pub fn new(kind: ErrorKind, message: String) -> (e: KieroError)
        ensures
            e.kind == kind,
            e.message == message,
    {
        KieroError { kind, message }
    }

    /// The printable form of the failure: the kind's name, a separator, and
    /// the message.
    pub fn describe(&self) -> (r: String)
        ensures
            r@ == self.kind.spec_label() + ": "@ + self.message@,
    {
        let s = self.kind.label().to_owned();
        let s = s.concat(": ");
        let r = s.concat(self.message.as_str());
        proof {
            assert(r@ =~= self.kind.spec_label() + ": "@ + self.message@);
        }
        r
    }
}

} // verus!
