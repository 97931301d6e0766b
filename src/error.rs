use vstd::prelude::*;

verus! {

/// The closed set of failure kinds that travel on the wire.
#[derive(PartialEq, Eq, Structural, Clone, Copy, Debug)]
pub enum ErrorKind {
    /// Transport or encoding failure.
    IpcError,
    /// The request did not name a known action, or lacked an argument.
    InvalidIpcCommand,
    /// An internal invariant was broken.
    MozimBug,
}

/// An error record: a kind and a free-form message.
#[derive(Clone, Debug)]
pub struct MozimError {
    pub kind: ErrorKind,
    pub msg: String,
}

impl MozimError {
    /// An error that reports a broken internal invariant.
    pub fn bug(msg: String) -> (r: MozimError)
        ensures
            r.kind == ErrorKind::MozimBug,
            r.msg@ == msg@,
    {
        MozimError { kind: ErrorKind::MozimBug, msg: msg }
    }

    /// An error that reports a malformed request.
    pub fn invalid_ipc_command(msg: String) -> (r: MozimError)
        ensures
            r.kind == ErrorKind::InvalidIpcCommand,
            r.msg@ == msg@,
    {
        MozimError { kind: ErrorKind::InvalidIpcCommand, msg: msg }
    }

    /// An error that reports a transport failure.
    pub fn ipc_error(msg: String) -> (r: MozimError)
        ensures
            r.kind == ErrorKind::IpcError,
            r.msg@ == msg@,
    {
        MozimError { kind: ErrorKind::IpcError, msg: msg }
    }
}

} // verus!
