use vstd::prelude::*;
use crate::error::MozimError;
use crate::status::{encode_status, status_json, DhcpState, DhcpStatus};

verus! {

/// A command sent to the worker of one interface.
#[derive(PartialEq, Eq, Structural, Clone, Copy, Debug)]
pub enum MozimDhcpCmd {
    StartDhcp,
    QueryDhcp,
    StopDhcp,
}

/// The state that a worker reports in answer to `cmd`.
pub open spec fn state_after(cmd: MozimDhcpCmd) -> DhcpState {
    match cmd {
        MozimDhcpCmd::StartDhcp => DhcpState::Requesting,
        MozimDhcpCmd::QueryDhcp => DhcpState::Requesting,
        MozimDhcpCmd::StopDhcp => DhcpState::Stopped,
    }
}

/// What a worker does on one command: the reply it sends back, and whether
/// its command loop goes on afterwards.
pub struct WorkerStep {
    pub reply: Result<String, MozimError>,
    pub keep_running: bool,
}

/// One step of the worker of interface `iface_name`: `StartDhcp` and
/// `QueryDhcp` report `Requesting`, `StopDhcp` reports `Stopped` and ends the
/// loop.
pub fn worker_step(iface_name: &str, cmd: MozimDhcpCmd) -> (r: WorkerStep)
    ensures
        r.reply is Ok,
        r.reply->Ok_0@ == status_json(iface_name@, state_after(cmd)),
        r.keep_running == (cmd != MozimDhcpCmd::StopDhcp),
{
    let state = match cmd {
        MozimDhcpCmd::StartDhcp => DhcpState::Requesting,
        MozimDhcpCmd::QueryDhcp => DhcpState::Requesting,
        MozimDhcpCmd::StopDhcp => DhcpState::Stopped,
    };
    let status = DhcpStatus { iface_name: String::from_str(iface_name), state };
    WorkerStep {
        reply: Ok(encode_status(&status)),
        keep_running: cmd != MozimDhcpCmd::StopDhcp,
    }
}

} // verus!
