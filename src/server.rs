use vstd::prelude::*;
use crate::command::{
    action_of_token, invalid_command_msg, parse_ipc_cmd, request_argument, request_token,
    MozimAction, MozimCmd,
};
use crate::error::{ErrorKind, MozimError};
use crate::registry::{ChannelFault, Registry};
use crate::reply::{encode_result, error_json, result_json, MozimResult};
use crate::status::{encode_status, status_json, DhcpStatus};
use crate::worker::MozimDhcpCmd;

verus! {

/// The statuses of `v`, encoded one by one and separated by commas.
pub open spec fn status_list_body(v: Seq<DhcpStatus>) -> Seq<char>
    decreases v.len(),
{
    if v.len() == 0 {
        Seq::empty()
    } else if v.len() == 1 {
        status_json(v[0].iface_name@, v[0].state)
    } else {
        status_list_body(v.drop_last()) + ","@ + status_json(v.last().iface_name@, v.last().state)
    }
}

/// The wire JSON of a list of statuses: a JSON array of their encodings.
pub open spec fn status_list_json(v: Seq<DhcpStatus>) -> Seq<char> {
    "["@ + status_list_body(v) + "]"@
}

/// Encodes a list of statuses as a JSON array.
pub fn encode_status_list(v: &Vec<DhcpStatus>) -> (r: String)
    ensures
        r@ == status_list_json(v@),
{
    let mut s = String::from_str("[");
    let mut i: usize = 0;
    while i < v.len()
        invariant
            i <= v@.len(),
            s@ == "["@ + status_list_body(v@.take(i as int)),
        decreases v@.len() - i,
    {
        let ghost before = s@;
        if i > 0 {
            s.append(",");
        }
        let e = encode_status(&v[i]);
        s.append(e.as_str());
        proof {
            let t = v@.take(i as int + 1);
            assert(t.drop_last() =~= v@.take(i as int));
            assert(t.last() == v@[i as int]);
            if i == 0 {
                assert(status_list_body(v@.take(0)) =~= Seq::empty());
                assert(before =~= "["@);
                assert(s@ =~= "["@ + status_list_body(t));
            } else {
                assert(s@ =~= "["@ + status_list_body(t));
            }
        }
        i = i + 1;
    }
    assert(v@.take(v@.len() as int) =~= v@);
    s.append("]");
    s
}

/// `r` is a successful reply carrying the text `d`.
pub open spec fn data_reply(r: Result<MozimResult, MozimError>, d: Seq<char>) -> bool {
    r is Ok && r->Ok_0.error is None && r->Ok_0.data is Some && r->Ok_0.data->0@ == d
}

/// `r` carries the outcome `sr` of a registry call: the status encoded as
/// JSON inside a data reply, or the error itself.
pub open spec fn status_reply(sr: Result<DhcpStatus, MozimError>, r: Result<MozimResult, MozimError>) -> bool {
    match sr {
        Ok(st) => data_reply(r, status_json(st.iface_name@, st.state)),
        Err(e) => r is Err && r->Err_0 == e,
    }
}

/// `r` carries the outcome `lr` of a walk over all workers: the statuses as
/// a JSON array inside a data reply, or the error itself.
pub open spec fn list_reply(lr: Result<Vec<DhcpStatus>, MozimError>, r: Result<MozimResult, MozimError>) -> bool {
    match lr {
        Ok(v) => data_reply(r, status_list_json(v@)),
        Err(e) => r is Err && r->Err_0 == e,
    }
}

/// The message of the error for a `start` without an interface name.
pub open spec fn missing_iface_msg() -> Seq<char> {
    "start command missing interface name"@
}

/// What serving `action` with argument `arg` does, taking the registry from
/// `before` to `after` and answering `r`.
pub open spec fn cmd_outcome<H, S, X>(
    before: Registry<H>,
    after: Registry<H>,
    action: MozimAction,
    arg: Seq<char>,
    spawn: &S,
    exchange: &X,
    r: Result<MozimResult, MozimError>,
) -> bool where
    S: Fn(&str) -> Result<H, MozimError>,
    X: Fn(&H, MozimDhcpCmd) -> Result<Result<String, MozimError>, ChannelFault>,
 {
    match action {
        MozimAction::Ping => after == before && data_reply(r, "pong"@),
        MozimAction::Start => if arg.len() == 0 {
            after == before && r is Err && r->Err_0.kind == ErrorKind::InvalidIpcCommand
                && r->Err_0.msg@ == missing_iface_msg()
        } else {
            exists|sr: Result<DhcpStatus, MozimError>|
                before.started(after, arg, spawn, exchange, sr) && status_reply(sr, r)
        },
        MozimAction::Query => after == before && exists|sr: Result<DhcpStatus, MozimError>|
            before.queried(arg, exchange, sr) && status_reply(sr, r),
        MozimAction::Stop => exists|sr: Result<DhcpStatus, MozimError>|
            before.stopped(after, arg, exchange, sr) && status_reply(sr, r),
        MozimAction::Dump => after == before && exists|lr: Result<Vec<DhcpStatus>, MozimError>|
            before.all_queried(exchange, lr) && list_reply(lr, r),
    }
}

/// Wraps a status into a data reply that carries its JSON.
pub fn dhcp_status_to_mozim_result(status: &DhcpStatus) -> (r: MozimResult)
    ensures
        data_reply(Ok(r), status_json(status.iface_name@, status.state)),
{
    MozimResult::data(encode_status(status))
}

fn wrap_status(sr: Result<DhcpStatus, MozimError>) -> (r: Result<MozimResult, MozimError>)
    ensures
        status_reply(sr, r),
{
    match sr {
        Ok(st) => Ok(dhcp_status_to_mozim_result(&st)),
        Err(e) => Err(e),
    }
}

/// Answers `ping`.
pub fn process_cmd_ping() -> (r: Result<MozimResult, MozimError>)
    ensures
        data_reply(r, "pong"@),
{
    Ok(MozimResult::data(String::from_str("pong")))
}

/// Serves `start`: an empty interface name is refused.
pub fn process_cmd_start<H, S, X>(
    iface_name: &str,
    reg: &mut Registry<H>,
    spawn: &S,
    exchange: &X,
) -> (r: Result<MozimResult, MozimError>) where
    S: Fn(&str) -> Result<H, MozimError>,
    X: Fn(&H, MozimDhcpCmd) -> Result<Result<String, MozimError>, ChannelFault>,

    requires
        old(reg).wf(),
        forall|a: &str| spawn.requires((a,)),
        forall|h: &H, c: MozimDhcpCmd| exchange.requires((h, c)),
    ensures
        final(reg).wf(),
        cmd_outcome(*old(reg), *final(reg), MozimAction::Start, iface_name@, spawn, exchange, r),
{
    if iface_name.unicode_len() == 0 {
        Err(
            MozimError::invalid_ipc_command(
                String::from_str("start command missing interface name"),
            ),
        )
    } else {
        let sr = reg.start(iface_name, spawn, exchange);
        wrap_status(sr)
    }
}

/// Serves `query`.
pub fn process_cmd_query<H, X>(iface_name: &str, reg: &Registry<H>, exchange: &X) -> (r: Result<
    MozimResult,
    MozimError,
>) where
    X: Fn(&H, MozimDhcpCmd) -> Result<Result<String, MozimError>, ChannelFault>,

    requires
        reg.wf(),
        forall|h: &H, c: MozimDhcpCmd| exchange.requires((h, c)),
    ensures
        exists|sr: Result<DhcpStatus, MozimError>|
            reg.queried(iface_name@, exchange, sr) && status_reply(sr, r),
{
    let sr = reg.query(iface_name, exchange);
    wrap_status(sr)
}

/// Serves `stop`.
pub fn process_cmd_stop<H, X>(iface_name: &str, reg: &mut Registry<H>, exchange: &X) -> (r: Result<
    MozimResult,
    MozimError,
>) where
    X: Fn(&H, MozimDhcpCmd) -> Result<Result<String, MozimError>, ChannelFault>,

    requires
        old(reg).wf(),
        forall|h: &H, c: MozimDhcpCmd| exchange.requires((h, c)),
    ensures
        final(reg).wf(),
        exists|sr: Result<DhcpStatus, MozimError>|
            old(reg).stopped(*final(reg), iface_name@, exchange, sr) && status_reply(sr, r),
{
    let sr = reg.stop(iface_name, exchange);
    wrap_status(sr)
}

/// Serves `dump`: the statuses of all live workers as a JSON array.
pub fn process_cmd_dump<H, X>(reg: &Registry<H>, exchange: &X) -> (r: Result<
    MozimResult,
    MozimError,
>) where
    X: Fn(&H, MozimDhcpCmd) -> Result<Result<String, MozimError>, ChannelFault>,

    requires
        reg.wf(),
        forall|h: &H, c: MozimDhcpCmd| exchange.requires((h, c)),
    ensures
        exists|lr: Result<Vec<DhcpStatus>, MozimError>|
            reg.all_queried(exchange, lr) && list_reply(lr, r),
{
    let lr = reg.query_all(exchange);
    let ghost g = lr;
    let r = match lr {
        Ok(v) => Ok(MozimResult::data(encode_status_list(&v))),
        Err(e) => Err(e),
    };
    assert(reg.all_queried(exchange, g) && list_reply(g, r));
    r
}

/// Serves one parsed request against the registry.
pub fn process_cmd<H, S, X>(
    cmd: &MozimCmd,
    reg: &mut Registry<H>,
    spawn: &S,
    exchange: &X,
) -> (r: Result<MozimResult, MozimError>) where
    S: Fn(&str) -> Result<H, MozimError>,
    X: Fn(&H, MozimDhcpCmd) -> Result<Result<String, MozimError>, ChannelFault>,

    requires
        old(reg).wf(),
        forall|a: &str| spawn.requires((a,)),
        forall|h: &H, c: MozimDhcpCmd| exchange.requires((h, c)),
    ensures
        final(reg).wf(),
        cmd_outcome(*old(reg), *final(reg), cmd.action, cmd.arguments@, spawn, exchange, r),
{
    let arg = cmd.arguments.as_str();
    match cmd.action {
        MozimAction::Ping => process_cmd_ping(),
        MozimAction::Start => process_cmd_start(arg, reg, spawn, exchange),
        MozimAction::Query => process_cmd_query(arg, reg, exchange),
        MozimAction::Stop => process_cmd_stop(arg, reg, exchange),
        MozimAction::Dump => process_cmd_dump(reg, exchange),
    }
}

/// The wire JSON of the reply to a request that ended with `res`.
pub open spec fn reply_json(res: Result<MozimResult, MozimError>) -> Seq<char> {
    match res {
        Ok(m) => result_json(m),
        Err(e) => "{\"error\":"@ + error_json(e.kind, e.msg@) + "}"@,
    }
}

/// Encodes the reply to a request: a failure becomes an error reply.
pub fn reply_ipc_cmd(res: Result<MozimResult, MozimError>) -> (r: String)
    requires
        res is Ok ==> res->Ok_0.is_well_formed(),
    ensures
        r@ == reply_json(res),
{
    let m = match res {
        Ok(m) => m,
        Err(e) => MozimResult::error(e),
    };
    encode_result(&m)
}

/// Serves one request text against the registry and gives the reply text:
/// a request that does not parse leaves the registry alone.
pub fn handle_request<H, S, X>(
    request: &str,
    reg: &mut Registry<H>,
    spawn: &S,
    exchange: &X,
) -> (r: String) where
    S: Fn(&str) -> Result<H, MozimError>,
    X: Fn(&H, MozimDhcpCmd) -> Result<Result<String, MozimError>, ChannelFault>,

    requires
        old(reg).wf(),
        forall|a: &str| spawn.requires((a,)),
        forall|h: &H, c: MozimDhcpCmd| exchange.requires((h, c)),
    ensures
        final(reg).wf(),
        action_of_token(request_token(request@)) is None ==> *final(reg) == *old(reg) && r@
            == "{\"error\":"@ + error_json(
            ErrorKind::InvalidIpcCommand,
            invalid_command_msg(request_token(request@)),
        ) + "}"@,
        action_of_token(request_token(request@)) is Some ==> exists|
            res: Result<MozimResult, MozimError>,
        |
            cmd_outcome(
                *old(reg),
                *final(reg),
                action_of_token(request_token(request@))->0,
                request_argument(request@),
                spawn,
                exchange,
                res,
            ) && r@ == reply_json(res),
{
    match parse_ipc_cmd(request) {
        Ok(cmd) => {
            let res = process_cmd(&cmd, reg, spawn, exchange);
            reply_ipc_cmd(res)
        },
        Err(e) => reply_ipc_cmd(Err(e)),
    }
}

} // verus!
