use mozim::command::{parse_action, parse_ipc_cmd, MozimAction};
use mozim::error::{ErrorKind, MozimError};
use mozim::registry::{ChannelFault, Registry};
use mozim::server::handle_request;
use mozim::worker::{worker_step, MozimDhcpCmd};

fn spawn_ok(id: &str) -> Result<String, MozimError> {
    Ok(id.to_string())
}

fn spawn_fails(_id: &str) -> Result<String, MozimError> {
    Err(MozimError::ipc_error("no threads left".to_string()))
}

fn exchange_ok(h: &String, c: MozimDhcpCmd) -> Result<Result<String, MozimError>, ChannelFault> {
    Ok(worker_step(h, c).reply)
}

fn exchange_closed(_h: &String, _c: MozimDhcpCmd) -> Result<Result<String, MozimError>, ChannelFault> {
    Err(ChannelFault::Recv)
}

fn serve(reg: &mut Registry<String>, request: &str) -> String {
    handle_request(request, reg, &spawn_ok, &exchange_ok)
}

#[test]
fn parse_every_action_token() {
    assert_eq!(parse_action("ping").unwrap(), MozimAction::Ping);
    assert_eq!(parse_action("start").unwrap(), MozimAction::Start);
    assert_eq!(parse_action("query").unwrap(), MozimAction::Query);
    assert_eq!(parse_action("stop").unwrap(), MozimAction::Stop);
    assert_eq!(parse_action("dump").unwrap(), MozimAction::Dump);
}

#[test]
fn parse_unknown_token_names_it() {
    let e = parse_ipc_cmd("bogus eth0").unwrap_err();
    assert_eq!(e.kind, ErrorKind::InvalidIpcCommand);
    assert!(e.msg.contains("bogus"));
    assert_eq!(e.msg, "Invalid command 'bogus'");
    let e = parse_action("Ping").unwrap_err();
    assert_eq!(e.kind, ErrorKind::InvalidIpcCommand);
}

#[test]
fn parse_splits_on_first_space_only() {
    let c = parse_ipc_cmd("start eth0 extra").unwrap();
    assert_eq!(c.action, MozimAction::Start);
    assert_eq!(c.arguments, "eth0 extra");
    let c = parse_ipc_cmd("query  eth0").unwrap();
    assert_eq!(c.arguments, " eth0");
    let c = parse_ipc_cmd("dump").unwrap();
    assert_eq!(c.action, MozimAction::Dump);
    assert_eq!(c.arguments, "");
    let c = parse_ipc_cmd("stop ").unwrap();
    assert_eq!(c.action, MozimAction::Stop);
    assert_eq!(c.arguments, "");
}

#[test]
fn start_without_interface_is_refused() {
    let mut reg: Registry<String> = Registry::new();
    let r = serve(&mut reg, "start");
    assert_eq!(
        r,
        r#"{"error":{"kind":"invalid_ipc_command","msg":"start command missing interface name"}}"#
    );
    let r = serve(&mut reg, "start ");
    assert!(r.contains("invalid_ipc_command"));
    assert_eq!(reg.len(), 0);
}

#[test]
fn start_creates_one_worker() {
    let mut reg: Registry<String> = Registry::new();
    let r = serve(&mut reg, "start eth0");
    assert_eq!(r, r#"{"data":"{\"iface_name\":\"eth0\",\"state\":\"Requesting\"}"}"#);
    assert_eq!(reg.len(), 1);
    assert!(reg.contains("eth0"));
}

#[test]
fn start_twice_keeps_one_worker() {
    let mut reg: Registry<String> = Registry::new();
    serve(&mut reg, "start eth0");
    let r = serve(&mut reg, "start eth0");
    assert_eq!(r, r#"{"data":"{\"iface_name\":\"eth0\",\"state\":\"Requesting\"}"}"#);
    assert_eq!(reg.len(), 1);
}

#[test]
fn query_unknown_interface_is_stopped() {
    let mut reg: Registry<String> = Registry::new();
    let r = serve(&mut reg, "query never-started-iface");
    assert_eq!(
        r,
        r#"{"data":"{\"iface_name\":\"never-started-iface\",\"state\":\"Stopped\"}"}"#
    );
    assert_eq!(reg.len(), 0);
    let s = reg.query("never-started-iface", &exchange_ok).unwrap();
    assert_eq!(s.iface_name, "never-started-iface");
    assert_eq!(s.state, mozim::status::DhcpState::Stopped);
}

#[test]
fn query_live_interface_is_requesting() {
    let mut reg: Registry<String> = Registry::new();
    serve(&mut reg, "start eth0");
    let r = serve(&mut reg, "query eth0");
    assert_eq!(r, r#"{"data":"{\"iface_name\":\"eth0\",\"state\":\"Requesting\"}"}"#);
    assert_eq!(reg.len(), 1);
}

#[test]
fn stop_after_start_unregisters() {
    let mut reg: Registry<String> = Registry::new();
    serve(&mut reg, "start eth0");
    let r = serve(&mut reg, "stop eth0");
    assert_eq!(r, r#"{"data":"{\"iface_name\":\"eth0\",\"state\":\"Stopped\"}"}"#);
    assert_eq!(reg.len(), 0);
    assert_eq!(serve(&mut reg, "dump"), r#"{"data":"[]"}"#);
    let r = serve(&mut reg, "stop eth0");
    assert_eq!(r, r#"{"data":"{\"iface_name\":\"eth0\",\"state\":\"Stopped\"}"}"#);
}

#[test]
fn dump_lists_every_live_worker() {
    let mut reg: Registry<String> = Registry::new();
    serve(&mut reg, "start eth0");
    serve(&mut reg, "start wlan0");
    let all = reg.query_all(&exchange_ok).unwrap();
    assert_eq!(all.len(), 2);
    assert!(all.iter().any(|s| s.iface_name == "eth0"));
    assert!(all.iter().any(|s| s.iface_name == "wlan0"));
    let r = serve(&mut reg, "dump ignored");
    assert_eq!(
        r,
        r#"{"data":"[{\"iface_name\":\"eth0\",\"state\":\"Requesting\"},{\"iface_name\":\"wlan0\",\"state\":\"Requesting\"}]"}"#
    );
    serve(&mut reg, "stop eth0");
    serve(&mut reg, "stop wlan0");
    assert_eq!(serve(&mut reg, "dump"), r#"{"data":"[]"}"#);
    assert_eq!(reg.len(), 0);
}

#[test]
fn ping_answers_pong() {
    let mut reg: Registry<String> = Registry::new();
    assert_eq!(serve(&mut reg, "ping"), r#"{"data":"pong"}"#);
}

#[test]
fn unknown_request_gets_error_reply() {
    let mut reg: Registry<String> = Registry::new();
    assert_eq!(
        serve(&mut reg, "bogus"),
        r#"{"error":{"kind":"invalid_ipc_command","msg":"Invalid command 'bogus'"}}"#
    );
}

#[test]
fn spawn_failure_passes_through() {
    let mut reg: Registry<String> = Registry::new();
    let r = handle_request("start eth0", &mut reg, &spawn_fails, &exchange_ok);
    assert_eq!(r, r#"{"error":{"kind":"ipc_error","msg":"no threads left"}}"#);
    assert_eq!(reg.len(), 0);
}

#[test]
fn broken_channel_is_a_bug() {
    let mut reg: Registry<String> = Registry::new();
    let r = handle_request("start eth0", &mut reg, &spawn_ok, &exchange_closed);
    assert!(r.starts_with(r#"{"error":{"kind":"mozim_bug","msg":"#));
    assert_eq!(reg.len(), 1);
    let r = handle_request("dump", &mut reg, &spawn_ok, &exchange_closed);
    assert!(r.contains("mozim_bug"));
}

#[test]
fn worker_step_stops_on_stop() {
    let s = worker_step("eth0", MozimDhcpCmd::StartDhcp);
    assert!(s.keep_running);
    assert_eq!(s.reply.unwrap(), r#"{"iface_name":"eth0","state":"Requesting"}"#);
    let s = worker_step("eth0", MozimDhcpCmd::QueryDhcp);
    assert!(s.keep_running);
    let s = worker_step("eth0", MozimDhcpCmd::StopDhcp);
    assert!(!s.keep_running);
    assert_eq!(s.reply.unwrap(), r#"{"iface_name":"eth0","state":"Stopped"}"#);
}
