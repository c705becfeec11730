use shim_dispatch::json::parse_request;
use shim_dispatch::registry::ConnectionRegistry;
use shim_dispatch::router::{
    decode_request, effective_bundle, execute_command, global_commands, lookup_command, cmd_init,
    CommandKind, Request,
};
use shim_dispatch::resolver::SpawnEvent;
use shim_dispatch::status::RemoteStatus;
use shim_dispatch::task::{DeleteResponse, TaskClient};
use shim_dispatch::CmdError;

struct MockClient {
    pid: Result<i32, String>,
    unit: Result<(), String>,
    del: Result<DeleteResponse, String>,
    status: Result<RemoteStatus, String>,
    calls: u32,
    forbid_calls: bool,
}

impl MockClient {
    fn ok() -> MockClient {
        MockClient {
            pid: Ok(0),
            unit: Ok(()),
            del: Ok(DeleteResponse::new()),
            status: Ok(RemoteStatus::UnknownStatus),
            calls: 0,
            forbid_calls: false,
        }
    }

    fn forbidding() -> MockClient {
        let mut c = MockClient::ok();
        c.forbid_calls = true;
        c
    }

    fn touch(&mut self) {
        if self.forbid_calls {
            panic!("a remote call was attempted");
        }
        self.calls += 1;
    }
}

impl TaskClient for MockClient {
    fn create(
        &mut self,
        _container_id: &String,
        _bundle: &String,
        _terminal: bool,
        _stdin: &String,
        _stdout: &String,
        _stderr: &String,
    ) -> Result<i32, String> {
        self.touch();
        self.pid.clone()
    }

    fn start(&mut self, _container_id: &String, _exec_id: &String) -> Result<i32, String> {
        self.touch();
        self.pid.clone()
    }

    fn exec(
        &mut self,
        _container_id: &String,
        _exec_id: &String,
        _terminal: bool,
        _stdin: &String,
        _stdout: &String,
        _stderr: &String,
        _process_spec: &[u8],
    ) -> Result<(), String> {
        self.touch();
        self.unit.clone()
    }

    fn resize_pty(
        &mut self,
        _container_id: &String,
        _exec_id: &String,
        _height: u32,
        _width: u32,
    ) -> Result<(), String> {
        self.touch();
        self.unit.clone()
    }

    fn kill(
        &mut self,
        _container_id: &String,
        _exec_id: &String,
        _signal: u32,
        _all: bool,
    ) -> Result<(), String> {
        self.touch();
        self.unit.clone()
    }

    fn delete(
        &mut self,
        _container_id: &String,
        _exec_id: &String,
    ) -> Result<DeleteResponse, String> {
        self.touch();
        self.del.clone()
    }

    fn shutdown(&mut self, _container_id: &String) -> Result<(), String> {
        self.touch();
        self.unit.clone()
    }

    fn pause(&mut self, _container_id: &String) -> Result<(), String> {
        self.touch();
        self.unit.clone()
    }

    fn resume(&mut self, _container_id: &String) -> Result<(), String> {
        self.touch();
        self.unit.clone()
    }

    fn state(&mut self, _container_id: &String) -> Result<RemoteStatus, String> {
        self.touch();
        self.status.clone()
    }

    fn pids(&mut self, _container_id: &String) -> Result<i32, String> {
        self.touch();
        self.pid.clone()
    }

    fn wait(&mut self, _container_id: &String, _exec_id: &String) -> Result<i32, String> {
        self.touch();
        self.pid.clone()
    }
}

fn decoded(kind: CommandKind, argv: &str) -> Request {
    let fields = parse_request(argv).expect("valid JSON");
    decode_request(kind, &fields).expect("required fields present")
}

#[test]
fn create_reports_the_pid_with_a_non_negative_result() {
    let req = decoded(
        CommandKind::Create,
        "{\"container_id\":\"c1\",\"bundle\":\"/b\",\"terminal\":false}",
    );
    assert_eq!(effective_bundle(&req), "/b");
    let mut reg = ConnectionRegistry::new();
    let mut client = MockClient::ok();
    client.pid = Ok(4242);
    let addr_file = Some(String::from("unix:///run/shim.sock"));
    let outcome = execute_command(&req, &addr_file, true, &mut reg, &mut client);
    assert!(outcome.code >= 0);
    assert_eq!(outcome.code, 1);
    assert_eq!(outcome.output, Some(String::from("4242")));
    assert_eq!(outcome.pid, Some(4242));
    assert_eq!(outcome.write, None);
    assert_eq!(client.calls, 1);
}

#[test]
fn status_prints_the_serialized_running_status() {
    let req = decoded(CommandKind::StatusQuery, "{\"container_id\":\"c1\"}");
    let mut reg = ConnectionRegistry::new();
    let mut client = MockClient::ok();
    client.status = Ok(RemoteStatus::RunningStatus);
    let addr_file = Some(String::from("unix:///run/shim.sock"));
    let outcome = execute_command(&req, &addr_file, true, &mut reg, &mut client);
    assert_eq!(outcome.code, 0);
    assert_eq!(outcome.output, Some(String::from("\"Running\"")));
    assert_eq!(outcome.status, Some(shim_dispatch::status::Status::RunningStatus));
}

#[test]
fn delete_prints_exactly_the_two_accounting_fields() {
    let req = decoded(CommandKind::Delete, "{\"container_id\":\"c1\",\"exec_id\":\"\"}");
    let mut reg = ConnectionRegistry::new();
    let mut client = MockClient::ok();
    client.del = Ok(DeleteResponse { exit_status: 137, pid: 4242 });
    let addr_file = Some(String::from("unix:///run/shim.sock"));
    let outcome = execute_command(&req, &addr_file, true, &mut reg, &mut client);
    assert_eq!(outcome.code, 1);
    assert_eq!(outcome.output, Some(String::from("{\"exit_status\":137,\"pid\":4242}")));
    assert_eq!(outcome.deleted, Some(DeleteResponse { exit_status: 137, pid: 4242 }));
}

#[test]
fn status_with_absent_address_file_makes_no_remote_call() {
    let req = decoded(CommandKind::StatusQuery, "{\"container_id\":\"c1\"}");
    let mut reg = ConnectionRegistry::new();
    let mut client = MockClient::forbidding();
    let outcome = execute_command(&req, &None, true, &mut reg, &mut client);
    assert!(outcome.code < 0);
    assert_eq!(outcome.output, None);
    assert_eq!(reg.get(&String::from("c1")).unwrap_err(), CmdError::NotFound);
}

#[test]
fn wait_without_a_registered_connection_keeps_the_sentinel() {
    let req = decoded(CommandKind::Wait, "{\"container_id\":\"c1\"}");
    let mut reg = ConnectionRegistry::new();
    let mut client = MockClient::forbidding();
    let outcome = execute_command(&req, &Some(String::from("unix:///s")), false, &mut reg, &mut client);
    assert!(outcome.code < 0);
    assert_eq!(outcome.exit_status, -1);
    assert_eq!(outcome.output, None);
}

#[test]
fn wait_success_carries_the_exit_status() {
    let req = decoded(CommandKind::Wait, "{\"container_id\":\"c1\"}");
    let mut reg = ConnectionRegistry::new();
    let mut client = MockClient::ok();
    client.pid = Ok(3);
    let outcome = execute_command(&req, &Some(String::from("unix:///s")), true, &mut reg, &mut client);
    assert_eq!(outcome.code, 0);
    assert_eq!(outcome.exit_status, 3);
}

#[test]
fn start_with_a_bundle_persists_the_pid() {
    let req = decoded(
        CommandKind::Start,
        "{\"container_id\":\"c1\",\"exec_id\":\"\",\"bundle\":\"/b\"}",
    );
    let mut reg = ConnectionRegistry::new();
    let mut client = MockClient::ok();
    client.pid = Ok(77);
    let outcome = execute_command(&req, &Some(String::from("unix:///s")), true, &mut reg, &mut client);
    assert_eq!(outcome.code, 1);
    assert_eq!(outcome.pid, Some(77));
    let write = outcome.write.expect("pid persisted");
    assert_eq!(write.path, "/b/shim_v2_pid");
    assert_eq!(write.contents, "77");
}

#[test]
fn start_without_a_bundle_writes_nothing() {
    let req = decoded(CommandKind::Start, "{\"container_id\":\"c1\"}");
    assert_eq!(effective_bundle(&req), "/var/lib/isulad/engines/remote/c1");
    let mut reg = ConnectionRegistry::new();
    let mut client = MockClient::ok();
    client.pid = Ok(77);
    let outcome = execute_command(&req, &Some(String::from("unix:///s")), true, &mut reg, &mut client);
    assert_eq!(outcome.code, 0);
    assert_eq!(outcome.write, None);
}

#[test]
fn remote_failure_prints_nothing_and_is_negative() {
    let req = decoded(CommandKind::Delete, "{\"container_id\":\"c1\"}");
    let mut reg = ConnectionRegistry::new();
    let mut client = MockClient::ok();
    client.del = Err(String::from("no such container"));
    let outcome = execute_command(&req, &Some(String::from("unix:///s")), true, &mut reg, &mut client);
    assert_eq!(outcome.code, -1);
    assert_eq!(outcome.output, None);
}

#[test]
fn unit_commands_succeed_with_zero() {
    let mut reg = ConnectionRegistry::new();
    let mut client = MockClient::ok();
    let addr = Some(String::from("unix:///s"));
    for (kind, argv) in [
        (CommandKind::Exec, "{\"container_id\":\"c1\",\"spec\":\"{}\"}"),
        (CommandKind::Resize, "{\"container_id\":\"c1\",\"height\":24,\"width\":80}"),
        (CommandKind::Kill, "{\"container_id\":\"c1\",\"signal\":9,\"all\":true}"),
        (CommandKind::Shutdown, "{\"container_id\":\"c1\"}"),
    ] {
        let req = decoded(kind, argv);
        let outcome = execute_command(&req, &addr, true, &mut reg, &mut client);
        assert_eq!(outcome.code, 0);
        assert_eq!(outcome.output, None);
        assert_eq!(outcome.write, None);
    }
    assert_eq!(client.calls, 4);
}

#[test]
fn missing_required_fields_are_a_decode_error() {
    let fields = parse_request("{\"bundle\":\"/b\"}").unwrap();
    assert_eq!(decode_request(CommandKind::Create, &fields).unwrap_err(), CmdError::DecodeError);
    let fields = parse_request("{\"container_id\":\"c1\"}").unwrap();
    assert_eq!(decode_request(CommandKind::Create, &fields).unwrap_err(), CmdError::DecodeError);
    assert_eq!(decode_request(CommandKind::Init, &fields).unwrap_err(), CmdError::DecodeError);
    assert_eq!(decode_request(CommandKind::Exec, &fields).unwrap_err(), CmdError::DecodeError);
    assert!(decode_request(CommandKind::Wait, &fields).is_ok());
}

#[test]
fn malformed_request_text_fails_to_parse() {
    assert!(parse_request("not json").is_none());
    assert!(parse_request("").is_none());
}

#[test]
fn parsed_fields_reflect_the_request_text() {
    let fields = parse_request(
        "{\"container_id\":\"c9\",\"terminal\":true,\"height\":24,\"exec_id\":\"e1\"}",
    )
    .unwrap();
    assert_eq!(fields.container_id, Some(String::from("c9")));
    assert_eq!(fields.terminal, Some(true));
    assert_eq!(fields.height, Some(24));
    assert_eq!(fields.exec_id, Some(String::from("e1")));
    assert_eq!(fields.bundle, None);
    assert_eq!(fields.all, None);
}

#[test]
fn numeric_fields_truncate_to_the_operation_width() {
    let fields = parse_request("{\"container_id\":\"c1\",\"height\":4294967297}").unwrap();
    let req = decode_request(CommandKind::Resize, &fields).unwrap();
    match req {
        Request::Resize { height, width, .. } => {
            assert_eq!(height, 1);
            assert_eq!(width, 0);
        }
        _ => panic!("decoded to the wrong request"),
    }
}

#[test]
fn command_table_and_lookup() {
    let table = global_commands();
    assert_eq!(table.len(), 10);
    let names: Vec<&str> = table.iter().map(|c| c.name).collect();
    assert_eq!(
        names,
        ["init", "create", "start", "exec", "resize", "status", "wait", "delete", "shutdown",
            "kill"]
    );
    for c in table.iter() {
        assert_eq!(lookup_command(c.name), Some(c.kind));
    }
    assert_eq!(lookup_command("pause"), None);
    assert_eq!(lookup_command(""), None);
}

#[test]
fn init_persists_the_discovered_address() {
    let bundle = String::from("/b");
    let outcome = cmd_init(&bundle, &SpawnEvent::Output(b"unix:///run/c1.sock".to_vec()));
    assert_eq!(outcome.code, 1);
    let write = outcome.write.expect("address persisted");
    assert_eq!(write.path, "/b/shim_v2_socket");
    assert_eq!(write.contents, "unix:///run/c1.sock");

    let failed = cmd_init(&bundle, &SpawnEvent::Failed);
    assert_eq!(failed.code, -1);
    assert_eq!(failed.write, None);
}
