use shim_dispatch::registry::ConnectionRegistry;
use shim_dispatch::status::{RemoteStatus, Status};
use shim_dispatch::task::{
    shim_v2_close, shim_v2_create, shim_v2_new, shim_v2_pause, shim_v2_pids, shim_v2_resume,
    shim_v2_state, shim_v2_wait, DeleteResponse, TaskClient,
};

struct ScriptedClient {
    pid: Result<i32, String>,
    unit: Result<(), String>,
    status: Result<RemoteStatus, String>,
}

impl ScriptedClient {
    fn ok() -> ScriptedClient {
        ScriptedClient { pid: Ok(1), unit: Ok(()), status: Ok(RemoteStatus::CreatedStatus) }
    }
}

impl TaskClient for ScriptedClient {
    fn create(
        &mut self,
        _container_id: &String,
        _bundle: &String,
        _terminal: bool,
        _stdin: &String,
        _stdout: &String,
        _stderr: &String,
    ) -> Result<i32, String> {
        self.pid.clone()
    }

    fn start(&mut self, _container_id: &String, _exec_id: &String) -> Result<i32, String> {
        self.pid.clone()
    }

    fn exec(
        &mut self,
        _container_id: &String,
        _exec_id: &String,
        _terminal: bool,
        _stdin: &String,
        _stdout: &String,
        _stderr: &String,
        _process_spec: &[u8],
    ) -> Result<(), String> {
        self.unit.clone()
    }

    fn resize_pty(
        &mut self,
        _container_id: &String,
        _exec_id: &String,
        _height: u32,
        _width: u32,
    ) -> Result<(), String> {
        self.unit.clone()
    }

    fn kill(
        &mut self,
        _container_id: &String,
        _exec_id: &String,
        _signal: u32,
        _all: bool,
    ) -> Result<(), String> {
        self.unit.clone()
    }

    fn delete(
        &mut self,
        _container_id: &String,
        _exec_id: &String,
    ) -> Result<DeleteResponse, String> {
        Ok(DeleteResponse::new())
    }

    fn shutdown(&mut self, _container_id: &String) -> Result<(), String> {
        self.unit.clone()
    }

    fn pause(&mut self, _container_id: &String) -> Result<(), String> {
        self.unit.clone()
    }

    fn resume(&mut self, _container_id: &String) -> Result<(), String> {
        self.unit.clone()
    }

    fn state(&mut self, _container_id: &String) -> Result<RemoteStatus, String> {
        self.status.clone()
    }

    fn pids(&mut self, _container_id: &String) -> Result<i32, String> {
        self.pid.clone()
    }

    fn wait(&mut self, _container_id: &String, _exec_id: &String) -> Result<i32, String> {
        self.pid.clone()
    }
}

fn connected(id: &str) -> ConnectionRegistry {
    let mut reg = ConnectionRegistry::new();
    shim_v2_new(&mut reg, &String::from(id), &String::from("unix:///s"), true);
    reg
}

#[test]
fn new_fails_on_a_failed_dial() {
    let mut reg = ConnectionRegistry::new();
    assert_eq!(shim_v2_new(&mut reg, &String::from("c1"), &String::from("unix:///s"), false), -1);
    assert_eq!(shim_v2_new(&mut reg, &String::from("c1"), &String::from("unix:///s"), true), 0);
}

#[test]
fn create_without_a_connection_leaves_the_pid_slot() {
    let reg = ConnectionRegistry::new();
    let mut client = ScriptedClient::ok();
    let mut pid: i32 = -1;
    let id = String::from("c1");
    let empty = String::new();
    let ret = shim_v2_create(&reg, &mut client, &id, &empty, false, &empty, &empty, &empty, &mut pid);
    assert_eq!(ret, -1);
    assert_eq!(pid, -1);
}

#[test]
fn create_with_a_connection_records_the_pid() {
    let reg = connected("c1");
    let mut client = ScriptedClient::ok();
    client.pid = Ok(4242);
    let mut pid: i32 = -1;
    let id = String::from("c1");
    let empty = String::new();
    let ret = shim_v2_create(&reg, &mut client, &id, &empty, false, &empty, &empty, &empty, &mut pid);
    assert_eq!(ret, 0);
    assert_eq!(pid, 4242);
}

#[test]
fn pause_and_resume_follow_the_remote_outcome() {
    let reg = connected("c1");
    let mut client = ScriptedClient::ok();
    let id = String::from("c1");
    assert_eq!(shim_v2_pause(&reg, &mut client, &id), 0);
    assert_eq!(shim_v2_resume(&reg, &mut client, &id), 0);
    client.unit = Err(String::from("frozen"));
    assert_eq!(shim_v2_pause(&reg, &mut client, &id), -1);
    assert_eq!(shim_v2_resume(&reg, &mut client, &id), -1);
}

#[test]
fn pids_records_the_reported_pid() {
    let reg = connected("c1");
    let mut client = ScriptedClient::ok();
    client.pid = Ok(9);
    let mut pid: i32 = -1;
    assert_eq!(shim_v2_pids(&reg, &mut client, &String::from("c1"), &mut pid), 0);
    assert_eq!(pid, 9);
}

#[test]
fn state_projects_the_remote_status() {
    let reg = connected("c1");
    let mut client = ScriptedClient::ok();
    client.status = Ok(RemoteStatus::PausingStatus);
    let mut state = Status::UnknownStatus;
    assert_eq!(shim_v2_state(&reg, &mut client, &String::from("c1"), &mut state), 0);
    assert_eq!(state, Status::PausingStatus);
}

#[test]
fn wait_failure_keeps_the_sentinel() {
    let reg = connected("c1");
    let mut client = ScriptedClient::ok();
    client.pid = Err(String::from("gone"));
    let mut exit_status: i32 = -1;
    let ret = shim_v2_wait(&reg, &mut client, &String::from("c1"), &String::new(), &mut exit_status);
    assert_eq!(ret, -1);
    assert_eq!(exit_status, -1);
}

#[test]
fn close_releases_the_connection_and_tolerates_absence() {
    let mut reg = connected("c1");
    assert_eq!(shim_v2_close(&mut reg, &String::from("c1")), 0);
    assert!(reg.get(&String::from("c1")).is_err());
    assert_eq!(shim_v2_close(&mut reg, &String::from("c1")), 0);
}
