//! The Task Client boundary and the per-operation dispatch layer. The Task
//! Client is an external collaborator: it performs the actual remote
//! operation over an established connection and is implemented outside this
//! layer. Each operation here looks the connection up in the registry, makes
//! the remote call if one is registered, and settles the call's outcome into
//! the caller's output slot; what is returned for each possible outcome is
//! pinned down by the `record_*` functions.

use vstd::prelude::*;

use crate::registry::ConnectionRegistry;
use crate::status::{project, RemoteStatus, Status};

verus! {

/// The external RPC facade used to perform operations against a connected
/// shim instance. Each operation blocks until the shim responds, and returns
/// either its typed success value or a failure reason. Nothing is assumed of
/// the outcomes: every caller in this layer states what holds whatever comes
/// back.
pub trait TaskClient {
    fn create(
        &mut self,
        container_id: &String,
        bundle: &String,
        terminal: bool,
        stdin: &String,
        stdout: &String,
        stderr: &String,
    ) -> Result<i32, String>;

    fn start(&mut self, container_id: &String, exec_id: &String) -> Result<i32, String>;

    fn exec(
        &mut self,
        container_id: &String,
        exec_id: &String,
        terminal: bool,
        stdin: &String,
        stdout: &String,
        stderr: &String,
        process_spec: &[u8],
    ) -> Result<(), String>;

    fn resize_pty(
        &mut self,
        container_id: &String,
        exec_id: &String,
        height: u32,
        width: u32,
    ) -> Result<(), String>;

    fn kill(
        &mut self,
        container_id: &String,
        exec_id: &String,
        signal: u32,
        all: bool,
    ) -> Result<(), String>;

    fn delete(&mut self, container_id: &String, exec_id: &String) -> Result<DeleteResponse, String>;

    fn shutdown(&mut self, container_id: &String) -> Result<(), String>;

    fn pause(&mut self, container_id: &String) -> Result<(), String>;

    fn resume(&mut self, container_id: &String) -> Result<(), String>;

    fn state(&mut self, container_id: &String) -> Result<RemoteStatus, String>;

    fn pids(&mut self, container_id: &String) -> Result<i32, String>;

    fn wait(&mut self, container_id: &String, exec_id: &String) -> Result<i32, String>;
}

/// The terminal accounting for a deleted process.
#[derive(Debug, PartialEq, Eq, Clone, Copy, Structural)]
pub struct DeleteResponse {
    pub exit_status: u32,
    pub pid: u32,
}

impl DeleteResponse {
    pub fn new() -> (r: DeleteResponse)
        ensures
            r.exit_status == 0,
            r.pid == 0,
    {
        DeleteResponse { exit_status: 0, pid: 0 }
    }
}

/// Settle an integer-valued remote outcome: on success the value lands in
/// the slot and 0 is returned; on failure the slot is untouched and -1 is
/// returned.
pub fn record_int(outcome: &Result<i32, String>, slot: &mut i32) -> (r: i32)
    ensures
        match outcome {
            Ok(v) => r == 0 && *final(slot) == v,
            Err(_) => r == -1 && *final(slot) == *old(slot),
        },
{
    match outcome {
        Ok(v) => {
            *slot = *v;
            0
        },
        Err(_) => -1,
    }
}

/// Settle a unit-valued remote outcome: 0 on success, -1 on failure.
pub fn record_unit(outcome: &Result<(), String>) -> (r: i32)
    ensures
        r == 0 <==> outcome is Ok,
        r == 0 || r == -1,
{
    match outcome {
        Ok(_) => 0,
        Err(_) => -1,
    }
}

/// Settle a delete outcome: on success the accounting lands in the slot.
pub fn record_delete(outcome: &Result<DeleteResponse, String>, slot: &mut DeleteResponse) -> (r:
    i32)
    ensures
        match outcome {
            Ok(d) => r == 0 && *final(slot) == d,
            Err(_) => r == -1 && *final(slot) == *old(slot),
        },
{
    match outcome {
        Ok(d) => {
            *slot = *d;
            0
        },
        Err(_) => -1,
    }
}

/// Settle a state outcome: on success the slot holds the projection of the
/// remote-reported status.
pub fn record_state(outcome: &Result<RemoteStatus, String>, slot: &mut Status) -> (r: i32)
    ensures
        match outcome {
            Ok(remote) => r == 0 && *final(slot) == project(*remote),
            Err(_) => r == -1 && *final(slot) == *old(slot),
        },
{
    match outcome {
        Ok(remote) => {
            *slot = Status::new(*remote);
            0
        },
        Err(_) => -1,
    }
}

/// Establish the connection for a container: the dial of the transport
/// happens outside, and `dial_ok` reports its outcome. 0 on success, -1 on
/// a failed dial, with the registry untouched.
pub fn shim_v2_new(
    reg: &mut ConnectionRegistry,
    container_id: &String,
    addr: &String,
    dial_ok: bool,
) -> (r: i32)
    requires
        old(reg).wf(),
        old(reg).spec_next_serial() < u64::MAX,
    ensures
        final(reg).wf(),
        r == 0 <==> dial_ok,
        r == 0 || r == -1,
        !dial_ok ==> *final(reg) == *old(reg),
        dial_ok ==> final(reg).spec_contains(container_id@),
        dial_ok ==> exists|c: crate::registry::Connection|
            #[trigger] final(reg).registered(container_id@, c) && c.address@ == addr@,
        forall|other: Seq<char>|
            other != container_id@ ==> final(reg).spec_contains(other) == old(reg).spec_contains(
                other,
            ),
{
    match reg.get_or_create(container_id, addr, dial_ok) {
        Ok(_) => 0,
        Err(_) => -1,
    }
}

/// Release the container's connection; always succeeds.
pub fn shim_v2_close(reg: &mut ConnectionRegistry, container_id: &String) -> (r: i32)
    requires
        old(reg).wf(),
    ensures
        final(reg).wf(),
        r == 0,
        !final(reg).spec_contains(container_id@),
        !old(reg).spec_contains(container_id@) ==> *final(reg) == *old(reg),
        forall|other: Seq<char>|
            other != container_id@ ==> final(reg).spec_contains(other) == old(reg).spec_contains(
                other,
            ),
{
    reg.remove(container_id);
    0
}

/// Create the container's init process; on success its pid lands in `pid`.
/// Without a registered connection no remote call is attempted.
pub fn shim_v2_create<C: TaskClient>(
    reg: &ConnectionRegistry,
    client: &mut C,
    container_id: &String,
    bundle: &String,
    terminal: bool,
    stdin: &String,
    stdout: &String,
    stderr: &String,
    pid: &mut i32,
) -> (r: i32)
    requires
        reg.wf(),
    ensures
        r == 0 || r == -1,
        !reg.spec_contains(container_id@) ==> r == -1,
        r == -1 ==> *final(pid) == *old(pid),
{
    match reg.get(container_id) {
        Ok(_conn) => {
            let outcome = client.create(container_id, bundle, terminal, stdin, stdout, stderr);
            record_int(&outcome, pid)
        },
        Err(_) => -1,
    }
}

/// Start the container's init process or a named exec session; on success
/// its pid lands in `pid`.
pub fn shim_v2_start<C: TaskClient>(
    reg: &ConnectionRegistry,
    client: &mut C,
    container_id: &String,
    exec_id: &String,
    pid: &mut i32,
) -> (r: i32)
    requires
        reg.wf(),
    ensures
        r == 0 || r == -1,
        !reg.spec_contains(container_id@) ==> r == -1,
        r == -1 ==> *final(pid) == *old(pid),
{
    match reg.get(container_id) {
        Ok(_conn) => {
            let outcome = client.start(container_id, exec_id);
            record_int(&outcome, pid)
        },
        Err(_) => -1,
    }
}

/// Deliver a signal to the container or one exec session.
pub fn shim_v2_kill<C: TaskClient>(
    reg: &ConnectionRegistry,
    client: &mut C,
    container_id: &String,
    exec_id: &String,
    signal: u32,
    all: bool,
) -> (r: i32)
    requires
        reg.wf(),
    ensures
        r == 0 || r == -1,
        !reg.spec_contains(container_id@) ==> r == -1,
{
    match reg.get(container_id) {
        Ok(_conn) => {
            let outcome = client.kill(container_id, exec_id, signal, all);
            record_unit(&outcome)
        },
        Err(_) => -1,
    }
}

/// Run a secondary process in the container.
pub fn shim_v2_exec<C: TaskClient>(
    reg: &ConnectionRegistry,
    client: &mut C,
    container_id: &String,
    exec_id: &String,
    terminal: bool,
    stdin: &String,
    stdout: &String,
    stderr: &String,
    process_spec: &String,
) -> (r: i32)
    requires
        reg.wf(),
    ensures
        r == 0 || r == -1,
        !reg.spec_contains(container_id@) ==> r == -1,
{
    match reg.get(container_id) {
        Ok(_conn) => {
            let outcome = client.exec(
                container_id,
                exec_id,
                terminal,
                stdin,
                stdout,
                stderr,
                process_spec.as_str().as_bytes(),
            );
            record_unit(&outcome)
        },
        Err(_) => -1,
    }
}

/// Resize the pty of the container or one exec session.
pub fn shim_v2_resize_pty<C: TaskClient>(
    reg: &ConnectionRegistry,
    client: &mut C,
    container_id: &String,
    exec_id: &String,
    height: u32,
    width: u32,
) -> (r: i32)
    requires
        reg.wf(),
    ensures
        r == 0 || r == -1,
        !reg.spec_contains(container_id@) ==> r == -1,
{
    match reg.get(container_id) {
        Ok(_conn) => {
            let outcome = client.resize_pty(container_id, exec_id, height, width);
            record_unit(&outcome)
        },
        Err(_) => -1,
    }
}

/// Delete the container or one exec session; on success the terminal
/// accounting lands in `resp`.
pub fn shim_v2_delete<C: TaskClient>(
    reg: &ConnectionRegistry,
    client: &mut C,
    container_id: &String,
    exec_id: &String,
    resp: &mut DeleteResponse,
) -> (r: i32)
    requires
        reg.wf(),
    ensures
        r == 0 || r == -1,
        !reg.spec_contains(container_id@) ==> r == -1,
        r == -1 ==> *final(resp) == *old(resp),
{
    match reg.get(container_id) {
        Ok(_conn) => {
            let outcome = client.delete(container_id, exec_id);
            record_delete(&outcome, resp)
        },
        Err(_) => -1,
    }
}

/// Ask the shim instance to shut down.
pub fn shim_v2_shutdown<C: TaskClient>(
    reg: &ConnectionRegistry,
    client: &mut C,
    container_id: &String,
) -> (r: i32)
    requires
        reg.wf(),
    ensures
        r == 0 || r == -1,
        !reg.spec_contains(container_id@) ==> r == -1,
{
    match reg.get(container_id) {
        Ok(_conn) => {
            let outcome = client.shutdown(container_id);
            record_unit(&outcome)
        },
        Err(_) => -1,
    }
}

/// Pause the container.
pub fn shim_v2_pause<C: TaskClient>(
    reg: &ConnectionRegistry,
    client: &mut C,
    container_id: &String,
) -> (r: i32)
    requires
        reg.wf(),
    ensures
        r == 0 || r == -1,
        !reg.spec_contains(container_id@) ==> r == -1,
{
    match reg.get(container_id) {
        Ok(_conn) => {
            let outcome = client.pause(container_id);
            record_unit(&outcome)
        },
        Err(_) => -1,
    }
}

/// Resume the paused container.
pub fn shim_v2_resume<C: TaskClient>(
    reg: &ConnectionRegistry,
    client: &mut C,
    container_id: &String,
) -> (r: i32)
    requires
        reg.wf(),
    ensures
        r == 0 || r == -1,
        !reg.spec_contains(container_id@) ==> r == -1,
{
    match reg.get(container_id) {
        Ok(_conn) => {
            let outcome = client.resume(container_id);
            record_unit(&outcome)
        },
        Err(_) => -1,
    }
}

/// Query the container's lifecycle state; on success the slot holds the
/// projection of the remote-reported status.
pub fn shim_v2_state<C: TaskClient>(
    reg: &ConnectionRegistry,
    client: &mut C,
    container_id: &String,
    state: &mut Status,
) -> (r: i32)
    requires
        reg.wf(),
    ensures
        r == 0 || r == -1,
        !reg.spec_contains(container_id@) ==> r == -1,
        r == -1 ==> *final(state) == *old(state),
{
    match reg.get(container_id) {
        Ok(_conn) => {
            let outcome = client.state(container_id);
            record_state(&outcome, state)
        },
        Err(_) => -1,
    }
}

/// Query the pid of the container's init process; on success it lands in
/// `pid`.
pub fn shim_v2_pids<C: TaskClient>(
    reg: &ConnectionRegistry,
    client: &mut C,
    container_id: &String,
    pid: &mut i32,
) -> (r: i32)
    requires
        reg.wf(),
    ensures
        r == 0 || r == -1,
        !reg.spec_contains(container_id@) ==> r == -1,
        r == -1 ==> *final(pid) == *old(pid),
{
    match reg.get(container_id) {
        Ok(_conn) => {
            let outcome = client.pids(container_id);
            record_int(&outcome, pid)
        },
        Err(_) => -1,
    }
}

/// Block until the container or one exec session exits; on success the exit
/// status lands in `exit_status`, which otherwise keeps its value.
pub fn shim_v2_wait<C: TaskClient>(
    reg: &ConnectionRegistry,
    client: &mut C,
    container_id: &String,
    exec_id: &String,
    exit_status: &mut i32,
) -> (r: i32)
    requires
        reg.wf(),
    ensures
        r == 0 || r == -1,
        !reg.spec_contains(container_id@) ==> r == -1,
        r == -1 ==> *final(exit_status) == *old(exit_status),
{
    match reg.get(container_id) {
        Ok(_conn) => {
            let outcome = client.wait(container_id, exec_id);
            record_int(&outcome, exit_status)
        },
        Err(_) => -1,
    }
}

} // verus!
