//! Command Router: the top-level entry point. One handler per command name;
//! each decodes a fixed field set from the request, derives the bundle path,
//! obtains a connection through the registry, invokes the matching Task
//! Client operation and renders the result. The filesystem reads and writes,
//! the process spawn and the transport dial happen outside; their outcomes
//! are handed in as plain values and every decision over them is verified.

use vstd::prelude::*;
use vstd::string::*;
use vstd::utf8::{decode_utf8, valid_utf8};

use crate::json::RawFields;
use crate::registry::ConnectionRegistry;
use crate::render::{render_delete, render_i32};
use crate::resolver::{
    default_bundle, pid_file_path, resolve_address, shim_v2_init, spec_resolve,
    SpawnEvent,
};
use crate::status::{spec_status_label, Status};
use crate::task::{
    shim_v2_create, shim_v2_delete, shim_v2_exec, shim_v2_kill, shim_v2_new, shim_v2_resize_pty,
    shim_v2_shutdown, shim_v2_start, shim_v2_state, shim_v2_wait, DeleteResponse, TaskClient,
};
use crate::{CmdError, FileWrite};

verus! {

/// The closed set of command names this layer recognizes.
#[derive(Debug, PartialEq, Eq, Clone, Copy, Structural)]
pub enum CommandKind {
    Init,
    Create,
    Start,
    Exec,
    Resize,
    Kill,
    Wait,
    StatusQuery,
    Delete,
    Shutdown,
}

/// One entry of the command table: a command name and what it dispatches to.
pub struct Command {
    pub name: &'static str,
    pub kind: CommandKind,
}

/// Which command a name dispatches to.
pub open spec fn spec_lookup(name: Seq<char>) -> Option<CommandKind> {
    if name == "init"@ {
        Option::Some(CommandKind::Init)
    } else if name == "create"@ {
        Option::Some(CommandKind::Create)
    } else if name == "start"@ {
        Option::Some(CommandKind::Start)
    } else if name == "exec"@ {
        Option::Some(CommandKind::Exec)
    } else if name == "resize"@ {
        Option::Some(CommandKind::Resize)
    } else if name == "status"@ {
        Option::Some(CommandKind::StatusQuery)
    } else if name == "wait"@ {
        Option::Some(CommandKind::Wait)
    } else if name == "delete"@ {
        Option::Some(CommandKind::Delete)
    } else if name == "shutdown"@ {
        Option::Some(CommandKind::Shutdown)
    } else if name == "kill"@ {
        Option::Some(CommandKind::Kill)
    } else {
        Option::None
    }
}

fn str_eq(a: &str, b: &str) -> (r: bool)
    ensures
        r == (a@ == b@),
{
    String::from_str(a).eq(&String::from_str(b))
}

/// Resolve a command name to the command it dispatches to.
pub fn lookup_command(name: &str) -> (r: Option<CommandKind>)
    ensures
        r == spec_lookup(name@),
{
    if str_eq(name, "init") {
        Option::Some(CommandKind::Init)
    } else if str_eq(name, "create") {
        Option::Some(CommandKind::Create)
    } else if str_eq(name, "start") {
        Option::Some(CommandKind::Start)
    } else if str_eq(name, "exec") {
        Option::Some(CommandKind::Exec)
    } else if str_eq(name, "resize") {
        Option::Some(CommandKind::Resize)
    } else if str_eq(name, "status") {
        Option::Some(CommandKind::StatusQuery)
    } else if str_eq(name, "wait") {
        Option::Some(CommandKind::Wait)
    } else if str_eq(name, "delete") {
        Option::Some(CommandKind::Delete)
    } else if str_eq(name, "shutdown") {
        Option::Some(CommandKind::Shutdown)
    } else if str_eq(name, "kill") {
        Option::Some(CommandKind::Kill)
    } else {
        Option::None
    }
}

/// The command table, in dispatch order.
pub fn global_commands() -> (r: Vec<Command>)
    ensures
        r@.len() == 10,
        r@[0].name@ == "init"@ && r@[0].kind == CommandKind::Init,
        r@[1].name@ == "create"@ && r@[1].kind == CommandKind::Create,
        r@[2].name@ == "start"@ && r@[2].kind == CommandKind::Start,
        r@[3].name@ == "exec"@ && r@[3].kind == CommandKind::Exec,
        r@[4].name@ == "resize"@ && r@[4].kind == CommandKind::Resize,
        r@[5].name@ == "status"@ && r@[5].kind == CommandKind::StatusQuery,
        r@[6].name@ == "wait"@ && r@[6].kind == CommandKind::Wait,
        r@[7].name@ == "delete"@ && r@[7].kind == CommandKind::Delete,
        r@[8].name@ == "shutdown"@ && r@[8].kind == CommandKind::Shutdown,
        r@[9].name@ == "kill"@ && r@[9].kind == CommandKind::Kill,
{
    let mut v: Vec<Command> = Vec::new();
    v.push(Command { name: "init", kind: CommandKind::Init });
    v.push(Command { name: "create", kind: CommandKind::Create });
    v.push(Command { name: "start", kind: CommandKind::Start });
    v.push(Command { name: "exec", kind: CommandKind::Exec });
    v.push(Command { name: "resize", kind: CommandKind::Resize });
    v.push(Command { name: "status", kind: CommandKind::StatusQuery });
    v.push(Command { name: "wait", kind: CommandKind::Wait });
    v.push(Command { name: "delete", kind: CommandKind::Delete });
    v.push(Command { name: "shutdown", kind: CommandKind::Shutdown });
    v.push(Command { name: "kill", kind: CommandKind::Kill });
    v
}

/// A decoded, typed command request, fields defaulted where the command's
/// table says so.
#[derive(Debug)]
pub enum Request {
    Init { container_id: String, bundle: String, exit_fifo_dir: String },
    Create {
        container_id: String,
        bundle: String,
        terminal: bool,
        stdin: String,
        stdout: String,
        stderr: String,
    },
    Start { container_id: String, exec_id: String, bundle: String },
    Exec {
        container_id: String,
        exec_id: String,
        terminal: bool,
        stdin: String,
        stdout: String,
        stderr: String,
        process_spec: String,
    },
    Resize { container_id: String, exec_id: String, height: u32, width: u32 },
    Kill { container_id: String, exec_id: String, signal: u32, all: bool },
    Wait { container_id: String, exec_id: String },
    StatusQuery { container_id: String },
    Delete { container_id: String, exec_id: String },
    Shutdown { container_id: String },
}

/// An optional string field's effective value: its text, or empty when the
/// field is absent.
pub open spec fn str_or_empty(o: Option<String>) -> Seq<char> {
    match o {
        Option::Some(s) => s@,
        Option::None => Seq::empty(),
    }
}

/// An optional boolean field's effective value: false when absent.
pub open spec fn bool_or_false(o: Option<bool>) -> bool {
    match o {
        Option::Some(b) => b,
        Option::None => false,
    }
}

/// An optional numeric field's effective value: zero when absent.
pub open spec fn dim_or_zero(o: Option<u64>) -> u32 {
    match o {
        Option::Some(x) => x as u32,
        Option::None => 0u32,
    }
}

fn take_str(o: &Option<String>) -> (r: String)
    ensures
        r@ == str_or_empty(*o),
{
    match o {
        Option::Some(s) => s.clone(),
        Option::None => String::new(),
    }
}

fn take_bool(o: &Option<bool>) -> (r: bool)
    ensures
        r == bool_or_false(*o),
{
    match o {
        Option::Some(b) => *b,
        Option::None => false,
    }
}

fn take_dim(o: &Option<u64>) -> (r: u32)
    ensures
        r == dim_or_zero(*o),
{
    match o {
        Option::Some(x) => #[verifier::truncate] (*x as u32),
        Option::None => 0,
    }
}

/// The required fields of each command are all present.
pub open spec fn required_ok(kind: CommandKind, fields: RawFields) -> bool {
    match kind {
        CommandKind::Init => fields.container_id is Some && fields.bundle is Some
            && fields.exit_fifo_dir is Some,
        CommandKind::Create => fields.container_id is Some && fields.bundle is Some,
        CommandKind::Exec => fields.container_id is Some && fields.process_spec is Some,
        _ => fields.container_id is Some,
    }
}

/// The decoded request carries exactly the command's field set, required
/// fields as given, optional fields defaulted.
pub open spec fn req_matches(kind: CommandKind, req: Request, fields: RawFields) -> bool {
    match kind {
        CommandKind::Init => req matches Request::Init { container_id, bundle, exit_fifo_dir }
            && container_id@ == str_or_empty(fields.container_id) && bundle@ == str_or_empty(
            fields.bundle,
        ) && exit_fifo_dir@ == str_or_empty(fields.exit_fifo_dir),
        CommandKind::Create => req matches Request::Create {
            container_id,
            bundle,
            terminal,
            stdin,
            stdout,
            stderr,
        } && container_id@ == str_or_empty(fields.container_id) && bundle@ == str_or_empty(
            fields.bundle,
        ) && terminal == bool_or_false(fields.terminal) && stdin@ == str_or_empty(fields.stdin)
            && stdout@ == str_or_empty(fields.stdout) && stderr@ == str_or_empty(fields.stderr),
        CommandKind::Start => req matches Request::Start { container_id, exec_id, bundle }
            && container_id@ == str_or_empty(fields.container_id) && exec_id@ == str_or_empty(
            fields.exec_id,
        ) && bundle@ == str_or_empty(fields.bundle),
        CommandKind::Exec => req matches Request::Exec {
            container_id,
            exec_id,
            terminal,
            stdin,
            stdout,
            stderr,
            process_spec,
        } && container_id@ == str_or_empty(fields.container_id) && exec_id@ == str_or_empty(
            fields.exec_id,
        ) && terminal == bool_or_false(fields.terminal) && stdin@ == str_or_empty(fields.stdin)
            && stdout@ == str_or_empty(fields.stdout) && stderr@ == str_or_empty(fields.stderr)
            && process_spec@ == str_or_empty(fields.process_spec),
        CommandKind::Resize => req matches Request::Resize { container_id, exec_id, height, width }
            && container_id@ == str_or_empty(fields.container_id) && exec_id@ == str_or_empty(
            fields.exec_id,
        ) && height == dim_or_zero(fields.height) && width == dim_or_zero(fields.width),
        CommandKind::Kill => req matches Request::Kill { container_id, exec_id, signal, all }
            && container_id@ == str_or_empty(fields.container_id) && exec_id@ == str_or_empty(
            fields.exec_id,
        ) && signal == dim_or_zero(fields.signal) && all == bool_or_false(fields.all),
        CommandKind::Wait => req matches Request::Wait { container_id, exec_id } && container_id@
            == str_or_empty(fields.container_id) && exec_id@ == str_or_empty(fields.exec_id),
        CommandKind::StatusQuery => req matches Request::StatusQuery { container_id }
            && container_id@ == str_or_empty(fields.container_id),
        CommandKind::Delete => req matches Request::Delete { container_id, exec_id }
            && container_id@ == str_or_empty(fields.container_id) && exec_id@ == str_or_empty(
            fields.exec_id,
        ),
        CommandKind::Shutdown => req matches Request::Shutdown { container_id } && container_id@
            == str_or_empty(fields.container_id),
    }
}

/// Decode one command's field set into its typed request. Fails with
/// `DecodeError` exactly when a required field is absent; optional fields
/// default per the command's table. No remote call is made on a decode
/// failure.
pub fn decode_request(kind: CommandKind, fields: &RawFields) -> (r: Result<Request, CmdError>)
    ensures
        r is Ok <==> required_ok(kind, *fields),
        r matches Err(e) ==> e == CmdError::DecodeError,
        r matches Ok(req) ==> req_matches(kind, req, *fields),
{
    if fields.container_id.is_none() {
        return Err(CmdError::DecodeError);
    }
    match kind {
        CommandKind::Init => {
            if fields.bundle.is_none() || fields.exit_fifo_dir.is_none() {
                return Err(CmdError::DecodeError);
            }
            Ok(
                Request::Init {
                    container_id: take_str(&fields.container_id),
                    bundle: take_str(&fields.bundle),
                    exit_fifo_dir: take_str(&fields.exit_fifo_dir),
                },
            )
        },
        CommandKind::Create => {
            if fields.bundle.is_none() {
                return Err(CmdError::DecodeError);
            }
            Ok(
                Request::Create {
                    container_id: take_str(&fields.container_id),
                    bundle: take_str(&fields.bundle),
                    terminal: take_bool(&fields.terminal),
                    stdin: take_str(&fields.stdin),
                    stdout: take_str(&fields.stdout),
                    stderr: take_str(&fields.stderr),
                },
            )
        },
        CommandKind::Start => Ok(
            Request::Start {
                container_id: take_str(&fields.container_id),
                exec_id: take_str(&fields.exec_id),
                bundle: take_str(&fields.bundle),
            },
        ),
        CommandKind::Exec => {
            if fields.process_spec.is_none() {
                return Err(CmdError::DecodeError);
            }
            Ok(
                Request::Exec {
                    container_id: take_str(&fields.container_id),
                    exec_id: take_str(&fields.exec_id),
                    terminal: take_bool(&fields.terminal),
                    stdin: take_str(&fields.stdin),
                    stdout: take_str(&fields.stdout),
                    stderr: take_str(&fields.stderr),
                    process_spec: take_str(&fields.process_spec),
                },
            )
        },
        CommandKind::Resize => Ok(
            Request::Resize {
                container_id: take_str(&fields.container_id),
                exec_id: take_str(&fields.exec_id),
                height: take_dim(&fields.height),
                width: take_dim(&fields.width),
            },
        ),
        CommandKind::Kill => Ok(
            Request::Kill {
                container_id: take_str(&fields.container_id),
                exec_id: take_str(&fields.exec_id),
                signal: take_dim(&fields.signal),
                all: take_bool(&fields.all),
            },
        ),
        CommandKind::Wait => Ok(
            Request::Wait {
                container_id: take_str(&fields.container_id),
                exec_id: take_str(&fields.exec_id),
            },
        ),
        CommandKind::StatusQuery => Ok(
            Request::StatusQuery { container_id: take_str(&fields.container_id) },
        ),
        CommandKind::Delete => Ok(
            Request::Delete {
                container_id: take_str(&fields.container_id),
                exec_id: take_str(&fields.exec_id),
            },
        ),
        CommandKind::Shutdown => Ok(
            Request::Shutdown { container_id: take_str(&fields.container_id) },
        ),
    }
}

/// The container ID a request names.
pub open spec fn spec_request_id(req: Request) -> Seq<char> {
    match req {
        Request::Init { container_id, .. } => container_id@,
        Request::Create { container_id, .. } => container_id@,
        Request::Start { container_id, .. } => container_id@,
        Request::Exec { container_id, .. } => container_id@,
        Request::Resize { container_id, .. } => container_id@,
        Request::Kill { container_id, .. } => container_id@,
        Request::Wait { container_id, .. } => container_id@,
        Request::StatusQuery { container_id, .. } => container_id@,
        Request::Delete { container_id, .. } => container_id@,
        Request::Shutdown { container_id, .. } => container_id@,
    }
}

/// The container ID a request names.
pub fn request_id<'a>(req: &'a Request) -> (r: &'a String)
    ensures
        r@ == spec_request_id(*req),
{
    match req {
        Request::Init { container_id, .. } => container_id,
        Request::Create { container_id, .. } => container_id,
        Request::Start { container_id, .. } => container_id,
        Request::Exec { container_id, .. } => container_id,
        Request::Resize { container_id, .. } => container_id,
        Request::Kill { container_id, .. } => container_id,
        Request::Wait { container_id, .. } => container_id,
        Request::StatusQuery { container_id, .. } => container_id,
        Request::Delete { container_id, .. } => container_id,
        Request::Shutdown { container_id, .. } => container_id,
    }
}

/// The bundle directory the fixed root convention derives for a container.
pub open spec fn spec_default_bundle(id: Seq<char>) -> Seq<char> {
    "/var/lib/isulad/engines/remote/"@ + id
}

/// The bundle directory a command works in: the explicit field where the
/// command carries one, else the fixed root joined with the container ID.
pub open spec fn spec_effective_bundle(req: Request) -> Seq<char> {
    match req {
        Request::Init { bundle, .. } => bundle@,
        Request::Create { bundle, .. } => bundle@,
        Request::Start { container_id, bundle, .. } => if bundle@.len() > 0 {
            bundle@
        } else {
            spec_default_bundle(container_id@)
        },
        _ => spec_default_bundle(spec_request_id(req)),
    }
}

/// Derive the bundle directory a request works in.
pub fn effective_bundle(req: &Request) -> (r: String)
    ensures
        r@ == spec_effective_bundle(*req),
{
    match req {
        Request::Init { bundle, .. } => bundle.clone(),
        Request::Create { bundle, .. } => bundle.clone(),
        Request::Start { container_id, bundle, .. } => {
            if !bundle.as_str().is_empty() {
                bundle.clone()
            } else {
                default_bundle(container_id)
            }
        },
        _ => default_bundle(request_id(req)),
    }
}

/// What one command invocation came to: the caller-visible return code, the
/// structured output to print (only on confirmed success), the file to write
/// if any, and the wait result (default sentinel -1 when unknown).
#[derive(Debug, PartialEq, Eq)]
pub struct CommandOutcome {
    pub code: i32,
    pub output: Option<String>,
    pub write: Option<FileWrite>,
    pub exit_status: i32,
    pub pid: Option<i32>,
    pub status: Option<Status>,
    pub deleted: Option<DeleteResponse>,
}

/// A plain outcome: only a return code, nothing printed or written, the wait
/// result at its sentinel.
pub open spec fn spec_plain_outcome(code: i32) -> CommandOutcome {
    CommandOutcome {
        code,
        output: Option::None,
        write: Option::None,
        exit_status: -1 as i32,
        pid: Option::None,
        status: Option::None,
        deleted: Option::None,
    }
}

/// The failure outcome every aborted command yields: a negative result,
/// nothing printed, nothing written.
pub open spec fn spec_failed_outcome() -> CommandOutcome {
    spec_plain_outcome(-1 as i32)
}

fn failed_outcome() -> (r: CommandOutcome)
    ensures
        r == spec_failed_outcome(),
{
    CommandOutcome {
        code: -1,
        output: Option::None,
        write: Option::None,
        exit_status: -1,
        pid: Option::None,
        status: Option::None,
        deleted: Option::None,
    }
}

/// Discover and persist the shim address for a container: the outcome of the
/// spawn is handed in, and on success the persisted file carries the address
/// exactly as captured from the child's output.
pub fn cmd_init(bundle: &String, spawn: &SpawnEvent) -> (r: CommandOutcome)
    ensures
        r.code == 1 || r.code == -1,
        r.output is None,
        r.exit_status == -1,
        r.code == -1 ==> r == spec_failed_outcome(),
        spawn is Failed ==> r == spec_failed_outcome(),
        spawn matches SpawnEvent::Output(b) ==> (!valid_utf8(b@) ==> r == spec_failed_outcome()),
        spawn matches SpawnEvent::Output(b) ==> (valid_utf8(b@) ==> r.code == 1 && (
        r.write matches Some(w) && w.path@ == bundle@ + "/shim_v2_socket"@ && w.contents@
            == decode_utf8(b@))),
{
    match shim_v2_init(bundle, spawn) {
        Ok(w) => CommandOutcome {
            code: 1,
            output: Option::None,
            write: Option::Some(w),
            exit_status: -1,
            pid: Option::None,
            status: Option::None,
            deleted: Option::None,
        },
        Err(_) => failed_outcome(),
    }
}

/// Create the container: on success the reported pid is printed and the
/// result is non-negative; on any failure nothing is printed.
pub fn cmd_create<C: TaskClient>(
    reg: &ConnectionRegistry,
    client: &mut C,
    container_id: &String,
    bundle: &String,
    terminal: bool,
    stdin: &String,
    stdout: &String,
    stderr: &String,
) -> (r: CommandOutcome)
    requires
        reg.wf(),
    ensures
        r.code == 1 || r.code == -1,
        !reg.spec_contains(container_id@) ==> r == spec_failed_outcome(),
        r.code == -1 ==> r == spec_failed_outcome(),
        r.code == 1 ==> (r.pid matches Some(p) && r.output matches Some(o) && o@
            == crate::render::spec_decimal_i32(p as int)) && r.write is None && r.exit_status
            == -1,
{
    let mut pid: i32 = -1;
    let ret = shim_v2_create(reg, client, container_id, bundle, terminal, stdin, stdout, stderr, &mut pid);
    if ret == 0 {
        CommandOutcome {
            code: 1,
            output: Option::Some(render_i32(pid)),
            write: Option::None,
            exit_status: -1,
            pid: Option::Some(pid),
            status: Option::None,
            deleted: Option::None,
        }
    } else {
        failed_outcome()
    }
}

/// Start the container's init process or an exec session: on success with an
/// explicit bundle the reported pid is persisted to the pid file under that
/// bundle; with no bundle supplied nothing is written.
pub fn cmd_start<C: TaskClient>(
    reg: &ConnectionRegistry,
    client: &mut C,
    container_id: &String,
    exec_id: &String,
    bundle: &String,
) -> (r: CommandOutcome)
    requires
        reg.wf(),
    ensures
        r.code == 1 || r.code == 0 || r.code == -1,
        !reg.spec_contains(container_id@) ==> r == spec_failed_outcome(),
        r.code == -1 ==> r == spec_failed_outcome(),
        r.code == 1 ==> bundle@.len() > 0 && (r.pid matches Some(p) && r.write matches Some(w)
            && w.path@ == bundle@ + "/shim_v2_pid"@ && w.contents@
            == crate::render::spec_decimal_i32(p as int)) && r.output is None && r.exit_status
            == -1,
        r.code == 0 ==> bundle@.len() == 0 && r == spec_plain_outcome(0),
{
    let mut pid: i32 = -1;
    let ret = shim_v2_start(reg, client, container_id, exec_id, &mut pid);
    if ret != 0 {
        return failed_outcome();
    }
    if !bundle.as_str().is_empty() {
        CommandOutcome {
            code: 1,
            output: Option::None,
            write: Option::Some(
                FileWrite { path: pid_file_path(bundle), contents: render_i32(pid) },
            ),
            exit_status: -1,
            pid: Option::Some(pid),
            status: Option::None,
            deleted: Option::None,
        }
    } else {
        CommandOutcome {
            code: 0,
            output: Option::None,
            write: Option::None,
            exit_status: -1,
            pid: Option::None,
            status: Option::None,
            deleted: Option::None,
        }
    }
}

/// Run a secondary process in the container.
pub fn cmd_exec<C: TaskClient>(
    reg: &ConnectionRegistry,
    client: &mut C,
    container_id: &String,
    exec_id: &String,
    terminal: bool,
    stdin: &String,
    stdout: &String,
    stderr: &String,
    process_spec: &String,
) -> (r: CommandOutcome)
    requires
        reg.wf(),
    ensures
        r == spec_plain_outcome(0) || r == spec_failed_outcome(),
        !reg.spec_contains(container_id@) ==> r == spec_failed_outcome(),
{
    let ret = shim_v2_exec(
        reg,
        client,
        container_id,
        exec_id,
        terminal,
        stdin,
        stdout,
        stderr,
        process_spec,
    );
    if ret == 0 {
        CommandOutcome {
            code: 0,
            output: Option::None,
            write: Option::None,
            exit_status: -1,
            pid: Option::None,
            status: Option::None,
            deleted: Option::None,
        }
    } else {
        failed_outcome()
    }
}

/// Resize the pty of the container or one exec session.
pub fn cmd_resize<C: TaskClient>(
    reg: &ConnectionRegistry,
    client: &mut C,
    container_id: &String,
    exec_id: &String,
    height: u32,
    width: u32,
) -> (r: CommandOutcome)
    requires
        reg.wf(),
    ensures
        r == spec_plain_outcome(0) || r == spec_failed_outcome(),
        !reg.spec_contains(container_id@) ==> r == spec_failed_outcome(),
{
    let ret = shim_v2_resize_pty(reg, client, container_id, exec_id, height, width);
    if ret == 0 {
        CommandOutcome {
            code: 0,
            output: Option::None,
            write: Option::None,
            exit_status: -1,
            pid: Option::None,
            status: Option::None,
            deleted: Option::None,
        }
    } else {
        failed_outcome()
    }
}

/// Deliver a signal to the container or one exec session.
pub fn cmd_kill<C: TaskClient>(
    reg: &ConnectionRegistry,
    client: &mut C,
    container_id: &String,
    exec_id: &String,
    signal: u32,
    all: bool,
) -> (r: CommandOutcome)
    requires
        reg.wf(),
    ensures
        r == spec_plain_outcome(0) || r == spec_failed_outcome(),
        !reg.spec_contains(container_id@) ==> r == spec_failed_outcome(),
{
    let ret = shim_v2_kill(reg, client, container_id, exec_id, signal, all);
    if ret == 0 {
        CommandOutcome {
            code: 0,
            output: Option::None,
            write: Option::None,
            exit_status: -1,
            pid: Option::None,
            status: Option::None,
            deleted: Option::None,
        }
    } else {
        failed_outcome()
    }
}

/// Wait for the container or one exec session to exit: on success the
/// outcome carries the reported exit status; on any failure it stays at the
/// default sentinel.
pub fn cmd_wait<C: TaskClient>(
    reg: &ConnectionRegistry,
    client: &mut C,
    container_id: &String,
    exec_id: &String,
) -> (r: CommandOutcome)
    requires
        reg.wf(),
    ensures
        r.code == 0 || r.code == -1,
        !reg.spec_contains(container_id@) ==> r == spec_failed_outcome(),
        r.code == -1 ==> r == spec_failed_outcome(),
        r.code == 0 ==> r.output is None && r.write is None,
{
    let mut exit_status: i32 = -1;
    let ret = shim_v2_wait(reg, client, container_id, exec_id, &mut exit_status);
    if ret == 0 {
        CommandOutcome {
            code: 0,
            output: Option::None,
            write: Option::None,
            exit_status,
            pid: Option::None,
            status: Option::None,
            deleted: Option::None,
        }
    } else {
        failed_outcome()
    }
}

/// Query the container's lifecycle state: on success the projected status is
/// printed in its serialized form; on any failure nothing is printed.
pub fn cmd_status<C: TaskClient>(
    reg: &ConnectionRegistry,
    client: &mut C,
    container_id: &String,
) -> (r: CommandOutcome)
    requires
        reg.wf(),
    ensures
        r.code == 0 || r.code == -1,
        !reg.spec_contains(container_id@) ==> r == spec_failed_outcome(),
        r.code == -1 ==> r == spec_failed_outcome(),
        r.code == 0 ==> (r.status matches Some(s) && r.output matches Some(o) && o@
            == spec_status_label(s)) && r.write is None && r.exit_status == -1,
{
    let mut state = Status::UnknownStatus;
    let ret = shim_v2_state(reg, client, container_id, &mut state);
    if ret == 0 {
        CommandOutcome {
            code: 0,
            output: Option::Some(state.render()),
            write: Option::None,
            exit_status: -1,
            pid: Option::None,
            status: Option::Some(state),
            deleted: Option::None,
        }
    } else {
        failed_outcome()
    }
}

/// Delete the container or one exec session: on success the terminal
/// accounting is printed in its serialized form; on any failure nothing is
/// printed.
pub fn cmd_delete<C: TaskClient>(
    reg: &ConnectionRegistry,
    client: &mut C,
    container_id: &String,
    exec_id: &String,
) -> (r: CommandOutcome)
    requires
        reg.wf(),
    ensures
        r.code == 1 || r.code == -1,
        !reg.spec_contains(container_id@) ==> r == spec_failed_outcome(),
        r.code == -1 ==> r == spec_failed_outcome(),
        r.code == 1 ==> (r.deleted matches Some(d) && r.output matches Some(o) && o@
            == crate::render::spec_delete_json(d)) && r.write is None && r.exit_status == -1,
{
    let mut resp = DeleteResponse::new();
    let ret = shim_v2_delete(reg, client, container_id, exec_id, &mut resp);
    if ret == 0 {
        CommandOutcome {
            code: 1,
            output: Option::Some(render_delete(&resp)),
            write: Option::None,
            exit_status: -1,
            pid: Option::None,
            status: Option::None,
            deleted: Option::Some(resp),
        }
    } else {
        failed_outcome()
    }
}

/// Ask the shim instance to shut down.
pub fn cmd_shutdown<C: TaskClient>(
    reg: &ConnectionRegistry,
    client: &mut C,
    container_id: &String,
) -> (r: CommandOutcome)
    requires
        reg.wf(),
    ensures
        r == spec_plain_outcome(0) || r == spec_failed_outcome(),
        !reg.spec_contains(container_id@) ==> r == spec_failed_outcome(),
{
    let ret = shim_v2_shutdown(reg, client, container_id);
    if ret == 0 {
        CommandOutcome {
            code: 0,
            output: Option::None,
            write: Option::None,
            exit_status: -1,
            pid: Option::None,
            status: Option::None,
            deleted: Option::None,
        }
    } else {
        failed_outcome()
    }
}

/// Execute a decoded, non-init command: interpret the loaded address file,
/// establish the connection (the dial's outcome is handed in), and run the
/// command's handler. On an address or connect failure the command aborts
/// with a negative result before any remote call, the registry untouched.
pub fn execute_command<C: TaskClient>(
    req: &Request,
    address_file: &Option<String>,
    dial_ok: bool,
    reg: &mut ConnectionRegistry,
    client: &mut C,
) -> (r: CommandOutcome)
    requires
        old(reg).wf(),
        old(reg).spec_next_serial() < u64::MAX,
        !(req is Init),
    ensures
        final(reg).wf(),
        spec_resolve(address_file.deep_view()) is Err ==> r == spec_failed_outcome() && *final(reg)
            == *old(reg),
        spec_resolve(address_file.deep_view()) is Ok && !dial_ok ==> r == spec_failed_outcome()
            && *final(reg) == *old(reg),
        spec_resolve(address_file.deep_view()) is Ok && dial_ok ==> final(reg).spec_contains(
            spec_request_id(*req),
        ),
        forall|other: Seq<char>|
            other != spec_request_id(*req) ==> final(reg).spec_contains(other) == old(
                reg,
            ).spec_contains(other),
        r.code == -1 ==> r == spec_failed_outcome(),
{
    let addr = match resolve_address(address_file) {
        Ok(a) => a,
        Err(_) => {
            return failed_outcome();
        },
    };
    let ret = shim_v2_new(reg, request_id(req), &addr, dial_ok);
    if ret != 0 {
        return failed_outcome();
    }
    match req {
        Request::Init { .. } => failed_outcome(),
        Request::Create { container_id, bundle, terminal, stdin, stdout, stderr } => cmd_create(
            reg,
            client,
            container_id,
            bundle,
            *terminal,
            stdin,
            stdout,
            stderr,
        ),
        Request::Start { container_id, exec_id, bundle } => cmd_start(
            reg,
            client,
            container_id,
            exec_id,
            bundle,
        ),
        Request::Exec { container_id, exec_id, terminal, stdin, stdout, stderr, process_spec } => cmd_exec(
            reg,
            client,
            container_id,
            exec_id,
            *terminal,
            stdin,
            stdout,
            stderr,
            process_spec,
        ),
        Request::Resize { container_id, exec_id, height, width } => cmd_resize(
            reg,
            client,
            container_id,
            exec_id,
            *height,
            *width,
        ),
        Request::Kill { container_id, exec_id, signal, all } => cmd_kill(
            reg,
            client,
            container_id,
            exec_id,
            *signal,
            *all,
        ),
        Request::Wait { container_id, exec_id } => cmd_wait(reg, client, container_id, exec_id),
        Request::StatusQuery { container_id } => cmd_status(reg, client, container_id),
        Request::Delete { container_id, exec_id } => cmd_delete(reg, client, container_id, exec_id),
        Request::Shutdown { container_id } => cmd_shutdown(reg, client, container_id),
    }
}

} // verus!
