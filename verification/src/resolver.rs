//! Address Resolver: derivation of the bundle-relative paths this layer
//! persists to, and validation of a persisted shim address. The filesystem
//! reads and writes themselves happen outside; this module pins down exactly
//! what is written and how the contents that come back are interpreted.

use vstd::prelude::*;
use vstd::string::*;
use vstd::utf8::{decode_utf8, valid_utf8};

use crate::{CmdError, FileWrite};

verus! {

/// The marker substring every valid local-socket address must contain,
/// starting at position `i`.
pub open spec fn marker_at(s: Seq<char>, i: int) -> bool {
    &&& 0 <= i
    &&& i + 4 <= s.len()
    &&& s[i] == 'u'
    &&& s[i + 1] == 'n'
    &&& s[i + 2] == 'i'
    &&& s[i + 3] == 'x'
}

/// The address names a local-socket endpoint: it contains the marker.
pub open spec fn has_unix_marker(s: Seq<char>) -> bool {
    exists|i: int| marker_at(s, i)
}

/// What loading a persisted address file yields, as a function of the file's
/// contents (`None` when the file is missing or unreadable).
pub open spec fn spec_resolve(contents: Option<Seq<char>>) -> Result<Seq<char>, CmdError> {
    match contents {
        Option::None => Result::Err(CmdError::AddressUnavailable),
        Option::Some(s) => if has_unix_marker(s) {
            Result::Ok(s)
        } else {
            Result::Err(CmdError::InvalidAddress)
        },
    }
}

/// Whether the string contains the local-socket marker.
pub fn contains_unix(s: &str) -> (r: bool)
    ensures
        r == has_unix_marker(s@),
{
    let n = s.unicode_len();
    if n < 4 {
        proof {
            assert forall|j: int| !marker_at(s@, j) by {}
        }
        return false;
    }
    let mut i: usize = 0;
    while i <= n - 4
        invariant
            n == s@.len(),
            4 <= n,
            i <= n,
            forall|j: int| 0 <= j < i ==> !marker_at(s@, j),
        decreases n - i,
    {
        if s.get_char(i) == 'u' && s.get_char(i + 1) == 'n' && s.get_char(i + 2) == 'i'
            && s.get_char(i + 3) == 'x' {
            assert(marker_at(s@, i as int));
            return true;
        }
        i = i + 1;
    }
    proof {
        assert forall|j: int| !marker_at(s@, j) by {
            if i <= j {
                assert(j + 4 > n);
            }
        }
    }
    false
}

/// Interpret the contents of the persisted address file. Fails with
/// `AddressUnavailable` when the file was missing or unreadable, and with
/// `InvalidAddress` when the contents do not name a local-socket endpoint;
/// otherwise the address is the contents, exactly as persisted.
pub fn resolve_address(contents: &Option<String>) -> (r: Result<String, CmdError>)
    ensures
        match r {
            Ok(a) => spec_resolve(contents.deep_view()) == Result::<Seq<char>, CmdError>::Ok(a@),
            Err(e) => spec_resolve(contents.deep_view()) == Result::<Seq<char>, CmdError>::Err(e),
        },
{
    match contents {
        Option::None => Err(CmdError::AddressUnavailable),
        Option::Some(s) => {
            if contains_unix(s.as_str()) {
                Ok(s.clone())
            } else {
                Err(CmdError::InvalidAddress)
            }
        },
    }
}

/// The fixed root under which a container's bundle directory lives when no
/// bundle is supplied explicitly: the bundle is the root joined with the
/// container ID.
pub fn default_bundle(container_id: &String) -> (r: String)
    ensures
        r@ == "/var/lib/isulad/engines/remote/"@ + container_id@,
{
    let mut s = String::from_str("/var/lib/isulad/engines/remote/");
    s.append(container_id.as_str());
    s
}

/// The path of the persisted address file inside a bundle directory.
pub fn socket_path(bundle: &String) -> (r: String)
    ensures
        r@ == bundle@ + "/shim_v2_socket"@,
{
    let mut s = bundle.clone();
    s.append("/shim_v2_socket");
    s
}

/// The path of the persisted pid file inside a bundle directory.
pub fn pid_file_path(bundle: &String) -> (r: String)
    ensures
        r@ == bundle@ + "/shim_v2_pid"@,
{
    let mut s = bundle.clone();
    s.append("/shim_v2_pid");
    s
}

/// What spawning the shim child process yielded: either the spawn failed, or
/// the child ran and these are its captured standard-output bytes. The spawn
/// itself happens outside this layer.
pub enum SpawnEvent {
    Failed,
    Output(Vec<u8>),
}

/// Relies on String::from_utf8: decodes bytes as UTF-8 text, `None` exactly
/// when the bytes are not valid UTF-8.
#[verifier::external_body]
fn bytes_to_text(bytes: &Vec<u8>) -> (r: Option<String>)
    ensures
        match r {
            Some(s) => valid_utf8(bytes@) && s@ == decode_utf8(bytes@),
            None => !valid_utf8(bytes@),
        },
{
    String::from_utf8(bytes.clone()).ok()
}

/// Finish address discovery: interpret the spawned shim's captured output as
/// the discovered address and decide what to persist. The persisted contents
/// are exactly the captured address, written to the fixed filename inside
/// the bundle; repeated discovery re-spawns and overwrites. Fails with
/// `SpawnFailed` when the child could not be started and with
/// `EncodingError` when its output is not valid text.
pub fn shim_v2_init(bundle: &String, spawn: &SpawnEvent) -> (r: Result<FileWrite, CmdError>)
    ensures
        match r {
            Ok(w) => {
                &&& spawn matches SpawnEvent::Output(b) && valid_utf8(b@) && w.contents@
                    == decode_utf8(b@)
                &&& w.path@ == bundle@ + "/shim_v2_socket"@
            },
            Err(e) => match spawn {
                SpawnEvent::Failed => e == CmdError::SpawnFailed,
                SpawnEvent::Output(b) => e == CmdError::EncodingError && !valid_utf8(b@),
            },
        },
{
    match spawn {
        SpawnEvent::Failed => Err(CmdError::SpawnFailed),
        SpawnEvent::Output(bytes) => match bytes_to_text(bytes) {
            Option::Some(addr) => Ok(FileWrite { path: socket_path(bundle), contents: addr }),
            Option::None => Err(CmdError::EncodingError),
        },
    }
}

/// Loading is idempotent: two successive reads of an unchanged address file
/// resolve to identical addresses.
pub proof fn lemma_load_idempotent(first: Option<Seq<char>>, second: Option<Seq<char>>)
    requires
        first == second,
    ensures
        spec_resolve(first) == spec_resolve(second),
{
}

/// Round trip through the persisted file: discovery persists exactly the
/// address captured from the spawned shim's output, and loading those
/// persisted contents yields that address back, provided it names a
/// local-socket endpoint.
pub proof fn lemma_discover_load_round_trip(addr: Seq<char>)
    requires
        has_unix_marker(addr),
    ensures
        spec_resolve(Option::Some(addr)) == Result::<Seq<char>, CmdError>::Ok(addr),
{
}

} // verus!
