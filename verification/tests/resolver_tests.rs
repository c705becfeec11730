use shim_dispatch::resolver::{
    contains_unix, default_bundle, pid_file_path, resolve_address, shim_v2_init, socket_path,
    SpawnEvent,
};
use shim_dispatch::CmdError;

#[test]
fn load_is_idempotent_on_unchanged_contents() {
    let contents = Some(String::from("unix:///run/shim.sock"));
    let first = resolve_address(&contents).unwrap();
    let second = resolve_address(&contents).unwrap();
    assert_eq!(first, second);
    assert_eq!(first, "unix:///run/shim.sock");
}

#[test]
fn discover_then_load_round_trips_the_captured_address() {
    let bundle = String::from("/b");
    let captured = b"unix:///run/c1/shim.sock".to_vec();
    let write = shim_v2_init(&bundle, &SpawnEvent::Output(captured)).unwrap();
    assert_eq!(write.path, "/b/shim_v2_socket");
    assert_eq!(write.contents, "unix:///run/c1/shim.sock");
    let loaded = resolve_address(&Some(write.contents.clone())).unwrap();
    assert_eq!(loaded, "unix:///run/c1/shim.sock");
}

#[test]
fn missing_file_is_address_unavailable() {
    assert_eq!(resolve_address(&None).unwrap_err(), CmdError::AddressUnavailable);
}

#[test]
fn contents_without_marker_are_invalid_address() {
    let contents = Some(String::from("tcp://127.0.0.1:7000"));
    assert_eq!(resolve_address(&contents).unwrap_err(), CmdError::InvalidAddress);
}

#[test]
fn marker_detection_edges() {
    assert!(contains_unix("unix"));
    assert!(contains_unix("a unix socket"));
    assert!(contains_unix("tail position unix"));
    assert!(!contains_unix(""));
    assert!(!contains_unix("uni"));
    assert!(!contains_unix("UNIX"));
    assert!(!contains_unix("un ix"));
}

#[test]
fn failed_spawn_is_spawn_failed() {
    let bundle = String::from("/b");
    assert_eq!(shim_v2_init(&bundle, &SpawnEvent::Failed).unwrap_err(), CmdError::SpawnFailed);
}

#[test]
fn undecodable_output_is_encoding_error() {
    let bundle = String::from("/b");
    let bytes = vec![0xffu8, 0xfe, 0x00];
    assert_eq!(
        shim_v2_init(&bundle, &SpawnEvent::Output(bytes)).unwrap_err(),
        CmdError::EncodingError
    );
}

#[test]
fn path_derivation() {
    let id = String::from("c1");
    let bundle = default_bundle(&id);
    assert_eq!(bundle, "/var/lib/isulad/engines/remote/c1");
    assert_eq!(socket_path(&bundle), "/var/lib/isulad/engines/remote/c1/shim_v2_socket");
    assert_eq!(pid_file_path(&bundle), "/var/lib/isulad/engines/remote/c1/shim_v2_pid");
}
