use shim_dispatch::registry::ConnectionRegistry;
use shim_dispatch::CmdError;

#[test]
fn get_or_create_then_get_same_connection() {
    let mut reg = ConnectionRegistry::new();
    let id = String::from("c1");
    let addr = String::from("unix:///run/shim.sock");
    let created = reg.get_or_create(&id, &addr, true).expect("dial succeeded");
    let looked_up = reg.get(&id).expect("entry just registered");
    assert_eq!(created.serial, looked_up.serial);
    assert_eq!(created.address, looked_up.address);
    assert_eq!(created.container_id, looked_up.container_id);
    assert_eq!(looked_up.address, addr);
    assert_eq!(looked_up.container_id, id);
}

#[test]
fn get_or_create_replaces_with_fresh_connection() {
    let mut reg = ConnectionRegistry::new();
    let id = String::from("c1");
    let first = reg.get_or_create(&id, &String::from("unix:///a"), true).unwrap();
    let second = reg.get_or_create(&id, &String::from("unix:///b"), true).unwrap();
    assert_ne!(first.serial, second.serial);
    let current = reg.get(&id).unwrap();
    assert_eq!(current.serial, second.serial);
    assert_eq!(current.address, "unix:///b");
}

#[test]
fn get_or_create_failed_dial_leaves_registry_untouched() {
    let mut reg = ConnectionRegistry::new();
    let id = String::from("c1");
    let r = reg.get_or_create(&id, &String::from("unix:///a"), false);
    assert_eq!(r.unwrap_err(), CmdError::ConnectFailed);
    assert_eq!(reg.get(&id).unwrap_err(), CmdError::NotFound);
}

#[test]
fn get_unregistered_is_not_found() {
    let reg = ConnectionRegistry::new();
    assert_eq!(reg.get(&String::from("nobody")).unwrap_err(), CmdError::NotFound);
}

#[test]
fn remove_unregistered_is_noop() {
    let mut reg = ConnectionRegistry::new();
    reg.remove(&String::from("absent"));
    assert_eq!(reg.get(&String::from("absent")).unwrap_err(), CmdError::NotFound);

    let id = String::from("c1");
    reg.get_or_create(&id, &String::from("unix:///a"), true).unwrap();
    reg.remove(&String::from("someone-else"));
    assert!(reg.get(&id).is_ok());
}

#[test]
fn remove_registered_erases_the_entry() {
    let mut reg = ConnectionRegistry::new();
    let id = String::from("c1");
    reg.get_or_create(&id, &String::from("unix:///a"), true).unwrap();
    reg.remove(&id);
    assert_eq!(reg.get(&id).unwrap_err(), CmdError::NotFound);
}

#[test]
fn distinct_containers_are_independent() {
    let mut reg = ConnectionRegistry::new();
    let c1 = String::from("c1");
    let c2 = String::from("c2");
    let h1 = reg.get_or_create(&c1, &String::from("unix:///a"), true).unwrap();
    let h2 = reg.get_or_create(&c2, &String::from("unix:///b"), true).unwrap();
    assert_ne!(h1.serial, h2.serial);
    reg.remove(&c1);
    assert_eq!(reg.get(&c1).unwrap_err(), CmdError::NotFound);
    assert_eq!(reg.get(&c2).unwrap().address, "unix:///b");
}

#[test]
fn fresh_registry_passes_wf_check() {
    let mut reg = ConnectionRegistry::new();
    assert!(reg.wf_check());
    assert!(reg.can_register());
    reg.get_or_create(&String::from("c1"), &String::from("unix:///a"), true).unwrap();
    assert!(reg.wf_check());
}
