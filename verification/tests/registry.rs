use cubeos_service::registry::{CommandID, Registry, MAX_COMMANDS};
use cubeos_service::Error;

fn names(list: &[&str]) -> Vec<String> {
    list.iter().map(|s| s.to_string()).collect()
}

fn two() -> Registry {
    Registry::new(names(&["Ping", "SetPower"])).unwrap()
}

#[test]
fn registry_assigns_codes_in_order() {
    let registry = two();
    let ping = registry.try_from_name("Ping").unwrap();
    let set_power = registry.try_from_name("SetPower").unwrap();
    assert_eq!(ping, CommandID { index: 0 });
    assert_eq!(set_power, CommandID { index: 1 });
    assert_eq!(registry.try_into_code(ping), Ok(1));
    assert_eq!(registry.try_into_code(set_power), Ok(2));
    assert_eq!(registry.len(), 2);
}

#[test]
fn registry_reads_codes_back() {
    let registry = two();
    assert_eq!(registry.try_from_code(1), Ok(CommandID { index: 0 }));
    assert_eq!(registry.try_from_code(2), Ok(CommandID { index: 1 }));
    assert_eq!(registry.name(CommandID { index: 0 }), Some("Ping"));
    assert_eq!(registry.name(CommandID { index: 1 }), Some("SetPower"));
    assert_eq!(registry.name(CommandID { index: 2 }), None);
}

#[test]
fn registry_refuses_sentinels_and_unassigned_codes() {
    let registry = two();
    assert_eq!(registry.try_from_code(0), Err(Error::NoCmd));
    assert_eq!(registry.try_from_code(65535), Err(Error::NoCmd));
    assert_eq!(registry.try_from_code(3), Err(Error::NoCmd));
    assert_eq!(registry.try_from_code(5), Err(Error::NoCmd));
}

#[test]
fn registry_refuses_unknown_names() {
    let registry = two();
    assert_eq!(registry.try_from_name("Reboot"), Err(Error::NoCmd));
    assert_eq!(registry.try_from_name("ping"), Err(Error::NoCmd));
    assert_eq!(registry.try_from_name(""), Err(Error::NoCmd));
}

#[test]
fn registry_refuses_foreign_commands() {
    let registry = two();
    assert_eq!(registry.try_into_code(CommandID { index: 2 }), Err(Error::NoCmd));
    assert_eq!(registry.try_into_code(CommandID { index: usize::MAX }), Err(Error::NoCmd));
}

#[test]
fn registry_never_assigns_a_sentinel() {
    let list: Vec<String> = (0..MAX_COMMANDS).map(|i| format!("Op{}", i)).collect();
    let registry = Registry::new(list).unwrap();
    let mut index = 0;
    while index < registry.len() {
        let code = registry.try_into_code(CommandID { index }).unwrap();
        assert_ne!(code, 0);
        assert_ne!(code, 65535);
        assert_eq!(code as usize, index + 1);
        assert_eq!(registry.try_from_code(code), Ok(CommandID { index }));
        index += 997;
    }
    let last = CommandID { index: MAX_COMMANDS - 1 };
    assert_eq!(registry.try_into_code(last), Ok(65534));
    assert_eq!(registry.try_from_code(65535), Err(Error::NoCmd));
}

#[test]
fn registry_refuses_lists_that_cannot_be_declared() {
    assert!(Registry::new(Vec::new()).is_none());
    assert!(Registry::new(names(&["Ping", "SetPower", "Ping"])).is_none());
    assert!(Registry::new(names(&["Ping", "Ping"])).is_none());
    let too_long: Vec<String> = (0..MAX_COMMANDS + 1).map(|i| format!("Op{}", i)).collect();
    assert!(Registry::new(too_long).is_none());
    assert!(Registry::new(names(&["Ping"])).is_some());
}

#[test]
fn registry_is_the_same_for_the_same_list() {
    let a = two();
    let b = two();
    for name in ["Ping", "SetPower"] {
        assert_eq!(a.try_from_name(name), b.try_from_name(name));
    }
    let swapped = Registry::new(names(&["SetPower", "Ping"])).unwrap();
    assert_eq!(swapped.try_from_name("Ping"), Ok(CommandID { index: 1 }));
}
