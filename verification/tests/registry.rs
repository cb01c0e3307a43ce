use quad_bt::registry::DeviceRegistry;
use quad_bt::{Device, DeviceId};

fn device(address: &str, name: Option<&str>) -> Device {
    Device { address: address.to_string(), name: name.map(|n| n.to_string()) }
}

fn id(address: &str) -> DeviceId {
    device(address, None).id()
}

#[test]
fn new_registry_is_empty() {
    let registry = DeviceRegistry::new();
    assert_eq!(registry.len(), 0);
    assert!(registry.snapshot().is_empty());
    assert!(registry.get(&id("AA:BB")).is_none());
    assert!(!registry.contains(&id("AA:BB")));
}

#[test]
fn inserting_the_same_address_twice_updates_in_place() {
    let mut registry = DeviceRegistry::new();
    registry.insert(device("AA:BB", None));
    registry.insert(device("CC:DD", Some("second")));
    assert_eq!(registry.len(), 2);
    registry.insert(device("AA:BB", Some("renamed")));
    assert_eq!(registry.len(), 2);
    let all = registry.snapshot();
    assert_eq!(all[0].address, "AA:BB");
    assert_eq!(all[0].name.as_deref(), Some("renamed"));
    assert_eq!(all[1].address, "CC:DD");
    assert_eq!(all[1].name.as_deref(), Some("second"));
}

#[test]
fn rediscovery_replaces_the_whole_entry() {
    let mut registry = DeviceRegistry::new();
    registry.insert(device("AA:BB", Some("named")));
    registry.insert(device("AA:BB", None));
    assert_eq!(registry.len(), 1);
    assert_eq!(registry.get(&id("AA:BB")).unwrap().name, None);
}

#[test]
fn new_addresses_are_added_in_the_order_seen() {
    let mut registry = DeviceRegistry::new();
    for address in ["3", "1", "2"] {
        registry.insert(device(address, None));
    }
    let addresses: Vec<String> = registry.snapshot().into_iter().map(|d| d.address).collect();
    assert_eq!(addresses, vec!["3".to_string(), "1".to_string(), "2".to_string()]);
}

#[test]
fn get_finds_by_identifier_only_what_was_inserted() {
    let mut registry = DeviceRegistry::new();
    registry.insert(device("AA:BB", Some("lamp")));
    let found = registry.get(&id("AA:BB")).unwrap();
    assert_eq!(found.address, "AA:BB");
    assert_eq!(found.name.as_deref(), Some("lamp"));
    assert!(registry.contains(&id("AA:BB")));
    assert!(registry.get(&id("AA:BC")).is_none());
    assert!(registry.get(&id("aa:bb")).is_none());
    assert!(registry.get(&id("")).is_none());
}

#[test]
fn clear_empties_the_registry_unconditionally() {
    let mut registry = DeviceRegistry::new();
    registry.clear();
    assert_eq!(registry.len(), 0);
    registry.insert(device("AA:BB", None));
    registry.insert(device("CC:DD", None));
    registry.clear();
    assert_eq!(registry.len(), 0);
    assert!(registry.get(&id("AA:BB")).is_none());
    registry.insert(device("CC:DD", None));
    assert_eq!(registry.len(), 1);
}

#[test]
fn a_fetched_name_is_cached_for_good() {
    let mut registry = DeviceRegistry::new();
    registry.insert(device("AA:BB", None));
    registry.resolve_name(&id("AA:BB"), None);
    assert_eq!(registry.get(&id("AA:BB")).unwrap().name, None);
    assert!(!registry.get(&id("AA:BB")).unwrap().has_name());
    registry.resolve_name(&id("AA:BB"), Some("lamp".to_string()));
    assert!(registry.get(&id("AA:BB")).unwrap().has_name());
    assert_eq!(registry.get(&id("AA:BB")).unwrap().name.as_deref(), Some("lamp"));
    registry.resolve_name(&id("AA:BB"), Some("other".to_string()));
    assert_eq!(registry.get(&id("AA:BB")).unwrap().name.as_deref(), Some("lamp"));
    registry.resolve_name(&id("AA:BB"), None);
    assert_eq!(registry.get(&id("AA:BB")).unwrap().name.as_deref(), Some("lamp"));
    assert_eq!(registry.len(), 1);
}

#[test]
fn an_empty_answer_is_stored_as_it_came() {
    let mut registry = DeviceRegistry::new();
    registry.insert(device("AA:BB", None));
    registry.resolve_name(&id("AA:BB"), Some(String::new()));
    assert_eq!(registry.get(&id("AA:BB")).unwrap().name.as_deref(), Some(""));
    assert!(registry.get(&id("AA:BB")).unwrap().has_name());
}

#[test]
fn an_empty_name_is_a_name_and_is_kept() {
    let mut registry = DeviceRegistry::new();
    registry.insert(device("AA:BB", Some("")));
    assert!(registry.get(&id("AA:BB")).unwrap().has_name());
    registry.resolve_name(&id("AA:BB"), Some("lamp".to_string()));
    assert_eq!(registry.get(&id("AA:BB")).unwrap().name.as_deref(), Some(""));
}

#[test]
fn resolving_a_name_touches_no_other_device() {
    let mut registry = DeviceRegistry::new();
    registry.insert(device("AA:BB", None));
    registry.insert(device("CC:DD", None));
    registry.resolve_name(&id("CC:DD"), Some("lamp".to_string()));
    registry.resolve_name(&id("EE:FF"), Some("ghost".to_string()));
    assert_eq!(registry.len(), 2);
    assert_eq!(registry.get(&id("AA:BB")).unwrap().name, None);
    assert_eq!(registry.get(&id("CC:DD")).unwrap().name.as_deref(), Some("lamp"));
    assert!(registry.get(&id("EE:FF")).is_none());
}

#[test]
fn device_update_name_keeps_the_first_name() {
    let mut d = device("AA:BB", None);
    assert!(!d.has_name());
    d.update_name(Some("first".to_string()));
    assert!(d.has_name());
    d.update_name(Some("second".to_string()));
    assert_eq!(d.name.as_deref(), Some("first"));
    assert_eq!(d.address, "AA:BB");
}

#[test]
fn identifiers_are_equal_by_their_address() {
    let a = device("AA:BB", Some("x")).id();
    let b = device("AA:BB", None).id();
    let c = device("AA:BC", None).id();
    assert!(a == b);
    assert!(a != c);
    assert_eq!(a.address(), "AA:BB");
    assert!(a.clone() == a);
}

#[test]
fn a_cloned_device_is_the_same_device() {
    let d = device("AA:BB", Some("lamp"));
    let copy = d.clone();
    assert_eq!(copy.address, d.address);
    assert_eq!(copy.name, d.name);
}
