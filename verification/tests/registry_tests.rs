use devstackbox::registry::{ServiceRecord, ServiceStateRegistry};
use devstackbox::service::ServiceName;

#[test]
fn new_registry_has_nothing_running() {
    let registry = ServiceStateRegistry::new();
    assert_eq!(registry.get(ServiceName::Database), ServiceRecord { running: false, process_handle: None });
    assert_eq!(registry.get(ServiceName::WebServer), ServiceRecord { running: false, process_handle: None });
}

#[test]
fn set_writes_one_record() {
    let mut registry = ServiceStateRegistry::new();
    assert!(registry.set(ServiceName::Database, true, Some(4242)));
    assert_eq!(registry.get(ServiceName::Database), ServiceRecord { running: true, process_handle: Some(4242) });
    assert_eq!(registry.get(ServiceName::WebServer), ServiceRecord { running: false, process_handle: None });
    assert!(registry.set(ServiceName::WebServer, true, Some(7)));
    assert_eq!(registry.get(ServiceName::Database), ServiceRecord { running: true, process_handle: Some(4242) });
    assert_eq!(registry.get(ServiceName::WebServer), ServiceRecord { running: true, process_handle: Some(7) });
}

#[test]
fn set_replaces_the_record() {
    let mut registry = ServiceStateRegistry::new();
    assert!(registry.set(ServiceName::Database, true, Some(1)));
    assert!(registry.set(ServiceName::Database, true, Some(2)));
    assert_eq!(registry.get(ServiceName::Database), ServiceRecord::started(2));
    assert!(registry.set(ServiceName::Database, false, None));
    assert_eq!(registry.get(ServiceName::Database), ServiceRecord::stopped());
}

#[test]
fn set_refuses_inconsistent_values() {
    let mut registry = ServiceStateRegistry::new();
    assert!(registry.set(ServiceName::Database, true, Some(9)));
    assert!(!registry.set(ServiceName::Database, true, None));
    assert_eq!(registry.get(ServiceName::Database), ServiceRecord::started(9));
    assert!(!registry.set(ServiceName::Database, false, Some(3)));
    assert_eq!(registry.get(ServiceName::Database), ServiceRecord::started(9));
    assert!(!registry.set(ServiceName::WebServer, false, Some(3)));
    assert_eq!(registry.get(ServiceName::WebServer), ServiceRecord::stopped());
}

#[test]
fn clear_resets_one_record() {
    let mut registry = ServiceStateRegistry::new();
    assert!(registry.set(ServiceName::Database, true, Some(1)));
    assert!(registry.set(ServiceName::WebServer, true, Some(2)));
    registry.clear(ServiceName::Database);
    assert_eq!(registry.get(ServiceName::Database), ServiceRecord::stopped());
    assert_eq!(registry.get(ServiceName::WebServer), ServiceRecord::started(2));
    registry.clear(ServiceName::Database);
    assert_eq!(registry.get(ServiceName::Database), ServiceRecord::stopped());
}

#[test]
fn records_are_what_they_say() {
    assert_eq!(ServiceRecord::stopped(), ServiceRecord { running: false, process_handle: None });
    assert_eq!(ServiceRecord::started(5), ServiceRecord { running: true, process_handle: Some(5) });
}
