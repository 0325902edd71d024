use invoker::nats_pool::{BrokenConnection, NatsManager};

#[test]
fn manager_keeps_its_address() {
    let m = NatsManager::new("192.168.17.118:4222");
    assert_eq!(m.addr(), "192.168.17.118:4222");
}

#[test]
fn flush_decides_validity() {
    let m = NatsManager::new("nats");
    assert_eq!(m.check_flush(true), Ok(()));
    assert_eq!(m.check_flush(false), Err(BrokenConnection));
}

#[test]
fn connections_are_never_known_broken() {
    assert!(!NatsManager::new("nats").has_broken());
}
