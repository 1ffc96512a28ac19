use trickle_handshake::registry::Registry;
use trickle_handshake::transport::{derive_address, Address, Transport, TransportState};

fn finalized(local: u64, remote: u64) -> Transport {
    Transport {
        state: TransportState::AnswerApplied,
        local: Some(local),
        remote: Some(remote),
    }
}

#[test]
fn new_registry_is_empty() {
    let reg = Registry::new();
    assert_eq!(reg.len(), 0);
    assert!(!reg.contains(&Address { id: 0 }));
    assert!(reg.get(&Address { id: 0 }).is_none());
}

#[test]
fn register_then_resolve() {
    let mut reg = Registry::new();
    let addr = derive_address(2);
    reg.register(addr, finalized(1, 2));
    assert_eq!(reg.len(), 1);
    assert!(reg.contains(&addr));
    let t = reg.get(&addr).expect("registered address must resolve");
    assert_eq!(t.state, TransportState::AnswerApplied);
    assert_eq!(t.remote, Some(2));
}

#[test]
fn register_same_address_keeps_one_entry() {
    let mut reg = Registry::new();
    let addr = derive_address(2);
    reg.register(addr, finalized(1, 2));
    reg.register(addr, finalized(3, 2));
    assert_eq!(reg.len(), 1);
    let t = reg.get(&addr).expect("registered address must resolve");
    // the entry holds the transport registered last
    assert_eq!(t.local, Some(3));
}

#[test]
fn register_distinct_addresses_keeps_both() {
    let mut reg = Registry::new();
    let a = derive_address(2);
    let b = derive_address(3);
    reg.register(a, finalized(1, 2));
    reg.register(b, finalized(1, 3));
    assert_eq!(reg.len(), 2);
    assert!(reg.contains(&a));
    assert!(reg.contains(&b));
    assert_eq!(reg.get(&a).unwrap().remote, Some(2));
    assert_eq!(reg.get(&b).unwrap().remote, Some(3));
}

#[test]
fn addresses_derive_deterministically() {
    let a = derive_address(7);
    let b = derive_address(7);
    let c = derive_address(8);
    assert_eq!(a, b);
    assert_ne!(a, c);
    assert_eq!(derive_address(0).id, 0x9e3779b97f4a7c15);
    assert_eq!(derive_address(0xffff).id, 0x9e3779b97f4a7c15 ^ 0xffff);
}
