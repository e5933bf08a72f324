use peer_registry::peer::Peer;
use peer_registry::registry::Registry;

fn peer(address: &str) -> Peer {
    Peer::new(String::from(address))
}

#[test]
fn fresh_registry_lists_nothing() {
    let registry = Registry::new();
    assert_eq!(registry.list(), Vec::<Peer>::new());
    assert_eq!(registry.len(), 0);
}

#[test]
fn add_echoes_the_peer_and_lists_it() {
    let mut registry = Registry::new();
    let echoed = registry.add(peer("10.0.0.1:9000"));
    assert_eq!(echoed, peer("10.0.0.1:9000"));
    assert_eq!(echoed.address, "10.0.0.1:9000");
    assert_eq!(registry.list(), vec![peer("10.0.0.1:9000")]);
}

#[test]
fn sequential_adds_keep_their_order() {
    let mut registry = Registry::new();
    registry.add(peer("a"));
    registry.add(peer("b"));
    assert_eq!(registry.list(), vec![peer("a"), peer("b")]);
}

#[test]
fn hundred_distinct_adds_are_all_listed_once() {
    let mut registry = Registry::new();
    for i in 0..100 {
        registry.add(peer(&format!("10.0.0.{}:9000", i)));
    }
    let listed = registry.list();
    assert_eq!(listed.len(), 100);
    for i in 0..100 {
        let wanted = peer(&format!("10.0.0.{}:9000", i));
        assert_eq!(listed.iter().filter(|p| **p == wanted).count(), 1);
    }
}

#[test]
fn adding_twice_keeps_both_entries() {
    let mut registry = Registry::new();
    registry.add(peer("x"));
    registry.add(peer("10.0.0.2:1"));
    registry.add(peer("10.0.0.2:1"));
    assert_eq!(
        registry.list(),
        vec![peer("x"), peer("10.0.0.2:1"), peer("10.0.0.2:1")]
    );
    assert_eq!(registry.len(), 3);
}

#[test]
fn empty_address_is_accepted() {
    let mut registry = Registry::new();
    let echoed = registry.add(peer(""));
    assert_eq!(echoed.address, "");
    assert_eq!(registry.list(), vec![peer("")]);
}

#[test]
fn listing_copies_and_leaves_the_registry_as_it_was() {
    let mut registry = Registry::new();
    registry.add(peer("a"));
    let mut first = registry.list();
    first.push(peer("b"));
    assert_eq!(registry.list(), vec![peer("a")]);
    let cloned = registry.list()[0].clone();
    assert_eq!(cloned, peer("a"));
}
