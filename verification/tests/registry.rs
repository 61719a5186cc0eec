use std::collections::HashMap;
use std::sync::Arc;

use seam_core::error::SeamError;
use seam_core::live::{Format, Live, Node, Url};
use seam_core::registry::Registry;

/// A stand-in adapter that answers every room with one fixed snapshot.
struct FakeAdapter {
    node: Node,
}

impl Live for FakeAdapter {
    fn get(&self, rid: &str, _headers: Option<HashMap<String, String>>) -> Result<Node, SeamError> {
        if rid == self.node.rid {
            Ok(self.node.clone())
        } else {
            Err(SeamError::NotFound)
        }
    }
}

fn fixed_node() -> Node {
    Node {
        rid: "6".to_string(),
        title: "a fixed room".to_string(),
        cover: "http://example.com/c.jpg".to_string(),
        anchor: "somebody".to_string(),
        head: "http://example.com/h.png".to_string(),
        urls: vec![Url { format: Format::M3U, url: "http://example.com/r.m3u8".to_string() }],
    }
}

#[test]
fn lookup_of_unknown_key_is_absent() {
    let mut reg: Registry<Arc<FakeAdapter>> = Registry::new();
    assert!(reg.lookup("doesnotexist").is_none());
    reg.register("test".to_string(), Arc::new(FakeAdapter { node: fixed_node() }));
    assert!(reg.lookup("doesnotexist").is_none());
    assert!(reg.lookup("Test").is_none(), "keys are case-sensitive");
    assert!(reg.lookup("").is_none());
}

#[test]
fn lookup_resolves_registered_key() {
    let mut reg: Registry<Arc<FakeAdapter>> = Registry::new();
    reg.register("test".to_string(), Arc::new(FakeAdapter { node: fixed_node() }));
    assert!(reg.lookup("test").is_some());
}

#[test]
fn get_through_registry_returns_the_registered_adapters_node() {
    let mut reg: Registry<Arc<FakeAdapter>> = Registry::new();
    reg.register("test".to_string(), Arc::new(FakeAdapter { node: fixed_node() }));
    let adapter = reg.lookup("test").expect("the key was registered");
    let got = adapter.get("6", None).expect("the fake adapter answers room 6");
    assert_eq!(got, fixed_node());
}

#[test]
fn later_registration_of_same_key_wins() {
    let mut other = fixed_node();
    other.title = "replacement".to_string();
    let mut reg: Registry<Arc<FakeAdapter>> = Registry::new();
    reg.register("test".to_string(), Arc::new(FakeAdapter { node: fixed_node() }));
    reg.register("test".to_string(), Arc::new(FakeAdapter { node: other.clone() }));
    let adapter = reg.lookup("test").expect("the key was registered");
    assert_eq!(adapter.get("6", None).unwrap(), other);
}

#[test]
fn shared_adapter_instances_can_be_handed_out() {
    // One adapter instance, shared between the registry and an outside
    // holder, as the process-wide registry shares its adapters.
    let shared = Arc::new(FakeAdapter { node: fixed_node() });
    let mut reg: Registry<Arc<FakeAdapter>> = Registry::new();
    reg.register("test".to_string(), Arc::clone(&shared));
    let adapter = reg.lookup("test").unwrap();
    assert!(Arc::ptr_eq(adapter, &shared));
}
