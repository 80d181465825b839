use systemd2mqtt::payload::{ServiceStatus, UnitCommand};
use systemd2mqtt::topics::{EntityTopics, Payload, QosLevel, TopicHandle, TopicSlot, TopicStore, QOS};

fn topics(name: &str, command: bool) -> EntityTopics {
    EntityTopics {
        config_topic: format!("homeassistant/switch/{name}/config"),
        state_topic: format!("systemd/host/{name}/status"),
        command_topic: if command { Some(format!("systemd/host/{name}/activate")) } else { None },
    }
}

#[test]
fn qos_is_at_least_once() {
    assert_eq!(QOS, QosLevel::AtLeastOnce);
}

#[test]
fn empty_slot_never_resolves() {
    let slot = TopicSlot::new();
    let mut store = TopicStore::new(1);
    store.insert("a.service".to_string(), topics("a", true));
    assert!(slot.resolve(None).is_none());
    assert!(slot.resolve(Some(&store)).is_none());
}

#[test]
fn set_returns_the_previous_handle() {
    let mut slot = TopicSlot::new();
    let first = TopicHandle { store: 1, index: 0 };
    let second = TopicHandle { store: 2, index: 3 };
    assert_eq!(slot.set(first), None);
    assert_eq!(slot.set(second), Some(first));
    assert_eq!(slot.clear(), Some(second));
    assert_eq!(slot.clear(), None);
    assert_eq!(slot.handle, None);
}

#[test]
fn slot_resolves_only_in_its_own_store() {
    let mut store = TopicStore::new(7);
    let handle = store.insert("a.service".to_string(), topics("a", true));
    assert_eq!(handle, TopicHandle { store: 7, index: 0 });
    let mut slot = TopicSlot::new();
    slot.set(handle);
    assert_eq!(slot.resolve(Some(&store)).unwrap().state_topic, "systemd/host/a/status");
    assert!(slot.resolve(None).is_none());

    let mut later = TopicStore::new(8);
    later.insert("a.service".to_string(), topics("a", true));
    assert!(slot.resolve(Some(&later)).is_none());

    let empty = TopicStore::new(7);
    assert!(slot.resolve(Some(&empty)).is_none());
}

#[test]
fn cleared_slot_no_longer_resolves() {
    let mut store = TopicStore::new(1);
    let mut slot = TopicSlot::new();
    slot.set(store.insert("a.service".to_string(), topics("a", false)));
    assert!(slot.resolve(Some(&store)).is_some());
    slot.clear();
    assert!(slot.resolve(Some(&store)).is_none());
}

#[test]
fn insert_replaces_an_entry_of_the_same_name() {
    let mut store = TopicStore::new(1);
    let a = store.insert("a.service".to_string(), topics("a", true));
    let b = store.insert("b.service".to_string(), topics("b", false));
    assert_eq!((a.index, b.index), (0, 1));
    let again = store.insert("a.service".to_string(), topics("replacement", true));
    assert_eq!(again.index, 0);
    assert_eq!(store.entries.len(), 2);
    assert_eq!(store.entries[0].name, "a.service");
    assert_eq!(store.entries[0].topics.state_topic, "systemd/host/replacement/status");
    assert_eq!(store.entries[1].topics.state_topic, "systemd/host/b/status");
    assert_eq!(store.position("b.service"), Some(1));
    assert_eq!(store.position("c.service"), None);
}

#[test]
fn publish_config_targets_the_config_topic() {
    let t = topics("a", true);
    let p = t.publish_config(Payload::Bytes(vec![1, 2]), false, QosLevel::ExactlyOnce);
    assert_eq!(p.topic, "homeassistant/switch/a/config");
    assert!(matches!(p.payload, Payload::Bytes(ref b) if b == &vec![1, 2]));
    assert!(!p.retain);
    assert_eq!(p.qos, QosLevel::ExactlyOnce);
}

#[test]
fn publish_state_encodes_the_payload() {
    let t = topics("a", true);
    let p = t.publish_state(&UnitCommand::Stop, true, QOS);
    assert_eq!(p.topic, "systemd/host/a/status");
    assert!(matches!(p.payload, Payload::Bytes(ref b) if b == b"\"Stop\""));
    assert!(p.retain);
    assert_eq!(p.qos, QosLevel::AtLeastOnce);

    let status = ServiceStatus { is_active: false, units: Vec::new() };
    let p = t.publish_state(&status, false, QOS);
    assert!(matches!(p.payload, Payload::Bytes(ref b) if b == b"{\"is_active\":false,\"units\":[]}"));
    assert!(!p.retain);

    let p = t.publish_state_payload(vec![9], true, QOS);
    assert_eq!(p.topic, "systemd/host/a/status");
    assert!(matches!(p.payload, Payload::Bytes(ref b) if b == &vec![9]));
}

#[test]
fn topic_accessors() {
    let t = topics("a", true);
    assert_eq!(t.state_topic(), "systemd/host/a/status");
    assert_eq!(t.expect_command_topic(), "systemd/host/a/activate");
    let copy = t.clone();
    assert_eq!(copy.config_topic, t.config_topic);
    assert_eq!(copy.command_topic, t.command_topic);
}
