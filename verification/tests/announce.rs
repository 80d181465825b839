use systemd2mqtt::bridge::Core;
use systemd2mqtt::connect::Allocation;
use systemd2mqtt::config::{Args, UnitConfig};
use systemd2mqtt::entities::document::Document;
use systemd2mqtt::payload::UnitStatus;
use systemd2mqtt::topics::{EntityTopics, Payload, Publish, QosLevel};

fn args(units: &[&str], clean_up: bool) -> Args {
    Args {
        mqtt_url: None,
        units: units.iter().map(|u| UnitConfig::named(u)).collect(),
        hostname: Some("box".to_string()),
        clean_up,
        discovery_prefix: "homeassistant".to_string(),
        mqtt_username: None,
        mqtt_password: None,
    }
}

fn topics(domain: &str, name: &str, command: Option<&str>) -> EntityTopics {
    EntityTopics {
        config_topic: format!("homeassistant/{domain}/box_{name}/config"),
        state_topic: format!("systemd/box/{name}/status"),
        command_topic: command.map(|c| format!("systemd/box/{name}/{c}")),
    }
}

fn connected(clean_up: bool) -> Core {
    let mut a = args(&["sshd.service", "cron.service", "idle.service"], clean_up);
    a.units[1].read_only = true;
    let mut core = Core::new(a, None);
    core.connect_mqtt(
        topics("button", "diag_reset", Some("set")),
        vec![
            Allocation { unit_name: "sshd.service".to_string(), topics: Some(topics("switch", "sshd", Some("activate"))) },
            Allocation { unit_name: "cron.service".to_string(), topics: Some(topics("binary_sensor", "cron", None)) },
        ],
    )
    .unwrap();
    core
}

fn bytes(publish: &Publish) -> &[u8] {
    match &publish.payload {
        Payload::Bytes(bytes) => bytes,
        Payload::Document(_) => panic!("expected bytes on {}", publish.topic),
    }
}

fn document(publish: &Publish) -> &Document {
    match &publish.payload {
        Payload::Document(document) => document,
        Payload::Bytes(_) => panic!("expected a document on {}", publish.topic),
    }
}

fn status() -> UnitStatus {
    UnitStatus {
        load_state: "loaded".to_string(),
        active_state: "active".to_string(),
        id: "sshd.service".to_string(),
        invocation_id: vec![1, 2, 3],
        description: "OpenSSH".to_string(),
        transient: true,
    }
}

#[test]
fn announce_without_session_publishes_nothing() {
    let core = Core::new(args(&["sshd.service"], false), None);
    assert!(core.announce().unwrap().is_empty());
    assert!(core.mqtt_units().is_empty());
}

#[test]
fn announce_publishes_status_then_documents() {
    let core = connected(false);
    let publishes = core.announce().unwrap();
    assert_eq!(publishes.len(), 4);
    assert!(publishes.iter().all(|p| p.retain && p.qos == QosLevel::AtLeastOnce));

    assert_eq!(publishes[0].topic, "systemd/box/diag_reset/status");
    assert_eq!(
        bytes(&publishes[0]),
        b"{\"is_active\":true,\"units\":[\"sshd.service\",\"cron.service\",\"idle.service\"]}"
    );

    assert_eq!(publishes[1].topic, "homeassistant/switch/box_sshd/config");
    match document(&publishes[1]) {
        Document::Switch(switch) => {
            assert_eq!(switch.command_topic, "systemd/box/sshd/activate");
            assert_eq!(switch.state_topic.as_deref(), Some("systemd/box/sshd/status"));
            assert_eq!(switch.unique_id.as_deref(), Some("systemd2mqtt_box_sshd_service"));
            assert_eq!(switch.availability[0].topic, "systemd/box/diag_reset/status");
        },
        other => panic!("unexpected {other:?}"),
    }

    assert_eq!(publishes[2].topic, "homeassistant/binary_sensor/box_cron/config");
    match document(&publishes[2]) {
        Document::BinarySensor(sensor) => {
            assert_eq!(sensor.state_topic, "systemd/box/cron/status");
            assert_eq!(sensor.object_id.as_deref(), Some("box_cron"));
        },
        other => panic!("unexpected {other:?}"),
    }

    assert_eq!(publishes[3].topic, "homeassistant/button/box_diag_reset/config");
    match document(&publishes[3]) {
        Document::Button(button) => {
            assert_eq!(button.command_topic, "systemd/box/diag_reset/set");
            assert_eq!(button.payload_press.as_deref(), Some("{\"Set\":{\"active\":false}}"));
        },
        other => panic!("unexpected {other:?}"),
    }
}

#[test]
fn mqtt_units_lists_units_with_topics() {
    let core = connected(false);
    let live = core.mqtt_units();
    assert_eq!(live.len(), 2);
    assert_eq!(live[0].0.unit_name(), "sshd.service");
    assert_eq!(live[0].1.state_topic, "systemd/box/sshd/status");
    assert_eq!(live[1].0.unit_name(), "cron.service");
    assert_eq!(live[1].1.state_topic, "systemd/box/cron/status");
}

#[test]
fn will_payload_is_inactive_without_units() {
    let core = connected(false);
    let will = core.mqtt_will_payload();
    assert!(!will.is_active);
    assert!(will.units.is_empty());
}

#[test]
fn disconnect_without_session_is_a_no_op() {
    let mut core = Core::new(args(&["sshd.service"], true), None);
    assert!(core.disconnect().unwrap().is_empty());
    core.release();
    assert!(core.mqtt.is_none());
    assert!(core.disconnect().unwrap().is_empty());
    core.release();
    assert_eq!(core.units.len(), 1);
    assert!(core.units[0].mqtt.handle.is_none());
    assert_eq!(core.sessions, 0);
}

#[test]
fn second_disconnect_is_a_no_op() {
    let mut core = connected(true);
    assert_eq!(core.disconnect().unwrap().len(), 4);
    core.release();
    assert!(core.disconnect().unwrap().is_empty());
    core.release();
    assert!(core.mqtt.is_none());
}

#[test]
fn tombstone_cleanup_erases_every_discovery_topic() {
    let core = connected(true);
    let publishes = core.disconnect().unwrap();
    assert_eq!(publishes.len(), 4);
    let expected = [
        "homeassistant/switch/box_sshd/config",
        "homeassistant/binary_sensor/box_cron/config",
        "homeassistant/button/box_diag_reset/config",
    ];
    for (publish, topic) in publishes.iter().zip(expected) {
        assert_eq!(publish.topic, topic);
        assert!(bytes(publish).is_empty());
        assert!(publish.retain);
        assert_eq!(publish.qos, QosLevel::AtLeastOnce);
    }
    assert_eq!(publishes[3].topic, "systemd/box/diag_reset/status");
    assert_eq!(bytes(&publishes[3]), b"{\"is_active\":false,\"units\":[]}");
    assert!(!publishes[3].retain);
}

#[test]
fn soft_cleanup_repeats_documents_without_retain() {
    let core = connected(false);
    let publishes = core.disconnect().unwrap();
    assert_eq!(publishes.len(), 4);
    assert_eq!(publishes[0].topic, "homeassistant/switch/box_sshd/config");
    assert!(matches!(document(&publishes[0]), Document::Switch(_)));
    assert_eq!(publishes[1].topic, "homeassistant/binary_sensor/box_cron/config");
    assert!(matches!(document(&publishes[1]), Document::BinarySensor(_)));
    assert_eq!(publishes[2].topic, "homeassistant/button/box_diag_reset/config");
    assert!(matches!(document(&publishes[2]), Document::Button(_)));
    assert!(publishes[..3].iter().all(|p| !p.retain));
    assert_eq!(publishes[3].topic, "systemd/box/diag_reset/status");
    assert_eq!(bytes(&publishes[3]), b"{\"is_active\":false,\"units\":[]}");
    assert!(publishes[3].retain);
}

#[test]
fn release_clears_every_slot() {
    let mut core = connected(false);
    assert!(core.units.iter().any(|u| u.mqtt.handle.is_some()));
    core.disconnect().unwrap();
    assert!(core.mqtt.is_some());
    assert!(core.units.iter().any(|u| u.mqtt.handle.is_some()));
    core.release();
    assert!(core.mqtt.is_none());
    assert!(core.units.iter().all(|u| u.mqtt.handle.is_none()));
    assert_eq!(core.units.len(), 3);
    assert_eq!(core.units[2].unit_name(), "idle.service");
}

#[test]
fn inform_unit_publishes_retained_status() {
    let core = connected(false);
    let unit = core.unit("sshd.service").unwrap();
    let publish = core.inform_unit(unit, &status()).unwrap().unwrap();
    assert_eq!(publish.topic, "systemd/box/sshd/status");
    assert_eq!(
        bytes(&publish),
        b"{\"load_state\":\"loaded\",\"active_state\":\"active\",\"id\":\"sshd.service\",\"invocation_id\":[1,2,3],\"description\":\"OpenSSH\",\"transient\":true}"
    );
    assert!(publish.retain);
    assert_eq!(publish.qos, QosLevel::AtLeastOnce);
}

#[test]
fn inform_unit_is_silent_without_topics() {
    let core = connected(false);
    let idle = core.unit("idle.service").unwrap();
    assert!(core.inform_unit(idle, &status()).unwrap().is_none());
    let offline = Core::new(args(&["sshd.service"], false), None);
    let unit = offline.unit("sshd.service").unwrap();
    assert!(offline.inform_unit(unit, &status()).unwrap().is_none());
}

#[test]
fn inform_unit_twice_gives_the_same_message() {
    let core = connected(false);
    let unit = core.unit("sshd.service").unwrap();
    let first = core.inform_unit(unit, &status()).unwrap().unwrap();
    let second = core.inform_unit(unit, &status()).unwrap().unwrap();
    assert_eq!(first.topic, second.topic);
    assert_eq!(bytes(&first), bytes(&second));
    assert!(first.retain && second.retain);
}

#[test]
fn inform_unit_after_release_is_silent() {
    let mut core = connected(false);
    core.disconnect().unwrap();
    core.release();
    let unit = core.unit("sshd.service").unwrap();
    assert!(core.inform_unit(unit, &status()).unwrap().is_none());
}

#[test]
fn disconnect_leaves_the_session_in_place() {
    let core = connected(true);
    let handles: Vec<_> = core.units.iter().map(|u| u.mqtt.handle).collect();
    let publishes = core.disconnect().unwrap();
    assert_eq!(publishes.len(), 4);
    assert!(core.mqtt.is_some());
    assert_eq!(core.units.iter().map(|u| u.mqtt.handle).collect::<Vec<_>>(), handles);
    let unit = core.unit("sshd.service").unwrap();
    let racing = core.inform_unit(unit, &status()).unwrap().unwrap();
    assert_eq!(racing.topic, "systemd/box/sshd/status");
}

#[test]
fn disconnect_gives_the_same_messages_until_release() {
    let mut core = connected(false);
    let first = core.disconnect().unwrap();
    let second = core.disconnect().unwrap();
    assert_eq!(first.len(), second.len());
    for (a, b) in first.iter().zip(second.iter()) {
        assert_eq!(a.topic, b.topic);
        assert_eq!(a.retain, b.retain);
    }
    core.release();
    assert!(core.mqtt.is_none());
    assert!(core.units.iter().all(|u| u.mqtt.handle.is_none()));
    assert!(core.disconnect().unwrap().is_empty());
}

#[test]
fn release_without_session_changes_nothing() {
    let mut core = Core::new(args(&["sshd.service"], false), None);
    core.release();
    assert!(core.mqtt.is_none());
    assert_eq!(core.sessions, 0);
    assert_eq!(core.units.len(), 1);
}
