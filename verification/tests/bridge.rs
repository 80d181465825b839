use systemd2mqtt::bridge::{Core, Unit};
use systemd2mqtt::connect::Allocation;
use systemd2mqtt::config::{Args, BrokerUrl, UnitConfig};
use systemd2mqtt::payload::Error;
use systemd2mqtt::topics::{EntityTopics, TopicHandle, TopicStore};

fn args(units: &[&str]) -> Args {
    Args {
        mqtt_url: Some(url("tcp", Some("broker.lan"), None)),
        units: units.iter().map(|u| UnitConfig::named(u)).collect(),
        hostname: Some("box.lan".to_string()),
        clean_up: false,
        discovery_prefix: "homeassistant".to_string(),
        mqtt_username: None,
        mqtt_password: None,
    }
}

fn url(scheme: &str, host: Option<&str>, port: Option<u16>) -> BrokerUrl {
    BrokerUrl {
        scheme: scheme.to_string(),
        host: host.map(|h| h.to_string()),
        port,
        username: String::new(),
        password: None,
    }
}

fn topics(name: &str, command: bool) -> EntityTopics {
    EntityTopics {
        config_topic: format!("homeassistant/switch/{name}/config"),
        state_topic: format!("systemd/box/{name}/status"),
        command_topic: if command { Some(format!("systemd/box/{name}/activate")) } else { None },
    }
}

fn diag() -> EntityTopics {
    EntityTopics {
        config_topic: "homeassistant/button/diag_reset/config".to_string(),
        state_topic: "systemd/box/diag_reset/status".to_string(),
        command_topic: Some("systemd/box/diag_reset/set".to_string()),
    }
}

fn allocation(unit: &str, short: &str, command: bool) -> Allocation {
    Allocation { unit_name: unit.to_string(), topics: Some(topics(short, command)) }
}

fn resolves(core: &Core, name: &str) -> bool {
    let store = core.mqtt.as_ref().map(|session| &session.units);
    core.unit(name).unwrap().topics(store).is_some()
}

fn in_session(core: &Core, name: &str) -> bool {
    match &core.mqtt {
        Some(session) => session.units.position(name).is_some(),
        None => false,
    }
}

#[test]
fn new_bridge_has_no_session() {
    let core = Core::new(args(&["a.service", "b.service"]), None);
    assert!(core.mqtt.is_none());
    assert_eq!(core.units.len(), 2);
    assert_eq!(core.units[0].unit_name(), "a.service");
    assert_eq!(core.units[1].unit_name(), "b.service");
    assert!(core.units.iter().all(|u| u.mqtt.handle.is_none()));
    assert!(!resolves(&core, "a.service"));
}

#[test]
fn later_settings_replace_earlier_ones_of_the_same_name() {
    let mut a = args(&["a.service", "b.service", "a.service"]);
    a.units[2].read_only = true;
    let core = Core::new(a, None);
    assert_eq!(core.units.len(), 2);
    assert_eq!(core.units[0].unit_name(), "a.service");
    assert!(core.units[0].unit.read_only);
    assert_eq!(core.units[1].unit_name(), "b.service");
}

#[test]
fn unit_lookup() {
    let core = Core::new(args(&["a.service", "b.service"]), None);
    assert_eq!(core.unit_position("b.service"), Some(1));
    assert_eq!(core.unit_position("c.service"), None);
    assert_eq!(core.unit("a.service").unwrap().unit.unit, "a.service");
    assert!(core.unit("a").is_none());
}

#[test]
fn hostname_comes_from_the_settings_first() {
    let core = Core::new(args(&[]), Some("other.example".to_string()));
    assert_eq!(core.hostname_(), "box.lan");
    assert_eq!(core.hostname(), "box");
}

#[test]
fn hostname_falls_back_to_the_system_then_to_a_constant() {
    let mut a = args(&[]);
    a.hostname = None;
    let core = Core::new(a, Some("other.example".to_string()));
    assert_eq!(core.hostname_(), "other.example");
    assert_eq!(core.hostname(), "other");
    let mut a = args(&[]);
    a.hostname = None;
    let core = Core::new(a, None);
    assert_eq!(core.hostname_(), "systemd");
    assert_eq!(core.hostname(), "systemd");
}

#[test]
fn mqtt_create_without_url() {
    let mut a = args(&[]);
    a.mqtt_url = None;
    assert!(matches!(Core::new(a, None).mqtt_create(true), Ok(None)));
}

#[test]
fn mqtt_create_without_host() {
    let mut a = args(&[]);
    a.mqtt_url = Some(url("tcp", None, None));
    assert!(matches!(Core::new(a, None).mqtt_create(true), Err(Error::UrlMissingHost)));
    let mut a = args(&[]);
    a.mqtt_url = Some(url("mqtts", None, None));
    assert!(matches!(Core::new(a, None).mqtt_create(false), Err(Error::UrlMissingHost)));
}

#[test]
fn mqtt_create_refuses_tls_without_support() {
    for scheme in ["mqtts", "ssl"] {
        let mut a = args(&[]);
        a.mqtt_url = Some(url(scheme, Some("broker.lan"), None));
        assert!(matches!(Core::new(a, None).mqtt_create(false), Err(Error::NoTls)));
        let mut a = args(&[]);
        a.mqtt_url = Some(url(scheme, Some("broker.lan"), None));
        let options = Core::new(a, None).mqtt_create(true).unwrap().unwrap();
        assert!(options.tls);
    }
}

#[test]
fn mqtt_create_fills_in_defaults() {
    let options = Core::new(args(&[]), None).mqtt_create(false).unwrap().unwrap();
    assert_eq!(options.host, "broker.lan");
    assert_eq!(options.application, "systemd2mqtt");
    assert_eq!(options.port, 1883);
    assert_eq!(options.node_id, "box");
    assert_eq!(options.discovery_prefix, "homeassistant");
    assert_eq!(options.private_prefix, "root");
    assert!(!options.tls);
    assert!(options.auth.is_none());
}

#[test]
fn mqtt_create_takes_port_and_credentials() {
    let mut a = args(&[]);
    a.mqtt_url = Some(BrokerUrl {
        scheme: "tcp".to_string(),
        host: Some("broker.lan".to_string()),
        port: Some(8883),
        username: "user".to_string(),
        password: None,
    });
    let options = Core::new(a, None).mqtt_create(false).unwrap().unwrap();
    assert_eq!(options.port, 8883);
    assert_eq!(options.private_prefix, "root");
    assert_eq!(options.auth, Some(("user".to_string(), String::new())));

    let mut a = args(&[]);
    a.mqtt_username = Some("me".to_string());
    a.mqtt_password = Some("secret".to_string());
    let options = Core::new(a, None).mqtt_create(false).unwrap().unwrap();
    assert_eq!(options.auth, Some(("me".to_string(), "secret".to_string())));
}

#[test]
fn entity_requests_start_with_the_button() {
    let mut a = args(&["sshd.service", "cron.service"]);
    a.units[1].read_only = true;
    let requests = Core::new(a, None).entity_requests();
    assert_eq!(requests.len(), 3);
    assert!(requests[0].unit_name.is_none());
    assert_eq!(requests[0].entity.domain, "button");
    assert_eq!(requests[0].entity.short_id, "diag_reset");
    assert_eq!(requests[0].state, "status");
    assert_eq!(requests[0].command.as_deref(), Some("set"));
    assert_eq!(requests[1].unit_name.as_deref(), Some("sshd.service"));
    assert_eq!(requests[1].entity.domain, "switch");
    assert_eq!(requests[1].entity.short_id, "sshd");
    assert_eq!(requests[1].state, "status");
    assert_eq!(requests[1].command.as_deref(), Some("activate"));
    assert_eq!(requests[2].unit_name.as_deref(), Some("cron.service"));
    assert_eq!(requests[2].entity.domain, "binary_sensor");
    assert_eq!(requests[2].entity.short_id, "cron");
    assert!(requests[2].command.is_none());
}

#[test]
fn connect_installs_a_session_for_every_allocation() {
    let mut a = args(&["a.service", "b.service", "c.service"]);
    a.units[1].read_only = true;
    let mut core = Core::new(a, None);
    let commands = core
        .connect_mqtt(
            diag(),
            vec![allocation("b.service", "b", true), allocation("a.service", "a", true)],
        )
        .unwrap();
    assert_eq!(
        commands,
        vec!["systemd/box/a/activate".to_string(), "systemd/box/diag_reset/set".to_string()]
    );
    let session = core.mqtt.as_ref().unwrap();
    assert_eq!(session.status_topic(), "systemd/box/diag_reset/status");
    assert_eq!(session.set_topic(), "systemd/box/diag_reset/set");
    assert_eq!(session.entity_context.hostname(), "box");
    assert_eq!(session.entity_context.availability.status_topic, "systemd/box/diag_reset/status");
    assert_eq!(session.diag_button_entity.command_topic, "systemd/box/diag_reset/set");
    let store = Some(&session.units);
    let a = core.unit("a.service").unwrap().topics(store).unwrap();
    assert_eq!(a.state_topic, "systemd/box/a/status");
    assert_eq!(a.command_topic.as_deref(), Some("systemd/box/a/activate"));
    let b = core.unit("b.service").unwrap().topics(store).unwrap();
    assert_eq!(b.state_topic, "systemd/box/b/status");
    assert!(b.command_topic.is_none());
    assert!(core.unit("c.service").unwrap().topics(store).is_none());
}

#[test]
fn slot_resolves_exactly_for_units_in_the_session() {
    let mut core = Core::new(args(&["a.service", "b.service", "c.service"]), None);
    for name in ["a.service", "b.service", "c.service"] {
        assert_eq!(resolves(&core, name), in_session(&core, name));
        assert!(!resolves(&core, name));
    }
    core.connect_mqtt(diag(), vec![allocation("a.service", "a", true), allocation("c.service", "c", true)])
        .unwrap();
    for (name, expected) in [("a.service", true), ("b.service", false), ("c.service", true)] {
        assert_eq!(resolves(&core, name), expected);
        assert_eq!(in_session(&core, name), expected);
    }
    core.disconnect().unwrap();
    for (name, expected) in [("a.service", true), ("b.service", false), ("c.service", true)] {
        assert_eq!(resolves(&core, name), expected);
    }
    core.release();
    for name in ["a.service", "b.service", "c.service"] {
        assert!(!resolves(&core, name));
        assert!(!in_session(&core, name));
    }
}

#[test]
fn last_allocation_of_a_name_wins() {
    let mut core = Core::new(args(&["a.service"]), None);
    let commands = core
        .connect_mqtt(diag(), vec![allocation("a.service", "first", true), allocation("a.service", "second", true)])
        .unwrap();
    assert_eq!(commands.len(), 3);
    assert_eq!(commands[0], "systemd/box/first/activate");
    assert_eq!(commands[1], "systemd/box/second/activate");
    let session = core.mqtt.as_ref().unwrap();
    assert_eq!(session.units.entries.len(), 1);
    let resolved = core.unit("a.service").unwrap().topics(Some(&session.units)).unwrap();
    assert_eq!(resolved.state_topic, "systemd/box/second/status");
}

#[test]
fn failed_allocation_leaves_everything_as_it_was() {
    let mut core = Core::new(args(&["a.service", "b.service"]), None);
    let result = core.connect_mqtt(
        diag(),
        vec![allocation("a.service", "a", true), Allocation { unit_name: "b.service".to_string(), topics: None }],
    );
    assert!(matches!(result, Err(Error::Entity)));
    assert!(core.mqtt.is_none());
    assert!(core.units.iter().all(|u| u.mqtt.handle.is_none()));
    assert_eq!(core.sessions, 0);
}

#[test]
fn failed_reconnect_keeps_the_old_session() {
    let mut core = Core::new(args(&["a.service", "b.service"]), None);
    core.connect_mqtt(diag(), vec![allocation("a.service", "a", true)]).unwrap();
    let before: Vec<_> = core.units.iter().map(|u| u.mqtt.handle).collect();
    let result = core.connect_mqtt(
        diag(),
        vec![allocation("b.service", "b", true), Allocation { unit_name: "a.service".to_string(), topics: None }],
    );
    assert!(matches!(result, Err(Error::Entity)));
    let after: Vec<_> = core.units.iter().map(|u| u.mqtt.handle).collect();
    assert_eq!(before, after);
    assert!(resolves(&core, "a.service"));
    assert!(!resolves(&core, "b.service"));
}

#[test]
fn allocation_for_an_unknown_unit_is_an_inconsistency() {
    let mut core = Core::new(args(&["a.service"]), None);
    let result = core.connect_mqtt(
        diag(),
        vec![allocation("a.service", "a", true), allocation("ghost.service", "ghost", true)],
    );
    match result {
        Err(Error::InternalConsistency { unit_name }) => assert_eq!(unit_name, "ghost.service"),
        other => panic!("unexpected {other:?}"),
    }
    assert!(core.mqtt.is_none());
    assert!(!resolves(&core, "a.service"));
}

#[test]
fn first_misfit_decides_the_error() {
    let mut core = Core::new(args(&["a.service"]), None);
    let result = core.connect_mqtt(
        diag(),
        vec![allocation("ghost.service", "ghost", true), Allocation { unit_name: "a.service".to_string(), topics: None }],
    );
    assert!(matches!(result, Err(Error::InternalConsistency { .. })));
    let result = core.connect_mqtt(
        diag(),
        vec![Allocation { unit_name: "ghost.service".to_string(), topics: None }, allocation("ghost.service", "g", true)],
    );
    assert!(matches!(result, Err(Error::Entity)));
}

#[test]
fn switch_without_command_topic_is_refused() {
    let mut core = Core::new(args(&["a.service"]), None);
    let result = core.connect_mqtt(diag(), vec![allocation("a.service", "a", false)]);
    assert!(matches!(result, Err(Error::Entity)));
    assert!(core.mqtt.is_none());
}

#[test]
fn button_without_command_topic_is_refused() {
    let mut core = Core::new(args(&["a.service"]), None);
    let mut button = diag();
    button.command_topic = None;
    let result = core.connect_mqtt(button, vec![allocation("a.service", "a", true)]);
    assert!(matches!(result, Err(Error::Entity)));
    assert!(core.mqtt.is_none());
}

#[test]
fn reconnect_replaces_the_session() {
    let mut core = Core::new(args(&["a.service", "b.service"]), None);
    core.connect_mqtt(diag(), vec![allocation("a.service", "a", true)]).unwrap();
    let first = core.mqtt.as_ref().unwrap().units.id;
    core.connect_mqtt(diag(), vec![allocation("b.service", "b", true)]).unwrap();
    let second = core.mqtt.as_ref().unwrap().units.id;
    assert_ne!(first, second);
    assert!(!resolves(&core, "a.service"));
    assert!(resolves(&core, "b.service"));
}

#[test]
fn unit_slot_follows_set_and_drop() {
    let mut unit = Unit::new(UnitConfig::named("a.service"));
    assert_eq!(unit.unit_name(), "a.service");
    assert!(unit.mqtt.handle.is_none());
    let mut store = TopicStore::new(3);
    let handle = store.insert("a.service".to_string(), topics("a", true));
    assert!(unit.topics(Some(&store)).is_none());
    assert_eq!(unit.set_topics(handle), None);
    assert_eq!(unit.topics(Some(&store)).unwrap().state_topic, "systemd/box/a/status");
    assert!(unit.topics(None).is_none());
    assert_eq!(unit.set_topics(TopicHandle { store: 3, index: 5 }), Some(handle));
    assert!(unit.topics(Some(&store)).is_none());
    unit.drop_topics();
    assert!(unit.mqtt.handle.is_none());
    assert!(unit.topics(Some(&store)).is_none());
    assert_eq!(unit.unit.unit, "a.service");
}
