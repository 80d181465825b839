use systemd2mqtt::bridge::Core;
use systemd2mqtt::config::{Args, UnitConfig};
use systemd2mqtt::payload::UnitCommand;
use systemd2mqtt::router::{Reaction, TOPIC_ROOT};

fn bridge(hostname: &str, units: &[&str]) -> Core {
    let args = Args {
        mqtt_url: None,
        units: units.iter().map(|u| UnitConfig::named(u)).collect(),
        hostname: Some(hostname.to_string()),
        clean_up: false,
        discovery_prefix: "homeassistant".to_string(),
        mqtt_username: None,
        mqtt_password: None,
    };
    Core::new(args, None)
}

#[test]
fn message_for_another_host_is_ignored() {
    let core = bridge("host", &["x"]);
    let reaction = core.handle_message("root/otherhost/x/activate", b"\"Start\"");
    assert!(matches!(reaction, Reaction::Foreign));
    assert!(reaction.keeps_running());
    assert!(matches!(core.handle_message("root/otherhost/control", b"{\"Set\":{\"active\":false}}"), Reaction::Foreign));
    assert!(matches!(core.handle_message("root/otherhost", b""), Reaction::Foreign));
    assert!(matches!(core.handle_message("root/otherhost/a/b/c/d", b""), Reaction::Foreign));
}

#[test]
fn start_command_for_a_tracked_unit_yields_a_start_call() {
    let core = bridge("host", &["sshd"]);
    match core.handle_message("root/host/sshd/activate", b"\"Start\"") {
        Reaction::Call(call) => {
            assert_eq!(call.command, UnitCommand::Start);
            assert_eq!(call.unit, "sshd");
            assert_eq!(call.mode, "fail");
        },
        other => panic!("unexpected {other:?}"),
    }
}

#[test]
fn stop_and_restart_commands() {
    let core = bridge("host", &["sshd.service"]);
    for (payload, command) in [(&b"\"Stop\""[..], UnitCommand::Stop), (&b"\"Restart\""[..], UnitCommand::Restart)] {
        match core.handle_message("root/host/sshd.service/activate", payload) {
            Reaction::Call(call) => {
                assert_eq!(call.command, command);
                assert_eq!(call.unit, "sshd.service");
                assert_eq!(call.mode, "fail");
            },
            other => panic!("unexpected {other:?}"),
        }
    }
}

#[test]
fn command_for_an_untracked_unit_yields_no_call() {
    let core = bridge("host", &["cron"]);
    match core.handle_message("root/host/sshd/activate", b"\"Start\"") {
        Reaction::Untracked { unit } => assert_eq!(unit, "sshd"),
        other => panic!("unexpected {other:?}"),
    }
}

#[test]
fn unknown_unit_command_is_dropped() {
    let core = bridge("host", &["sshd"]);
    for payload in [&b"\"Reload\""[..], b"Start", b"", b"{\"Set\":{\"active\":false}}", b"{\"Start\":1}"] {
        match core.handle_message("root/host/sshd/activate", payload) {
            Reaction::UnsupportedUnitCommand { unit } => assert_eq!(unit, "sshd"),
            other => panic!("unexpected {other:?}"),
        }
    }
}

#[test]
fn activate_shape_matches_under_any_prefix() {
    let core = bridge("host", &["sshd"]);
    assert!(matches!(core.handle_message("elsewhere/anyhost/sshd/activate", b"\"Stop\""), Reaction::Call(_)));
    assert!(matches!(core.handle_message("root/host/sshd/activate", b"\"Stop\""), Reaction::Call(_)));
    assert!(matches!(core.handle_message("//sshd/activate", b"\"Stop\""), Reaction::Call(_)));
}

#[test]
fn control_inactive_asks_for_shutdown() {
    let core = bridge("host", &[]);
    let reaction = core.handle_message("root/host/control", b"{\"Set\":{\"active\":false}}");
    assert!(matches!(reaction, Reaction::Shutdown));
    assert!(!reaction.keeps_running());
}

#[test]
fn control_active_changes_nothing() {
    let core = bridge("host", &[]);
    let reaction = core.handle_message("root/host/control", b"{\"Set\":{\"active\":true}}");
    assert!(matches!(reaction, Reaction::Reasserted));
    assert!(reaction.keeps_running());
}

#[test]
fn unknown_control_payload_is_dropped() {
    let core = bridge("host", &[]);
    for payload in [&b"\"Start\""[..], b"{}", b"{\"Set\":{}}", b"garbage", b""] {
        let reaction = core.handle_message("root/host/control", payload);
        assert!(matches!(reaction, Reaction::UnsupportedServiceCommand));
        assert!(reaction.keeps_running());
    }
}

#[test]
fn other_shapes_are_unrecognized() {
    let core = bridge("host", &["sshd"]);
    for topic in [
        "",
        "root",
        "root/host",
        "root/host/sshd",
        "root/host/sshd/status",
        "root/host/sshd/activate/more",
        "root/host/control/more",
        "other/x",
        "control",
        "sshd/activate",
    ] {
        assert!(matches!(core.handle_message(topic, b"\"Start\""), Reaction::Unrecognized), "{topic}");
    }
}

#[test]
fn hostname_is_compared_by_its_first_label() {
    let core = bridge("host.example.org", &["sshd"]);
    assert!(matches!(core.handle_message("root/host/sshd/activate", b"\"Start\""), Reaction::Call(_)));
    assert!(matches!(core.handle_message("root/host.example.org/sshd/activate", b"\"Start\""), Reaction::Foreign));
}

#[test]
fn handle_activate_decodes_the_command() {
    let core = bridge("host", &["sshd"]);
    let call = core.handle_activate("sshd", b"\"Restart\"").unwrap();
    assert_eq!(call.command, UnitCommand::Restart);
    assert_eq!(call.unit, "sshd");
    assert_eq!(call.mode, "fail");
    assert!(core.handle_activate("sshd", b"\"restart\"").is_none());
}

#[test]
fn only_topics_under_root_can_be_foreign() {
    let core = bridge("host", &["sshd"]);
    assert_eq!(TOPIC_ROOT, "root");
    assert!(matches!(core.handle_message("root/otherhost/sshd/activate", b"\"Start\""), Reaction::Foreign));
    assert!(matches!(core.handle_message("systemd/otherhost/sshd/activate", b"\"Start\""), Reaction::Call(_)));
    assert!(matches!(core.handle_message("Root/otherhost/sshd/activate", b"\"Start\""), Reaction::Call(_)));
}

#[test]
fn shutdown_request_for_another_host_is_ignored() {
    let core = bridge("host", &[]);
    let reaction = core.handle_message("root/otherhost/control", b"{\"Set\":{\"active\":false}}");
    assert!(matches!(reaction, Reaction::Foreign));
    assert!(reaction.keeps_running());
}

#[test]
fn object_form_of_a_unit_command_yields_a_call() {
    let core = bridge("host", &["sshd"]);
    match core.handle_message("root/host/sshd/activate", b"{\"Stop\":null}") {
        Reaction::Call(call) => assert_eq!(call.command, UnitCommand::Stop),
        other => panic!("unexpected {other:?}"),
    }
}
