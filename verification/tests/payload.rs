use systemd2mqtt::json::Member;
use systemd2mqtt::payload::{Error, SerializeExt, ServiceCommand, ServiceStatus, UnitCommand, UnitStatus};

#[test]
fn service_status_encodes_units_in_order() {
    let status = ServiceStatus {
        is_active: true,
        units: vec!["sshd.service".to_string(), "cron \"daily\".service".to_string()],
    };
    assert_eq!(
        status.encode_str(),
        "{\"is_active\":true,\"units\":[\"sshd.service\",\"cron \\\"daily\\\".service\"]}"
    );
}

#[test]
fn service_status_without_units() {
    let status = ServiceStatus { is_active: false, units: Vec::new() };
    assert_eq!(status.encode(), b"{\"is_active\":false,\"units\":[]}".to_vec());
}

#[test]
fn unit_status_encodes_every_field() {
    let status = UnitStatus {
        load_state: "loaded".to_string(),
        active_state: "active".to_string(),
        id: "sshd.service".to_string(),
        invocation_id: vec![0, 7, 42, 100, 255],
        description: "OpenSSH\nDaemon".to_string(),
        transient: false,
    };
    assert_eq!(
        status.encode_str(),
        "{\"load_state\":\"loaded\",\"active_state\":\"active\",\"id\":\"sshd.service\",\"invocation_id\":[0,7,42,100,255],\"description\":\"OpenSSH\\nDaemon\",\"transient\":false}"
    );
}

#[test]
fn default_unit_status_is_empty() {
    let status = UnitStatus::default();
    assert_eq!(
        status.try_encode_payload().unwrap(),
        b"{\"load_state\":\"\",\"active_state\":\"\",\"id\":\"\",\"invocation_id\":[],\"description\":\"\",\"transient\":false}".to_vec()
    );
}

#[test]
fn try_encode_always_succeeds() {
    let status = ServiceStatus { is_active: true, units: vec!["\u{0}\u{1f}\\ \u{7f} \u{1F600}".to_string()] };
    assert_eq!(
        status.try_encode().unwrap(),
        "{\"is_active\":true,\"units\":[\"\\u0000\\u001f\\\\ \u{7f} \u{1F600}\"]}".as_bytes().to_vec()
    );
    assert_eq!(UnitCommand::Start.try_encode_payload().unwrap(), b"\"Start\"".to_vec());
}

#[test]
fn unit_commands_encode_as_their_names() {
    assert_eq!(UnitCommand::Start.encode_str(), "\"Start\"");
    assert_eq!(UnitCommand::Stop.encode_str(), "\"Stop\"");
    assert_eq!(UnitCommand::Restart.encode_payload(), b"\"Restart\"".to_vec());
}

#[test]
fn service_command_encodes_as_tagged_object() {
    assert_eq!(ServiceCommand::SetActive { active: false }.encode_str(), "{\"Set\":{\"active\":false}}");
    assert_eq!(ServiceCommand::SetActive { active: true }.encode_str(), "{\"Set\":{\"active\":true}}");
}

#[test]
fn unit_command_decodes_names_only() {
    assert_eq!(UnitCommand::decode(b"\"Start\""), Some(UnitCommand::Start));
    assert_eq!(UnitCommand::decode(b" \"Stop\" "), Some(UnitCommand::Stop));
    assert_eq!(UnitCommand::decode(b"\"Restart\""), Some(UnitCommand::Restart));
    assert_eq!(UnitCommand::decode(b"\"Rest\\u0061rt\""), Some(UnitCommand::Restart));
    assert_eq!(UnitCommand::decode(b"\"Reload\""), None);
    assert_eq!(UnitCommand::decode(b"Start"), None);
    assert_eq!(UnitCommand::decode(b""), None);
    assert_eq!(UnitCommand::decode(b"\"Start\" trailing"), None);
}

#[test]
fn unit_command_decodes_the_object_form() {
    assert_eq!(UnitCommand::decode(b"{\"Start\":null}"), Some(UnitCommand::Start));
    assert_eq!(UnitCommand::decode(b" { \"Restart\" : null } "), Some(UnitCommand::Restart));
    assert_eq!(UnitCommand::decode(b"{\"Start\":true}"), None);
    assert_eq!(UnitCommand::decode(b"{\"Start\":{}}"), None);
    assert_eq!(UnitCommand::decode(b"{\"Reload\":null}"), None);
    assert_eq!(UnitCommand::decode(b"{\"Start\":null,\"Stop\":null}"), None);
    assert_eq!(UnitCommand::decode(b"{}"), None);
    assert_eq!(UnitCommand::decode(b"[\"Start\"]"), None);
}

#[test]
fn unit_command_from_name() {
    assert_eq!(UnitCommand::from_name("Start"), Some(UnitCommand::Start));
    assert_eq!(UnitCommand::from_name("start"), None);
    assert_eq!(UnitCommand::from_name(""), None);
}

#[test]
fn service_command_decodes_set_active() {
    assert_eq!(
        ServiceCommand::decode(b"{\"Set\":{\"active\":false}}"),
        Some(ServiceCommand::SetActive { active: false })
    );
    assert_eq!(
        ServiceCommand::decode(b"{ \"Set\" : { \"active\" : true } }"),
        Some(ServiceCommand::SetActive { active: true })
    );
}

#[test]
fn service_command_passes_over_other_members() {
    assert_eq!(
        ServiceCommand::decode(b"{\"Set\":{\"aaa\":true,\"active\":false,\"zzz\":true}}"),
        Some(ServiceCommand::SetActive { active: false })
    );
    assert_eq!(
        ServiceCommand::decode(b"{\"Set\":{\"note\":\"x\",\"active\":true,\"n\":[1,{\"a\":null}],\"z\":1.5}}"),
        Some(ServiceCommand::SetActive { active: true })
    );
}

#[test]
fn service_command_decodes_the_array_form() {
    assert_eq!(ServiceCommand::decode(b"{\"Set\":[false]}"), Some(ServiceCommand::SetActive { active: false }));
    assert_eq!(ServiceCommand::decode(b"{\"Set\":[true]}"), Some(ServiceCommand::SetActive { active: true }));
    assert_eq!(ServiceCommand::decode(b"{\"Set\":[]}"), None);
    assert_eq!(ServiceCommand::decode(b"{\"Set\":[true,false]}"), None);
    assert_eq!(ServiceCommand::decode(b"{\"Set\":[1]}"), None);
}

#[test]
fn service_command_rejects_other_documents() {
    assert_eq!(ServiceCommand::decode(b"{\"Set\":{}}"), None);
    assert_eq!(ServiceCommand::decode(b"{\"Get\":{\"active\":false}}"), None);
    assert_eq!(ServiceCommand::decode(b"{\"Set\":{\"active\":false},\"Other\":{}}"), None);
    assert_eq!(ServiceCommand::decode(b"{\"Set\":{\"active\":1}}"), None);
    assert_eq!(ServiceCommand::decode(b"{\"Set\":{\"active\":\"false\"}}"), None);
    assert_eq!(ServiceCommand::decode(b"{\"Set\":{\"Active\":false}}"), None);
    assert_eq!(ServiceCommand::decode(b"{\"Set\":null}"), None);
    assert_eq!(ServiceCommand::decode(b"{\"Set\":false}"), None);
    assert_eq!(ServiceCommand::decode(b"\"Set\""), None);
    assert_eq!(ServiceCommand::decode(b"{}"), None);
    assert_eq!(ServiceCommand::decode(b"not json"), None);
    assert_eq!(ServiceCommand::decode(b"{\"Set\":{\"active\":false}} x"), None);
}

#[test]
fn commands_from_members() {
    let set = vec![("Set".to_string(), Member::Fields(vec![("active".to_string(), Some(true))]))];
    assert_eq!(ServiceCommand::from_members(&set), Some(ServiceCommand::SetActive { active: true }));
    let unset = vec![("Set".to_string(), Member::Fields(vec![("active".to_string(), None)]))];
    assert_eq!(ServiceCommand::from_members(&unset), None);
    let listed = vec![("Set".to_string(), Member::List(vec![Some(false)]))];
    assert_eq!(ServiceCommand::from_members(&listed), Some(ServiceCommand::SetActive { active: false }));
    let flag = vec![("Set".to_string(), Member::Flag(false))];
    assert_eq!(ServiceCommand::from_members(&flag), None);
    assert_eq!(ServiceCommand::from_members(&Vec::new()), None);

    let stop = vec![("Stop".to_string(), Member::Null)];
    assert_eq!(UnitCommand::from_members(&stop), Some(UnitCommand::Stop));
    let other = vec![("Stop".to_string(), Member::Other)];
    assert_eq!(UnitCommand::from_members(&other), None);
    assert_eq!(UnitCommand::from_members(&Vec::new()), None);
}

#[test]
fn error_messages() {
    assert_eq!(Error::UrlMissingHost.message(), "MQTT url is missing the host to connect to");
    assert_eq!(Error::Serialization.message(), "internal serialization error, this is a bug!");
    assert_eq!(
        Error::InvalidUnitSpec { spec: "x".to_string() }.message(),
        "failed to parse unit specification \"x\""
    );
    assert_eq!(
        Error::InvalidUnitSpec { spec: "a\"b\n".to_string() }.message(),
        "failed to parse unit specification \"a\\\"b\\n\""
    );
    assert_eq!(
        Error::InternalConsistency { unit_name: "a.service".to_string() }.message(),
        "internal consistency error, this is a bug!"
    );
}
