//! The payloads that the bridge publishes and receives, and their JSON form.

use crate::json::{
    fields_view, json_members, json_quoted, json_string, members_view, parse_members, parse_string,
    quoted, Member, MemberView,
};
use crate::text::{chain, debug_quote, debug_quoted, decimal, decimal_of, joined, str_eq};
use vstd::utf8::encode_utf8;
use vstd::prelude::*;
use vstd::string::*;

verus! {

broadcast use vstd::string::group_string_axioms;

/// State and availability payload of an entity that is on.
pub const ON: &'static str = "ON";

/// State and availability payload of an entity that is off.
pub const OFF: &'static str = "OFF";

/// The name under which the bridge introduces itself.
pub const PKG_NAME: &'static str = "systemd2mqtt";

/// What can go wrong in the bridge.
#[derive(Debug)]
pub enum Error {
    NoMqttBackend,
    NoTls,
    UrlMissingHost,
    InvalidUnitUrl,
    InvalidUnitArgs,
    InvalidUnitSpec { spec: String },
    ConnectionLostSystemd,
    ConnectionLostMqtt,
    ConnectionError,
    HassMqtt,
    Dbus,
    Systemd,
    Entity,
    Serialization,
    InternalConsistency { unit_name: String },
}

impl Error {
    /// The sentence shown to the user for this error.
    pub fn message(&self) -> (r: String)
        ensures
            r@ == match *self {
                Error::NoMqttBackend => "built without support for an MQTT backend"@,
                Error::NoTls => "built without a supported MQTT backend"@,
                Error::UrlMissingHost => "MQTT url is missing the host to connect to"@,
                Error::InvalidUnitUrl => "failed to parse unit specification"@,
                Error::InvalidUnitArgs => "failed to parse unit arguments"@,
                Error::InvalidUnitSpec { spec } => "failed to parse unit specification "@
                    + debug_quoted(spec@),
                Error::ConnectionLostSystemd => "Systemd connection lost"@,
                Error::ConnectionLostMqtt => "MQTT connection lost"@,
                Error::ConnectionError => "MQTT connection error"@,
                Error::HassMqtt => "HassMqttClient error"@,
                Error::Dbus => "Systemd error"@,
                Error::Systemd => "Systemd error"@,
                Error::Entity => "home-assistant entity configuration error"@,
                Error::Serialization => "internal serialization error, this is a bug!"@,
                Error::InternalConsistency { .. } => "internal consistency error, this is a bug!"@,
            },
    {
        match self {
            Error::NoMqttBackend => "built without support for an MQTT backend".to_owned(),
            Error::NoTls => "built without a supported MQTT backend".to_owned(),
            Error::UrlMissingHost => "MQTT url is missing the host to connect to".to_owned(),
            Error::InvalidUnitUrl => "failed to parse unit specification".to_owned(),
            Error::InvalidUnitArgs => "failed to parse unit arguments".to_owned(),
            Error::InvalidUnitSpec { spec } => chain(
                "failed to parse unit specification ",
                debug_quote(spec.as_str()).as_str(),
            ),
            Error::ConnectionLostSystemd => "Systemd connection lost".to_owned(),
            Error::ConnectionLostMqtt => "MQTT connection lost".to_owned(),
            Error::ConnectionError => "MQTT connection error".to_owned(),
            Error::HassMqtt => "HassMqttClient error".to_owned(),
            Error::Dbus => "Systemd error".to_owned(),
            Error::Systemd => "Systemd error".to_owned(),
            Error::Entity => "home-assistant entity configuration error".to_owned(),
            Error::Serialization => "internal serialization error, this is a bug!".to_owned(),
            Error::InternalConsistency { .. } => "internal consistency error, this is a bug!".to_owned(),
        }
    }
}

/// The retained status of the bridge itself.
#[derive(Debug)]
pub struct ServiceStatus {
    pub is_active: bool,
    pub units: Vec<String>,
}

/// A command addressed to the bridge as a whole.
#[derive(Debug, Clone, Copy, PartialEq, Eq, Structural)]
pub enum ServiceCommand {
    SetActive { active: bool },
}

/// The properties of one unit, as the service manager reports them.
#[derive(Debug)]
pub struct UnitStatus {
    pub load_state: String,
    pub active_state: String,
    pub id: String,
    pub invocation_id: Vec<u8>,
    pub description: String,
    pub transient: bool,
}

/// A command addressed to one unit.
#[derive(Debug, Clone, Copy, PartialEq, Eq, Structural)]
pub enum UnitCommand {
    Start,
    Stop,
    Restart,
}

/// The characters of each string of a list.
pub open spec fn views(items: Seq<String>) -> Seq<Seq<char>> {
    items.map_values(|s: String| s@)
}

/// The JSON literals of the strings of a list.
pub open spec fn quoted_each(items: Seq<Seq<char>>) -> Seq<Seq<char>> {
    items.map_values(|s: Seq<char>| json_quoted(s))
}

/// The decimal numbers of the bytes of a list.
pub open spec fn decimal_each(bytes: Seq<u8>) -> Seq<Seq<char>> {
    bytes.map_values(|b: u8| decimal(b as nat))
}

/// `true` or `false`, as JSON writes them.
pub open spec fn bool_text(b: bool) -> Seq<char> {
    if b {
        "true"@
    } else {
        "false"@
    }
}

/// The JSON text of a service status with the given fields.
pub open spec fn service_status_text(is_active: bool, units: Seq<Seq<char>>) -> Seq<char> {
    "{\"is_active\":"@ + bool_text(is_active) + ",\"units\":"@ + ("["@ + joined(
        quoted_each(units),
        ","@,
    ) + "]"@) + "}"@
}

/// The name that a unit command has on the wire.
pub open spec fn unit_command_name(command: UnitCommand) -> Seq<char> {
    match command {
        UnitCommand::Start => "Start"@,
        UnitCommand::Stop => "Stop"@,
        UnitCommand::Restart => "Restart"@,
    }
}

/// The unit command with the given name on the wire, if there is one.
pub open spec fn unit_command_named(name: Seq<char>) -> Option<UnitCommand> {
    if name == "Start"@ {
        Some(UnitCommand::Start)
    } else if name == "Stop"@ {
        Some(UnitCommand::Stop)
    } else if name == "Restart"@ {
        Some(UnitCommand::Restart)
    } else {
        None
    }
}

/// The unit command that the members of a document stand for: one member,
/// under the name of a command, that holds `null`.
pub open spec fn unit_command_of(members: Seq<(Seq<char>, MemberView)>) -> Option<UnitCommand> {
    if members.len() == 1 && members[0].1 is Null {
        unit_command_named(members[0].0)
    } else {
        None
    }
}

/// The unit command that a payload holds: a JSON string that is the name
/// of a command, or a JSON object with one member, under the name of a
/// command, that holds `null`.
pub open spec fn spec_unit_command(payload: Seq<u8>) -> Option<UnitCommand> {
    match json_string(payload) {
        Some(name) => unit_command_named(name),
        None => match json_members(payload) {
            Some(members) => unit_command_of(members),
            None => None,
        },
    }
}

/// The service command that a payload holds: a JSON object with the one
/// member `Set`, which is either an object with a boolean member `active`
/// or an array of one boolean.
pub open spec fn spec_service_command(payload: Seq<u8>) -> Option<ServiceCommand> {
    match json_members(payload) {
        Some(members) => service_command_of(members),
        None => None,
    }
}

/// Position of the member called `name`, or the length when there is none.
pub open spec fn field_index(fields: Seq<(Seq<char>, Option<bool>)>, name: Seq<char>) -> int
    decreases fields.len(),
{
    if fields.len() == 0 {
        0
    } else if fields[0].0 == name {
        0
    } else {
        1 + field_index(fields.skip(1), name)
    }
}

/// The flag that the value of `Set` gives: that of the member `active` of an
/// object, whatever else the object holds, or the one element of an array.
pub open spec fn active_of(value: MemberView) -> Option<bool> {
    match value {
        MemberView::Fields(fields) => {
            let at = field_index(fields, "active"@);
            if 0 <= at < fields.len() {
                fields[at].1
            } else {
                None
            }
        },
        MemberView::List(items) => if items.len() == 1 {
            items[0]
        } else {
            None
        },
        _ => None,
    }
}

/// The service command that the members of a document stand for: exactly
/// one member, called `Set`, whose value gives a flag.
pub open spec fn service_command_of(members: Seq<(Seq<char>, MemberView)>) -> Option<
    ServiceCommand,
> {
    if members.len() == 1 && members[0].0 == "Set"@ {
        match active_of(members[0].1) {
            Some(active) => Some(ServiceCommand::SetActive { active }),
            None => None,
        }
    } else {
        None
    }
}

/// A value that has a JSON form on the wire.  Every such value has one:
/// nothing here can fail to be written.
pub trait SerializeExt {
    /// The JSON text of the value.
    spec fn json_text(&self) -> Seq<char>;

    /// The JSON text as a string.
    fn encode_str(&self) -> (r: String)
        ensures
            r@ == self.json_text(),
    ;

    /// The JSON text as bytes.
    fn encode(&self) -> (r: Vec<u8>)
        ensures
            r@ == encode_utf8(self.json_text()),
    {
        self.encode_str().as_str().as_bytes_vec()
    }

    /// The JSON text as a message payload.
    fn encode_payload(&self) -> (r: Vec<u8>)
        ensures
            r@ == encode_utf8(self.json_text()),
    {
        self.encode()
    }

    /// The JSON text as bytes, always `Ok`.
    fn try_encode(&self) -> (r: Result<Vec<u8>, Error>)
        ensures
            r is Ok,
            r.unwrap()@ == encode_utf8(self.json_text()),
    {
        Ok(self.encode())
    }

    /// The JSON text as a message payload, always `Ok`.
    fn try_encode_payload(&self) -> (r: Result<Vec<u8>, Error>)
        ensures
            r is Ok,
            r.unwrap()@ == encode_utf8(self.json_text()),
    {
        self.try_encode()
    }
}

/// The JSON array of the literals of `items`, brackets included.
fn quoted_array(items: &Vec<String>) -> (r: String)
    ensures
        r@ == "["@ + joined(quoted_each(views(items@)), ","@) + "]"@,
{
    let mut out = "[".to_owned();
    let mut i: usize = 0;
    while i < items.len()
        invariant
            i <= items.len(),
            out@ == "["@ + joined(quoted_each(views(items@).take(i as int)), ","@),
        decreases items.len() - i,
    {
        let ghost before = views(items@).take(i as int);
        let ghost after = views(items@).take(i + 1);
        let literal = quoted(items[i].as_str());
        proof {
            assert(after.drop_last() == before);
            assert(after.last() == items@[i as int]@);
            assert(quoted_each(after).drop_last() == quoted_each(before));
            assert(quoted_each(after).last() == literal@);
        }
        if i > 0 {
            out.append(",");
        }
        out.append(literal.as_str());
        i = i + 1;
    }
    assert(views(items@).take(i as int) == views(items@));
    out.append("]");
    out
}

/// The JSON array of the numbers of `bytes`, brackets included.
fn number_array(bytes: &Vec<u8>) -> (r: String)
    ensures
        r@ == "["@ + joined(decimal_each(bytes@), ","@) + "]"@,
{
    let mut out = "[".to_owned();
    let mut i: usize = 0;
    while i < bytes.len()
        invariant
            i <= bytes.len(),
            out@ == "["@ + joined(decimal_each(bytes@.take(i as int)), ","@),
        decreases bytes.len() - i,
    {
        let ghost before = bytes@.take(i as int);
        let ghost after = bytes@.take(i + 1);
        let number = decimal_of(bytes[i]);
        proof {
            assert(after.drop_last() == before);
            assert(decimal_each(after).drop_last() == decimal_each(before));
            assert(decimal_each(after).last() == number@);
        }
        if i > 0 {
            out.append(",");
        }
        out.append(number.as_str());
        i = i + 1;
    }
    assert(bytes@.take(i as int) == bytes@);
    out.append("]");
    out
}

fn bool_str(b: bool) -> (r: &'static str)
    ensures
        r@ == bool_text(b),
{
    if b {
        "true"
    } else {
        "false"
    }
}

impl SerializeExt for ServiceStatus {
    open spec fn json_text(&self) -> Seq<char> {
        service_status_text(self.is_active, views(self.units@))
    }

    fn encode_str(&self) -> (r: String) {
        let mut out = "{\"is_active\":".to_owned();
        out.append(bool_str(self.is_active));
        out.append(",\"units\":");
        out.append(quoted_array(&self.units).as_str());
        out.append("}");
        out
    }
}

impl SerializeExt for ServiceCommand {
    open spec fn json_text(&self) -> Seq<char> {
        match *self {
            ServiceCommand::SetActive { active } => "{\"Set\":{\"active\":"@ + bool_text(active)
                + "}}"@,
        }
    }

    fn encode_str(&self) -> (r: String) {
        match self {
            ServiceCommand::SetActive { active } => {
                let mut out = "{\"Set\":{\"active\":".to_owned();
                out.append(bool_str(*active));
                out.append("}}");
                out
            },
        }
    }
}

impl SerializeExt for UnitCommand {
    open spec fn json_text(&self) -> Seq<char> {
        "\""@ + unit_command_name(*self) + "\""@
    }

    fn encode_str(&self) -> (r: String) {
        let mut out = "\"".to_owned();
        out.append(
            match self {
                UnitCommand::Start => "Start",
                UnitCommand::Stop => "Stop",
                UnitCommand::Restart => "Restart",
            },
        );
        out.append("\"");
        out
    }
}

impl SerializeExt for UnitStatus {
    open spec fn json_text(&self) -> Seq<char> {
        "{\"load_state\":"@ + json_quoted(self.load_state@) + ",\"active_state\":"@ + json_quoted(
            self.active_state@,
        ) + ",\"id\":"@ + json_quoted(self.id@) + ",\"invocation_id\":"@ + ("["@ + joined(
            decimal_each(self.invocation_id@),
            ","@,
        ) + "]"@) + ",\"description\":"@ + json_quoted(self.description@) + ",\"transient\":"@
            + bool_text(self.transient) + "}"@
    }

    fn encode_str(&self) -> (r: String) {
        let mut out = "{\"load_state\":".to_owned();
        out.append(quoted(self.load_state.as_str()).as_str());
        out.append(",\"active_state\":");
        out.append(quoted(self.active_state.as_str()).as_str());
        out.append(",\"id\":");
        out.append(quoted(self.id.as_str()).as_str());
        out.append(",\"invocation_id\":");
        out.append(number_array(&self.invocation_id).as_str());
        out.append(",\"description\":");
        out.append(quoted(self.description.as_str()).as_str());
        out.append(",\"transient\":");
        out.append(bool_str(self.transient));
        out.append("}");
        out
    }
}

impl Default for UnitStatus {
    fn default() -> (r: Self)
        ensures
            r.load_state@.len() == 0,
            r.active_state@.len() == 0,
            r.id@.len() == 0,
            r.invocation_id@.len() == 0,
            r.description@.len() == 0,
            !r.transient,
    {
        UnitStatus {
            load_state: String::new(),
            active_state: String::new(),
            id: String::new(),
            invocation_id: Vec::new(),
            description: String::new(),
            transient: false,
        }
    }
}

impl UnitCommand {
    /// The command with the given wire name.
    pub fn from_name(name: &str) -> (r: Option<UnitCommand>)
        ensures
            r == unit_command_named(name@),
    {
        if str_eq(name, "Start") {
            Some(UnitCommand::Start)
        } else if str_eq(name, "Stop") {
            Some(UnitCommand::Stop)
        } else if str_eq(name, "Restart") {
            Some(UnitCommand::Restart)
        } else {
            None
        }
    }

    /// The command that the members of a document stand for.
    pub fn from_members(members: &Vec<(String, Member)>) -> (r: Option<UnitCommand>)
        ensures
            r == unit_command_of(members_view(members@)),
    {
        if members.len() != 1 {
            return None;
        }
        match &members[0].1 {
            Member::Null => UnitCommand::from_name(members[0].0.as_str()),
            _ => None,
        }
    }

    /// Reads a command from a payload.
    pub fn decode(payload: &[u8]) -> (r: Option<UnitCommand>)
        ensures
            r == spec_unit_command(payload@),
    {
        match parse_string(payload) {
            Some(name) => UnitCommand::from_name(name.as_str()),
            None => match parse_members(payload) {
                Some(members) => UnitCommand::from_members(&members),
                None => None,
            },
        }
    }
}

/// The flag of the member `active` among `fields`.
fn active_field(fields: &Vec<(String, Option<bool>)>) -> (r: Option<bool>)
    ensures
        r == active_of(MemberView::Fields(fields_view(fields@))),
{
    let ghost views = fields_view(fields@);
    let mut i: usize = 0;
    assert(views.skip(0) == views);
    while i < fields.len()
        invariant
            i <= fields.len(),
            views == fields_view(fields@),
            field_index(views, "active"@) == i + field_index(views.skip(i as int), "active"@),
        decreases fields.len() - i,
    {
        let ghost rest = views.skip(i as int);
        assert(rest[0] == views[i as int]);
        assert(rest.skip(1) == views.skip(i + 1));
        if str_eq(fields[i].0.as_str(), "active") {
            return fields[i].1;
        }
        i = i + 1;
    }
    None
}

impl ServiceCommand {
    /// The command that the members of a document stand for.
    pub fn from_members(members: &Vec<(String, Member)>) -> (r: Option<ServiceCommand>)
        ensures
            r == service_command_of(members_view(members@)),
    {
        if members.len() != 1 || !str_eq(members[0].0.as_str(), "Set") {
            return None;
        }
        let active = match &members[0].1 {
            Member::Fields(fields) => active_field(fields),
            Member::List(items) => if items.len() == 1 {
                items[0]
            } else {
                None
            },
            _ => None,
        };
        match active {
            Some(active) => Some(ServiceCommand::SetActive { active }),
            None => None,
        }
    }

    /// Reads a command from a payload.
    pub fn decode(payload: &[u8]) -> (r: Option<ServiceCommand>)
        ensures
            r == spec_service_command(payload@),
    {
        match parse_members(payload) {
            Some(members) => ServiceCommand::from_members(&members),
            None => None,
        }
    }
}

} // verus!
