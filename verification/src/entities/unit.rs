//! The entity of one unit: a switch, or a binary sensor where the unit is
//! only to be watched.

use crate::config::{DeviceClass, EntityCategory, UnitConfig};
use crate::entities::document::{Availability, BinarySensor, Document, Switch};
use crate::text::opt_view;
use crate::entities::{
    format_object_id, spec_device_id, spec_format_object_id, spec_value_template,
    ConfiguredDevice, EntityContext, EntityDocument, EntityIds, EntityObject, StaticEntity,
    STATE_TEMPLATE,
};
use crate::payload::{SerializeExt, UnitCommand, OFF, ON};
use crate::text::{join_with, replace_char, replaced};
use crate::topics::{EntityTopics, TopicRequest};
use vstd::prelude::*;
use vstd::string::*;

verus! {

broadcast use vstd::string::group_string_axioms;

/// A unit that can be started and stopped from the consumer.
#[derive(Debug)]
pub struct UnitSwitch {
    pub device: ConfiguredDevice,
    pub command_topic: String,
    pub state_topic: String,
    pub availability: Availability,
    pub unique_id: String,
    pub object_id: String,
    pub name: String,
    pub payloads: (String, String),
    pub states: (&'static str, &'static str),
    pub entity_category: EntityCategory,
    pub device_class: DeviceClass,
    pub enabled_by_default: bool,
    pub icon: Option<String>,
}

/// A unit that can only be watched.
#[derive(Debug)]
pub struct UnitSensor {
    pub device: ConfiguredDevice,
    pub state_topic: String,
    pub availability: Availability,
    pub unique_id: String,
    pub object_id: String,
    pub name: String,
    pub states: (&'static str, &'static str),
    pub entity_category: EntityCategory,
    pub device_class: DeviceClass,
    pub enabled_by_default: bool,
    pub icon: Option<String>,
}

/// The entity of a unit, of either kind.
#[derive(Debug)]
pub enum ConfiguredUnit {
    Switch(UnitSwitch),
    Sensor(UnitSensor),
}

/// `<package>_<hostname>_<unit>`, with the dots of the unit's name replaced.
pub open spec fn spec_unit_unique_id(hostname: Seq<char>, unit: Seq<char>) -> Seq<char> {
    spec_device_id(hostname, '_').push('_') + replaced(unit, '.', '_')
}

/// The object id of a unit: the configured one, else `<hostname>_<short name>`.
pub open spec fn spec_unit_object_id(hostname: Seq<char>, unit: UnitConfig) -> Seq<char> {
    match unit.object_id {
        Some(id) => id@,
        None => spec_format_object_id(hostname, unit.spec_short_name()),
    }
}

/// Whether `availability` tells of the unit `unit_name` by the bridge's
/// status on `status_topic`.
pub open spec fn spec_unit_availability(
    availability: Availability,
    status_topic: Seq<char>,
    unit_name: Seq<char>,
) -> bool {
    &&& availability.topic@ == status_topic
    &&& opt_view(availability.payload_available) == Some(ON@)
    &&& opt_view(availability.payload_not_available) == Some(OFF@)
    &&& opt_view(availability.value_template) == Some(spec_value_template(Some(unit_name)))
}

/// The states that stand for a running and a stopped unit.
pub open spec fn spec_states(invert: bool) -> (Seq<char>, Seq<char>) {
    if invert {
        (OFF@, ON@)
    } else {
        (ON@, OFF@)
    }
}

/// The commands sent to switch the entity on and off.
pub open spec fn spec_commands(invert: bool) -> (UnitCommand, UnitCommand) {
    if invert {
        (UnitCommand::Stop, UnitCommand::Start)
    } else {
        (UnitCommand::Start, UnitCommand::Stop)
    }
}

/// The discovery domain of a unit: a sensor where it is only watched.
pub open spec fn spec_unit_domain(unit: UnitConfig) -> Seq<char> {
    if unit.read_only {
        "binary_sensor"@
    } else {
        "switch"@
    }
}

fn availability_of(context: &EntityContext, unit: &UnitConfig) -> (r: Availability)
    ensures
        spec_unit_availability(r, context.availability.status_topic@, unit.unit@),
{
    let rule = context.availability.clone().with_unit_name(unit.unit.clone());
    rule.into_availability()
}

fn states_of(invert: bool) -> (r: (&'static str, &'static str))
    ensures
        r.0@ == spec_states(invert).0,
        r.1@ == spec_states(invert).1,
{
    if invert {
        (OFF, ON)
    } else {
        (ON, OFF)
    }
}

impl StaticEntity for UnitSwitch {
    open spec fn spec_domain() -> Seq<char> {
        "switch"@
    }

    fn static_domain() -> (r: &'static str) {
        "switch"
    }
}

impl StaticEntity for Switch {
    open spec fn spec_domain() -> Seq<char> {
        "switch"@
    }

    fn static_domain() -> (r: &'static str) {
        "switch"
    }
}

impl StaticEntity for UnitSensor {
    open spec fn spec_domain() -> Seq<char> {
        "binary_sensor"@
    }

    fn static_domain() -> (r: &'static str) {
        "binary_sensor"
    }
}

impl StaticEntity for BinarySensor {
    open spec fn spec_domain() -> Seq<char> {
        "binary_sensor"@
    }

    fn static_domain() -> (r: &'static str) {
        "binary_sensor"
    }
}

impl UnitSwitch {
    /// Whether this is the switch of `unit` in `context`, with the topics
    /// `topics`.
    pub open spec fn describes(
        &self,
        context: EntityContext,
        topics: EntityTopics,
        unit: UnitConfig,
    ) -> bool {
        &&& self.device == context.device
        &&& topics.command_topic is Some
        &&& self.command_topic == topics.command_topic.unwrap()
        &&& self.state_topic == topics.state_topic
        &&& spec_unit_availability(
            self.availability,
            context.availability.status_topic@,
            unit.unit@,
        )
        &&& self.unique_id@ == spec_unit_unique_id(context.device.hostname@, unit.unit@)
        &&& self.object_id@ == spec_unit_object_id(context.device.hostname@, unit)
        &&& self.name@ == unit.spec_name()
        &&& self.payloads.0@ == spec_commands(unit.invert_state).0.json_text()
        &&& self.payloads.1@ == spec_commands(unit.invert_state).1.json_text()
        &&& self.states.0@ == spec_states(unit.invert_state).0
        &&& self.states.1@ == spec_states(unit.invert_state).1
        &&& self.entity_category == unit.entity_category
        &&& self.device_class == unit.device_class
        &&& self.enabled_by_default == unit.enabled_by_default
        &&& self.icon == unit.icon
    }

    /// Whether `switch` is the document of this entity.
    pub open spec fn spec_switch(&self, switch: Switch) -> bool {
        &&& switch.command_topic == self.command_topic
        &&& switch.unique_id == Some(self.unique_id)
        &&& switch.object_id == Some(self.object_id)
        &&& switch.name == Some(self.name)
        &&& switch.entity_category == Some(self.entity_category)
        &&& switch.device_class == self.device_class
        &&& switch.enabled_by_default == Some(self.enabled_by_default)
        &&& switch.availability@.len() == 1
        &&& switch.availability@[0] == self.availability
        &&& switch.device is Some
        &&& self.device.spec_device(switch.device.unwrap())
        &&& switch.json_attributes_topic == Some(self.state_topic)
        &&& switch.state_topic == Some(self.state_topic)
        &&& switch.payload_on == Some(self.payloads.0)
        &&& switch.payload_off == Some(self.payloads.1)
        &&& opt_view(switch.state_on) == Some(self.states.0@)
        &&& opt_view(switch.state_off) == Some(self.states.1@)
        &&& opt_view(switch.value_template) == Some(STATE_TEMPLATE@)
        &&& switch.icon == self.icon
    }

    /// The identifier that is unique among all entities of the consumer.
    pub fn new_unique_id(context: &EntityContext, unit: &UnitConfig) -> (r: String)
        ensures
            r@ == spec_unit_unique_id(context.device.hostname@, unit.unit@),
    {
        let device = ConfiguredDevice::device_id(context.hostname());
        let flat = replace_char(unit.unit.as_str(), '.', '_');
        join_with(device.as_str(), '_', flat.as_str())
    }

    /// The entity's name within its host and domain.
    pub fn new_short_id(context: &EntityContext, unit: &UnitConfig) -> (r: String)
        ensures
            r@ == unit.spec_short_name(),
    {
        unit.short_name().to_owned()
    }

    /// The identifier from which the consumer derives the entity's name.
    pub fn new_object_id(context: &EntityContext, unit: &UnitConfig) -> (r: String)
        ensures
            r@ == spec_unit_object_id(context.device.hostname@, *unit),
    {
        match &unit.object_id {
            Some(id) => id.clone(),
            None => format_object_id(context, unit.short_name()),
        }
    }

    /// The name shown for the entity.
    pub fn new_name(context: &EntityContext, unit: &UnitConfig) -> (r: String)
        ensures
            r@ == unit.spec_name(),
    {
        unit.name().to_owned()
    }

    /// The discovery domain of the entity.
    pub fn new_domain(context: &EntityContext, unit: &UnitConfig) -> (r: &'static str)
        ensures
            r@ == "switch"@,
    {
        Self::static_domain()
    }

    /// The three names of the entity.
    pub fn new_ids(context: &EntityContext, unit: &UnitConfig) -> (r: EntityIds)
        ensures
            r.unique_id@ == spec_unit_unique_id(context.device.hostname@, unit.unit@),
            r.object_id@ == spec_unit_object_id(context.device.hostname@, *unit),
            r.name@ == unit.spec_name(),
    {
        EntityIds {
            unique_id: Self::new_unique_id(context, unit),
            object_id: Self::new_object_id(context, unit),
            name: Self::new_name(context, unit),
        }
    }

    /// The switch of `unit`.  Its topics must include one for commands.
    pub fn new(context: &EntityContext, topics: &EntityTopics, unit: &UnitConfig) -> (r: Self)
        requires
            topics.command_topic is Some,
        ensures
            r.describes(*context, *topics, *unit),
    {
        let ids = Self::new_ids(context, unit);
        let (pon, poff) = if unit.invert_state {
            (UnitCommand::Stop, UnitCommand::Start)
        } else {
            (UnitCommand::Start, UnitCommand::Stop)
        };
        UnitSwitch {
            unique_id: ids.unique_id,
            object_id: ids.object_id,
            name: ids.name,
            availability: availability_of(context, unit),
            command_topic: topics.expect_command_topic().clone(),
            device: context.device.clone(),
            state_topic: topics.state_topic(),
            states: states_of(unit.invert_state),
            payloads: (pon.encode_str(), poff.encode_str()),
            entity_category: unit.entity_category,
            device_class: unit.device_class.clone(),
            enabled_by_default: unit.enabled_by_default,
            icon: unit.icon.clone(),
        }
    }

    /// The discovery document of the switch.
    pub fn as_switch(&self) -> (r: Switch)
        ensures
            self.spec_switch(r),
    {
        let mut availability: Vec<Availability> = Vec::new();
        availability.push(self.availability.clone());
        Switch {
            command_topic: self.command_topic.clone(),
            unique_id: Some(self.unique_id.clone()),
            object_id: Some(self.object_id.clone()),
            name: Some(self.name.clone()),
            entity_category: Some(self.entity_category),
            device_class: self.device_class.clone(),
            enabled_by_default: Some(self.enabled_by_default),
            availability,
            device: Some(self.device.as_device()),
            json_attributes_topic: Some(self.state_topic.clone()),
            state_topic: Some(self.state_topic.clone()),
            payload_on: Some(self.payloads.0.clone()),
            payload_off: Some(self.payloads.1.clone()),
            state_on: Some(self.states.0.to_owned()),
            state_off: Some(self.states.1.to_owned()),
            value_template: Some(STATE_TEMPLATE.to_owned()),
            icon: self.icon.clone(),
        }
    }
}

impl UnitSensor {
    /// Whether this is the sensor of `unit` in `context`, with the topics
    /// `topics`.
    pub open spec fn describes(
        &self,
        context: EntityContext,
        topics: EntityTopics,
        unit: UnitConfig,
    ) -> bool {
        &&& self.device == context.device
        &&& self.state_topic == topics.state_topic
        &&& spec_unit_availability(
            self.availability,
            context.availability.status_topic@,
            unit.unit@,
        )
        &&& self.unique_id@ == spec_unit_unique_id(context.device.hostname@, unit.unit@)
        &&& self.object_id@ == spec_unit_object_id(context.device.hostname@, unit)
        &&& self.name@ == unit.spec_name()
        &&& self.states.0@ == spec_states(unit.invert_state).0
        &&& self.states.1@ == spec_states(unit.invert_state).1
        &&& self.entity_category == unit.entity_category
        &&& self.device_class == unit.device_class
        &&& self.enabled_by_default == unit.enabled_by_default
        &&& self.icon == unit.icon
    }

    /// Whether `sensor` is the document of this entity.
    pub open spec fn spec_sensor(&self, sensor: BinarySensor) -> bool {
        &&& sensor.state_topic == self.state_topic
        &&& sensor.unique_id == Some(self.unique_id)
        &&& sensor.object_id == Some(self.object_id)
        &&& sensor.name == Some(self.name)
        &&& sensor.entity_category == Some(self.entity_category)
        &&& sensor.device_class == self.device_class
        &&& sensor.enabled_by_default == Some(self.enabled_by_default)
        &&& sensor.availability@.len() == 1
        &&& sensor.availability@[0] == self.availability
        &&& sensor.device is Some
        &&& self.device.spec_device(sensor.device.unwrap())
        &&& sensor.json_attributes_topic == Some(self.state_topic)
        &&& opt_view(sensor.payload_on) == Some(self.states.0@)
        &&& opt_view(sensor.payload_off) == Some(self.states.1@)
        &&& opt_view(sensor.value_template) == Some(STATE_TEMPLATE@)
        &&& sensor.icon == self.icon
    }

    /// The identifier that is unique among all entities of the consumer.
    pub fn new_unique_id(context: &EntityContext, unit: &UnitConfig) -> (r: String)
        ensures
            r@ == spec_unit_unique_id(context.device.hostname@, unit.unit@),
    {
        UnitSwitch::new_unique_id(context, unit)
    }

    /// The entity's name within its host and domain.
    pub fn new_short_id(context: &EntityContext, unit: &UnitConfig) -> (r: String)
        ensures
            r@ == unit.spec_short_name(),
    {
        UnitSwitch::new_short_id(context, unit)
    }

    /// The identifier from which the consumer derives the entity's name.
    pub fn new_object_id(context: &EntityContext, unit: &UnitConfig) -> (r: String)
        ensures
            r@ == spec_unit_object_id(context.device.hostname@, *unit),
    {
        UnitSwitch::new_object_id(context, unit)
    }

    /// The name shown for the entity.
    pub fn new_name(context: &EntityContext, unit: &UnitConfig) -> (r: String)
        ensures
            r@ == unit.spec_name(),
    {
        UnitSwitch::new_name(context, unit)
    }

    /// The discovery domain of the entity.
    pub fn new_domain(context: &EntityContext, unit: &UnitConfig) -> (r: &'static str)
        ensures
            r@ == "binary_sensor"@,
    {
        Self::static_domain()
    }

    /// The three names of the entity.
    pub fn new_ids(context: &EntityContext, unit: &UnitConfig) -> (r: EntityIds)
        ensures
            r.unique_id@ == spec_unit_unique_id(context.device.hostname@, unit.unit@),
            r.object_id@ == spec_unit_object_id(context.device.hostname@, *unit),
            r.name@ == unit.spec_name(),
    {
        UnitSwitch::new_ids(context, unit)
    }

    /// The sensor of `unit`.
    pub fn new(context: &EntityContext, topics: &EntityTopics, unit: &UnitConfig) -> (r: Self)
        ensures
            r.describes(*context, *topics, *unit),
    {
        let ids = Self::new_ids(context, unit);
        UnitSensor {
            unique_id: ids.unique_id,
            object_id: ids.object_id,
            name: ids.name,
            availability: availability_of(context, unit),
            device: context.device.clone(),
            state_topic: topics.state_topic(),
            states: states_of(unit.invert_state),
            entity_category: unit.entity_category,
            device_class: unit.device_class.clone(),
            enabled_by_default: unit.enabled_by_default,
            icon: unit.icon.clone(),
        }
    }

    /// The discovery document of the sensor.
    pub fn as_sensor(&self) -> (r: BinarySensor)
        ensures
            self.spec_sensor(r),
    {
        let mut availability: Vec<Availability> = Vec::new();
        availability.push(self.availability.clone());
        BinarySensor {
            state_topic: self.state_topic.clone(),
            unique_id: Some(self.unique_id.clone()),
            object_id: Some(self.object_id.clone()),
            name: Some(self.name.clone()),
            entity_category: Some(self.entity_category),
            device_class: self.device_class.clone(),
            enabled_by_default: Some(self.enabled_by_default),
            availability,
            device: Some(self.device.as_device()),
            json_attributes_topic: Some(self.state_topic.clone()),
            payload_on: Some(self.states.0.to_owned()),
            payload_off: Some(self.states.1.to_owned()),
            value_template: Some(STATE_TEMPLATE.to_owned()),
            icon: self.icon.clone(),
        }
    }
}

impl ConfiguredUnit {
    /// Whether this is the entity of `unit` in `context`, with the topics
    /// `topics`: a sensor for a unit that is only watched, else a switch.
    pub open spec fn describes(
        &self,
        context: EntityContext,
        topics: EntityTopics,
        unit: UnitConfig,
    ) -> bool {
        match *self {
            ConfiguredUnit::Switch(entity) => !unit.read_only && entity.describes(
                context,
                topics,
                unit,
            ),
            ConfiguredUnit::Sensor(entity) => unit.read_only && entity.describes(
                context,
                topics,
                unit,
            ),
        }
    }

    /// Whether `document` is the discovery document of `unit` in `context`,
    /// with the topics `topics`.
    pub open spec fn spec_document_for(
        document: Document,
        context: EntityContext,
        topics: EntityTopics,
        unit: UnitConfig,
    ) -> bool {
        exists|entity: ConfiguredUnit| #[trigger]
            entity.describes(context, topics, unit) && entity.spec_document(document)
    }

    /// The identifier that is unique among all entities of the consumer.
    pub fn new_unique_id(context: &EntityContext, unit: &UnitConfig) -> (r: String)
        ensures
            r@ == spec_unit_unique_id(context.device.hostname@, unit.unit@),
    {
        UnitSwitch::new_unique_id(context, unit)
    }

    /// The entity's name within its host and domain.
    pub fn new_short_id(context: &EntityContext, unit: &UnitConfig) -> (r: String)
        ensures
            r@ == unit.spec_short_name(),
    {
        UnitSwitch::new_short_id(context, unit)
    }

    /// The identifier from which the consumer derives the entity's name.
    pub fn new_object_id(context: &EntityContext, unit: &UnitConfig) -> (r: String)
        ensures
            r@ == spec_unit_object_id(context.device.hostname@, *unit),
    {
        UnitSwitch::new_object_id(context, unit)
    }

    /// The name shown for the entity.
    pub fn new_name(context: &EntityContext, unit: &UnitConfig) -> (r: String)
        ensures
            r@ == unit.spec_name(),
    {
        UnitSwitch::new_name(context, unit)
    }

    /// The discovery domain of `unit`.
    pub fn new_domain(context: &EntityContext, unit: &UnitConfig) -> (r: &'static str)
        ensures
            r@ == spec_unit_domain(*unit),
    {
        if unit.read_only {
            UnitSensor::static_domain()
        } else {
            UnitSwitch::static_domain()
        }
    }

    /// What to ask the broker's client for to name the topics of `unit`.
    pub fn entity_topic(context: &EntityContext, unit: &UnitConfig) -> (r: TopicRequest)
        ensures
            r.domain@ == spec_unit_domain(*unit),
            r.short_id@ == unit.spec_short_name(),
    {
        TopicRequest {
            domain: Self::new_domain(context, unit).to_owned(),
            short_id: Self::new_short_id(context, unit),
        }
    }

    /// The entity of `unit`.  Unless the unit is only watched, its topics
    /// must include one for commands.
    pub fn new(context: &EntityContext, topics: &EntityTopics, unit: &UnitConfig) -> (r: Self)
        requires
            !unit.read_only ==> topics.command_topic is Some,
        ensures
            r.describes(*context, *topics, *unit),
    {
        if unit.read_only {
            ConfiguredUnit::Sensor(UnitSensor::new(context, topics, unit))
        } else {
            ConfiguredUnit::Switch(UnitSwitch::new(context, topics, unit))
        }
    }
}

impl EntityObject for UnitSwitch {
    open spec fn spec_unique_id(&self) -> Option<Seq<char>> {
        Some(self.unique_id@)
    }

    open spec fn spec_object_id(&self) -> Option<Seq<char>> {
        Some(self.object_id@)
    }

    open spec fn spec_entity_domain(&self) -> Seq<char> {
        "switch"@
    }

    fn unique_id(&self) -> (r: Option<String>) {
        Some(self.unique_id.clone())
    }

    fn object_id(&self) -> (r: Option<&str>) {
        Some(self.object_id.as_str())
    }

    fn domain(&self) -> (r: &str) {
        Self::static_domain()
    }
}

impl EntityObject for UnitSensor {
    open spec fn spec_unique_id(&self) -> Option<Seq<char>> {
        Some(self.unique_id@)
    }

    open spec fn spec_object_id(&self) -> Option<Seq<char>> {
        Some(self.object_id@)
    }

    open spec fn spec_entity_domain(&self) -> Seq<char> {
        "binary_sensor"@
    }

    fn unique_id(&self) -> (r: Option<String>) {
        Some(self.unique_id.clone())
    }

    fn object_id(&self) -> (r: Option<&str>) {
        Some(self.object_id.as_str())
    }

    fn domain(&self) -> (r: &str) {
        Self::static_domain()
    }
}

impl EntityObject for ConfiguredUnit {
    open spec fn spec_unique_id(&self) -> Option<Seq<char>> {
        match *self {
            ConfiguredUnit::Switch(entity) => entity.spec_unique_id(),
            ConfiguredUnit::Sensor(entity) => entity.spec_unique_id(),
        }
    }

    open spec fn spec_object_id(&self) -> Option<Seq<char>> {
        match *self {
            ConfiguredUnit::Switch(entity) => entity.spec_object_id(),
            ConfiguredUnit::Sensor(entity) => entity.spec_object_id(),
        }
    }

    open spec fn spec_entity_domain(&self) -> Seq<char> {
        match *self {
            ConfiguredUnit::Switch(entity) => entity.spec_entity_domain(),
            ConfiguredUnit::Sensor(entity) => entity.spec_entity_domain(),
        }
    }

    fn unique_id(&self) -> (r: Option<String>) {
        match self {
            ConfiguredUnit::Switch(entity) => entity.unique_id(),
            ConfiguredUnit::Sensor(entity) => entity.unique_id(),
        }
    }

    fn object_id(&self) -> (r: Option<&str>) {
        match self {
            ConfiguredUnit::Switch(entity) => entity.object_id(),
            ConfiguredUnit::Sensor(entity) => entity.object_id(),
        }
    }

    fn domain(&self) -> (r: &str) {
        match self {
            ConfiguredUnit::Switch(entity) => entity.domain(),
            ConfiguredUnit::Sensor(entity) => entity.domain(),
        }
    }
}

impl EntityDocument for UnitSwitch {
    open spec fn spec_document(&self, document: Document) -> bool {
        document matches Document::Switch(switch) && self.spec_switch(switch)
    }

    fn to_document(&self) -> (r: Document) {
        Document::Switch(self.as_switch())
    }
}

impl EntityDocument for UnitSensor {
    open spec fn spec_document(&self, document: Document) -> bool {
        document matches Document::BinarySensor(sensor) && self.spec_sensor(sensor)
    }

    fn to_document(&self) -> (r: Document) {
        Document::BinarySensor(self.as_sensor())
    }
}

impl EntityDocument for ConfiguredUnit {
    open spec fn spec_document(&self, document: Document) -> bool {
        match *self {
            ConfiguredUnit::Switch(entity) => entity.spec_document(document),
            ConfiguredUnit::Sensor(entity) => entity.spec_document(document),
        }
    }

    fn to_document(&self) -> (r: Document) {
        match self {
            ConfiguredUnit::Switch(entity) => entity.to_document(),
            ConfiguredUnit::Sensor(entity) => entity.to_document(),
        }
    }
}

} // verus!
