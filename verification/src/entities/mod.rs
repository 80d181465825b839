//! The entities that the bridge announces, and what they have in common.

pub mod diag;
pub mod document;
pub mod unit;

use crate::entities::document::{Availability, Device, Document};
use crate::text::opt_view;
use crate::payload::{OFF, ON, PKG_NAME};
use crate::text::{chain, join_with};
use vstd::prelude::*;
use vstd::string::*;

verus! {

broadcast use vstd::string::group_string_axioms;

/// The version that the bridge reports of itself.
pub const PKG_VERSION: &'static str = "0.1.0";

/// The state template of every unit entity: on while the unit is active or
/// on its way in or out.
pub const STATE_TEMPLATE: &'static str =
    "{% if value_json.active_state in ['active', 'activating', 'deactivating'] %}ON{% else %}OFF{% endif %}";

/// An entity kind with one fixed discovery domain.
pub trait StaticEntity {
    /// The domain, as characters.
    spec fn spec_domain() -> Seq<char>;

    /// The domain under which entities of this kind are discovered.
    fn static_domain() -> (r: &'static str)
        ensures
            r@ == Self::spec_domain(),
    ;
}

/// What every entity can say of itself.
pub trait EntityObject {
    /// The identifier that is unique among all entities of the consumer.
    spec fn spec_unique_id(&self) -> Option<Seq<char>>;

    /// The identifier from which the consumer derives the entity's name.
    spec fn spec_object_id(&self) -> Option<Seq<char>>;

    /// The discovery domain of the entity.
    spec fn spec_entity_domain(&self) -> Seq<char>;

    fn unique_id(&self) -> (r: Option<String>)
        ensures
            opt_view(r) == self.spec_unique_id(),
    ;

    fn object_id(&self) -> (r: Option<&str>)
        ensures
            r is Some <==> self.spec_object_id() is Some,
            r is Some ==> r.unwrap()@ == self.spec_object_id().unwrap(),
    ;

    fn domain(&self) -> (r: &str)
        ensures
            r@ == self.spec_entity_domain(),
    ;
}

/// An entity that can be written as a discovery document.
pub trait EntityDocument: EntityObject {
    /// Whether `document` is the document of this entity.
    spec fn spec_document(&self, document: Document) -> bool;

    /// The discovery document of the entity.
    fn to_document(&self) -> (r: Document)
        ensures
            self.spec_document(r),
    ;
}

/// The three names of an entity.
#[derive(Debug)]
pub struct EntityIds {
    pub unique_id: String,
    pub object_id: String,
    pub name: String,
}

/// The device under which all entities of one host are grouped.
#[derive(Debug)]
pub struct ConfiguredDevice {
    pub hostname: String,
    pub identifiers: [String; 1],
}

/// The rule by which a consumer tells whether an entity is reachable.
#[derive(Debug)]
pub struct ConfiguredAvailability {
    pub status_topic: String,
    pub unit_name: Option<String>,
}

/// What all entities of one session share.
#[derive(Debug)]
pub struct EntityContext {
    pub device: ConfiguredDevice,
    pub availability: ConfiguredAvailability,
}

/// `<package><sep><hostname>`.
pub open spec fn spec_device_id(hostname: Seq<char>, sep: char) -> Seq<char> {
    PKG_NAME@.push(sep) + hostname
}

/// `<hostname>_<short id>`.
pub open spec fn spec_format_object_id(hostname: Seq<char>, short_id: Seq<char>) -> Seq<char> {
    hostname.push('_') + short_id
}

/// The availability template: on while the bridge is active and, for a unit,
/// lists that unit.
pub open spec fn spec_value_template(unit_name: Option<Seq<char>>) -> Seq<char> {
    match unit_name {
        Some(name) => "{% if value_json.is_active and '"@ + name + "' in value_json.units %}"@ + ON@
            + "{% else %}"@ + OFF@ + "{% endif %}"@,
        None => "{% if value_json.is_active %}ON{% else %}OFF{% endif %}"@,
    }
}

/// `<hostname>_<short id>`, the object id of an entity that names none.
pub fn format_object_id(context: &EntityContext, short_id: &str) -> (r: String)
    ensures
        r@ == spec_format_object_id(context.device.hostname@, short_id@),
{
    join_with(context.hostname(), '_', short_id)
}

impl Clone for ConfiguredDevice {
    fn clone(&self) -> (r: Self)
        ensures
            r == *self,
    {
        let r = ConfiguredDevice {
            hostname: self.hostname.clone(),
            identifiers: [self.identifiers[0].clone()],
        };
        assert(r.identifiers =~= self.identifiers);
        r
    }
}

impl Clone for ConfiguredAvailability {
    fn clone(&self) -> (r: Self)
        ensures
            r == *self,
    {
        ConfiguredAvailability {
            status_topic: self.status_topic.clone(),
            unit_name: self.unit_name.clone(),
        }
    }
}

impl Clone for EntityContext {
    fn clone(&self) -> (r: Self)
        ensures
            r == *self,
    {
        EntityContext { device: self.device.clone(), availability: self.availability.clone() }
    }
}

impl ConfiguredDevice {
    /// Whether this is the device of the host called `hostname`.
    pub open spec fn is_for(&self, hostname: Seq<char>) -> bool {
        &&& self.hostname@ == hostname
        &&& self.identifiers@[0]@ == spec_device_id(hostname, '-')
    }

    /// Whether `device` is the document of this device.
    pub open spec fn spec_device(&self, device: Device) -> bool {
        &&& device.identifiers@.len() == 1
        &&& device.identifiers@[0]@ == self.identifiers@[0]@
        &&& device.manufacturer is None
        &&& opt_view(device.model) == Some(PKG_NAME@)
        &&& opt_view(device.name) == Some(self.hostname@)
        &&& opt_view(device.sw_version) == Some(PKG_VERSION@)
        &&& device.configuration_url is None
    }

    /// The device of the host called `hostname`.
    pub fn with_hostname(hostname: String) -> (r: Self)
        ensures
            r.is_for(hostname@),
    {
        let identifiers = Self::identifiers(hostname.as_str());
        ConfiguredDevice { identifiers, hostname }
    }

    /// The device as it stands in a discovery document.  The maker and the
    /// configuration address are left to whoever writes the document out.
    pub fn as_device(&self) -> (r: Device)
        ensures
            self.spec_device(r),
    {
        let mut identifiers: Vec<String> = Vec::new();
        identifiers.push(self.identifiers[0].clone());
        Device {
            identifiers,
            manufacturer: None,
            model: Some(PKG_NAME.to_owned()),
            name: Some(self.hostname.clone()),
            sw_version: Some(PKG_VERSION.to_owned()),
            configuration_url: None,
        }
    }

    /// `<package><sep><hostname>`.
    pub fn device_id_(hostname: &str, sep: char) -> (r: String)
        ensures
            r@ == spec_device_id(hostname@, sep),
    {
        join_with(PKG_NAME, sep, hostname)
    }

    /// The device's name in identifiers of entities: `<package>_<hostname>`.
    pub fn device_id(hostname: &str) -> (r: String)
        ensures
            r@ == spec_device_id(hostname@, '_'),
    {
        Self::device_id_(hostname, '_')
    }

    /// The identifiers of the device: the one name `<package>-<hostname>`.
    pub fn identifiers(hostname: &str) -> (r: [String; 1])
        ensures
            r@[0]@ == spec_device_id(hostname@, '-'),
    {
        [Self::device_id_(hostname, '-')]
    }
}

impl ConfiguredAvailability {
    /// Whether `availability` is the document of this rule.
    pub open spec fn spec_availability(&self, availability: Availability) -> bool {
        &&& availability.topic@ == self.status_topic@
        &&& opt_view(availability.payload_available) == Some(ON@)
        &&& opt_view(availability.payload_not_available) == Some(OFF@)
        &&& opt_view(availability.value_template) == Some(
            spec_value_template(opt_view(self.unit_name)),
        )
    }

    /// The rule that reads `status_topic`, for the bridge itself or one unit.
    pub fn new(unit_name: Option<&str>, status_topic: String) -> (r: Self)
        ensures
            r.status_topic == status_topic,
            r.unit_name is Some <==> unit_name is Some,
            unit_name is Some ==> r.unit_name.unwrap()@ == unit_name.unwrap()@,
    {
        ConfiguredAvailability {
            status_topic,
            unit_name: match unit_name {
                Some(name) => Some(name.to_owned()),
                None => None,
            },
        }
    }

    /// The rule that reads `status_topic`, for the bridge itself.
    pub fn with_status_topic(status_topic: String) -> (r: Self)
        ensures
            r.status_topic == status_topic,
            r.unit_name is None,
    {
        Self::new(None, status_topic)
    }

    /// The same rule, for the unit called `unit_name`.
    pub fn with_unit_name(self, unit_name: String) -> (r: Self)
        ensures
            r.status_topic == self.status_topic,
            r.unit_name == Some(unit_name),
    {
        ConfiguredAvailability { unit_name: Some(unit_name), status_topic: self.status_topic }
    }

    /// The template that turns the bridge's status into `ON` or `OFF`.
    pub fn value_template(&self) -> (r: String)
        ensures
            r@ == spec_value_template(opt_view(self.unit_name)),
    {
        match &self.unit_name {
            Some(unit_name) => {
                let mut out = chain("{% if value_json.is_active and '", unit_name.as_str());
                out.append("' in value_json.units %}");
                out.append(ON);
                out.append("{% else %}");
                out.append(OFF);
                out.append("{% endif %}");
                out
            },
            None => "{% if value_json.is_active %}ON{% else %}OFF{% endif %}".to_owned(),
        }
    }

    /// The rule as it stands in a discovery document.
    pub fn as_availability(&self) -> (r: Availability)
        ensures
            self.spec_availability(r),
    {
        Availability {
            topic: self.status_topic.clone(),
            payload_available: Some(ON.to_owned()),
            payload_not_available: Some(OFF.to_owned()),
            value_template: Some(self.value_template()),
        }
    }

    /// The rule as it stands in a discovery document.
    pub fn into_availability(self) -> (r: Availability)
        ensures
            self.spec_availability(r),
    {
        let value_template = self.value_template();
        Availability {
            value_template: Some(value_template),
            topic: self.status_topic,
            payload_available: Some(ON.to_owned()),
            payload_not_available: Some(OFF.to_owned()),
        }
    }
}

impl EntityContext {
    /// Whether this is the context of the host `hostname`, with the bridge's
    /// status on `status_topic`.
    pub open spec fn is_for(&self, hostname: Seq<char>, status_topic: Seq<char>) -> bool {
        &&& self.device.is_for(hostname)
        &&& self.availability.status_topic@ == status_topic
        &&& self.availability.unit_name is None
    }

    /// The context of the host `hostname`, with the bridge's status on
    /// `status_topic`.
    pub fn new(hostname: &str, status_topic: String) -> (r: Self)
        ensures
            r.is_for(hostname@, status_topic@),
    {
        EntityContext {
            device: ConfiguredDevice::with_hostname(hostname.to_owned()),
            availability: ConfiguredAvailability::with_status_topic(status_topic),
        }
    }

    /// The same context, with the bridge's status on `status_topic`.
    pub fn with_status_topic(self, status_topic: String) -> (r: Self)
        ensures
            r.device == self.device,
            r.availability.status_topic == status_topic,
            r.availability.unit_name is None,
    {
        EntityContext {
            device: self.device,
            availability: ConfiguredAvailability::with_status_topic(status_topic),
        }
    }

    /// The context of the host `hostname`, before the status topic is known.
    pub fn with_hostname(hostname: &str) -> (r: Self)
        ensures
            r.is_for(hostname@, Seq::empty()),
    {
        Self::new(hostname, String::new())
    }

    /// The name of the host.
    pub fn hostname(&self) -> (r: &str)
        ensures
            r@ == self.device.hostname@,
    {
        self.device.hostname.as_str()
    }

    /// Copies of the device and of the availability rule.
    pub fn to_parts(&self) -> (r: (ConfiguredDevice, ConfiguredAvailability))
        ensures
            r.0 == self.device,
            r.1 == self.availability,
    {
        (self.device.clone(), self.availability.clone())
    }
}

} // verus!
