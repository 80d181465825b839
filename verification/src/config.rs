//! What the bridge is told at start: the units to watch and the broker to
//! talk to.

use crate::text::{head_of, head_segment};
use vstd::prelude::*;
use vstd::string::*;

verus! {

broadcast use vstd::string::group_string_axioms;

/// Where the discovery consumer files an entity.
#[derive(Debug, Clone, Copy, PartialEq, Eq, Structural)]
pub enum EntityCategory {
    Config,
    Diagnostic,
}

/// What kind of device an entity is shown as.
#[derive(Debug)]
pub enum DeviceClass {
    Unspecified,
    Class(String),
}

impl DeviceClass {
    /// Whether no class was chosen.
    pub fn is_none(&self) -> (r: bool)
        ensures
            r == (*self is Unspecified),
    {
        match self {
            DeviceClass::Unspecified => true,
            DeviceClass::Class(_) => false,
        }
    }
}

impl Clone for DeviceClass {
    fn clone(&self) -> (r: Self)
        ensures
            r == *self,
    {
        match self {
            DeviceClass::Unspecified => DeviceClass::Unspecified,
            DeviceClass::Class(name) => DeviceClass::Class(name.clone()),
        }
    }
}

/// One unit to watch, and how to present it.
#[derive(Debug)]
pub struct UnitConfig {
    pub unit: String,
    pub read_only: bool,
    pub invert_state: bool,
    pub enabled_by_default: bool,
    pub entity_category: EntityCategory,
    pub icon: Option<String>,
    pub name: Option<String>,
    pub object_id: Option<String>,
    pub device_class: DeviceClass,
}

/// The default of the flags that are on unless switched off.
pub fn default_true() -> (r: bool)
    ensures
        r,
{
    true
}

/// The category of a unit that names none.
pub fn default_entity_category() -> (r: EntityCategory)
    ensures
        r == EntityCategory::Config,
{
    EntityCategory::Config
}

/// A string that may be absent: the empty one counts as absent.
pub fn opt_str(s: &str) -> (r: Option<&str>)
    ensures
        r is Some <==> s@.len() > 0,
        r is Some ==> r.unwrap()@ == s@,
{
    if s.is_empty() {
        None
    } else {
        Some(s)
    }
}

impl UnitConfig {
    /// The unit's name up to its first dot.
    pub open spec fn spec_short_name(&self) -> Seq<char> {
        head_segment(self.unit@, '.')
    }

    /// The name shown for the unit: the configured one, else the short name.
    pub open spec fn spec_name(&self) -> Seq<char> {
        match self.name {
            Some(name) => name@,
            None => self.spec_short_name(),
        }
    }

    /// A unit with this name and every other setting at its default.
    pub fn named(unit: &str) -> (r: Self)
        ensures
            r.unit@ == unit@,
            !r.read_only,
            !r.invert_state,
            r.enabled_by_default,
            r.entity_category == EntityCategory::Config,
            r.icon is None,
            r.name is None,
            r.object_id is None,
            r.device_class is Unspecified,
    {
        UnitConfig {
            unit: unit.to_owned(),
            read_only: false,
            invert_state: false,
            enabled_by_default: default_true(),
            entity_category: default_entity_category(),
            icon: None,
            name: None,
            object_id: None,
            device_class: DeviceClass::Unspecified,
        }
    }

    /// The unit's name up to its first dot.
    pub fn short_name(&self) -> (r: &str)
        ensures
            r@ == self.spec_short_name(),
    {
        head_of(self.unit.as_str(), '.')
    }

    /// The name shown for the unit.
    pub fn name(&self) -> (r: &str)
        ensures
            r@ == self.spec_name(),
    {
        match &self.name {
            Some(name) => name.as_str(),
            None => self.short_name(),
        }
    }
}

impl Default for UnitConfig {
    fn default() -> (r: Self)
        ensures
            r.unit@.len() == 0,
            !r.read_only,
            !r.invert_state,
            r.enabled_by_default,
            r.entity_category == EntityCategory::Config,
            r.icon is None,
            r.name is None,
            r.object_id is None,
            r.device_class is Unspecified,
    {
        proof {
            reveal_strlit("");
        }
        UnitConfig::named("")
    }
}

impl Clone for UnitConfig {
    fn clone(&self) -> (r: Self)
        ensures
            r == *self,
    {
        UnitConfig {
            unit: self.unit.clone(),
            read_only: self.read_only,
            invert_state: self.invert_state,
            enabled_by_default: self.enabled_by_default,
            entity_category: self.entity_category,
            icon: self.icon.clone(),
            name: self.name.clone(),
            object_id: self.object_id.clone(),
            device_class: self.device_class.clone(),
        }
    }
}

/// The parts of the broker's address that the bridge reads.
#[derive(Debug)]
pub struct BrokerUrl {
    pub scheme: String,
    pub host: Option<String>,
    pub port: Option<u16>,
    pub username: String,
    pub password: Option<String>,
}

/// The settings of one run.
#[derive(Debug)]
pub struct Args {
    pub mqtt_url: Option<BrokerUrl>,
    pub units: Vec<UnitConfig>,
    pub hostname: Option<String>,
    pub clean_up: bool,
    pub discovery_prefix: String,
    pub mqtt_username: Option<String>,
    pub mqtt_password: Option<String>,
}

impl Args {
    /// The user to log in as: the one given by itself, else a non-empty one
    /// in the broker's address.
    pub open spec fn spec_mqtt_username(&self) -> Option<Seq<char>> {
        match self.mqtt_username {
            Some(user) => Some(user@),
            None => match self.mqtt_url {
                Some(url) => if url.username@.len() > 0 {
                    Some(url.username@)
                } else {
                    None
                },
                None => None,
            },
        }
    }

    /// The password to log in with: the one given by itself, else the one in
    /// the broker's address.
    pub open spec fn spec_mqtt_password(&self) -> Option<Seq<char>> {
        match self.mqtt_password {
            Some(password) => Some(password@),
            None => match self.mqtt_url {
                Some(url) => match url.password {
                    Some(password) => Some(password@),
                    None => None,
                },
                None => None,
            },
        }
    }

    /// The host name given on the command line.
    pub fn hostname(&self) -> (r: Option<&str>)
        ensures
            r is Some <==> self.hostname is Some,
            r is Some ==> r.unwrap()@ == self.hostname.unwrap()@,
    {
        match &self.hostname {
            Some(hostname) => Some(hostname.as_str()),
            None => None,
        }
    }

    /// The broker's address.
    pub fn mqtt_url(&self) -> (r: Option<&BrokerUrl>)
        ensures
            r is Some <==> self.mqtt_url is Some,
            r is Some ==> *r.unwrap() == self.mqtt_url.unwrap(),
    {
        self.mqtt_url.as_ref()
    }

    /// The user to log in as.
    pub fn mqtt_username(&self) -> (r: Option<&str>)
        ensures
            r is Some <==> self.spec_mqtt_username() is Some,
            r is Some ==> r.unwrap()@ == self.spec_mqtt_username().unwrap(),
    {
        match &self.mqtt_username {
            Some(user) => Some(user.as_str()),
            None => match &self.mqtt_url {
                Some(url) => opt_str(url.username.as_str()),
                None => None,
            },
        }
    }

    /// The password to log in with.
    pub fn mqtt_password(&self) -> (r: Option<&str>)
        ensures
            r is Some <==> self.spec_mqtt_password() is Some,
            r is Some ==> r.unwrap()@ == self.spec_mqtt_password().unwrap(),
    {
        match &self.mqtt_password {
            Some(password) => Some(password.as_str()),
            None => match &self.mqtt_url {
                Some(url) => match &url.password {
                    Some(password) => Some(password.as_str()),
                    None => None,
                },
                None => None,
            },
        }
    }

    /// The topic prefix under which discovery documents are published.
    pub fn discovery_prefix(&self) -> (r: &str)
        ensures
            r@ == self.discovery_prefix@,
    {
        self.discovery_prefix.as_str()
    }

    /// Whether entities are erased from the broker on exit.
    pub fn clean_up(&self) -> (r: bool)
        ensures
            r == self.clean_up,
    {
        self.clean_up
    }
}

} // verus!
