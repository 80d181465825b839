//! Discovery documents, as plain data.  How a document is written as JSON is
//! left to whoever publishes it.

use crate::config::{DeviceClass, EntityCategory};
use vstd::prelude::*;

verus! {

/// How a consumer learns whether an entity is reachable.
#[derive(Debug)]
pub struct Availability {
    pub topic: String,
    pub payload_available: Option<String>,
    pub payload_not_available: Option<String>,
    pub value_template: Option<String>,
}

impl Clone for Availability {
    fn clone(&self) -> (r: Self)
        ensures
            r == *self,
    {
        Availability {
            topic: self.topic.clone(),
            payload_available: self.payload_available.clone(),
            payload_not_available: self.payload_not_available.clone(),
            value_template: self.value_template.clone(),
        }
    }
}

/// The device that groups the entities of one host.
#[derive(Debug)]
pub struct Device {
    pub identifiers: Vec<String>,
    pub manufacturer: Option<String>,
    pub model: Option<String>,
    pub name: Option<String>,
    pub sw_version: Option<String>,
    pub configuration_url: Option<String>,
}

/// A button: pressing it sends one payload to one topic.
#[derive(Debug)]
pub struct Button {
    pub command_topic: String,
    pub unique_id: Option<String>,
    pub object_id: Option<String>,
    pub name: Option<String>,
    pub device: Option<Device>,
    pub availability: Vec<Availability>,
    pub json_attributes_topic: Option<String>,
    pub payload_press: Option<String>,
    pub entity_category: Option<EntityCategory>,
}

/// A switch: it shows a state and takes commands.
#[derive(Debug)]
pub struct Switch {
    pub command_topic: String,
    pub unique_id: Option<String>,
    pub object_id: Option<String>,
    pub name: Option<String>,
    pub entity_category: Option<EntityCategory>,
    pub device_class: DeviceClass,
    pub enabled_by_default: Option<bool>,
    pub availability: Vec<Availability>,
    pub device: Option<Device>,
    pub json_attributes_topic: Option<String>,
    pub state_topic: Option<String>,
    pub payload_on: Option<String>,
    pub payload_off: Option<String>,
    pub state_on: Option<String>,
    pub state_off: Option<String>,
    pub value_template: Option<String>,
    pub icon: Option<String>,
}

/// A binary sensor: it shows a state and takes no commands.
#[derive(Debug)]
pub struct BinarySensor {
    pub state_topic: String,
    pub unique_id: Option<String>,
    pub object_id: Option<String>,
    pub name: Option<String>,
    pub entity_category: Option<EntityCategory>,
    pub device_class: DeviceClass,
    pub enabled_by_default: Option<bool>,
    pub availability: Vec<Availability>,
    pub device: Option<Device>,
    pub json_attributes_topic: Option<String>,
    pub payload_on: Option<String>,
    pub payload_off: Option<String>,
    pub value_template: Option<String>,
    pub icon: Option<String>,
}

/// Any of the documents that the bridge publishes.
#[derive(Debug)]
pub enum Document {
    Button(Button),
    Switch(Switch),
    BinarySensor(BinarySensor),
}

} // verus!
