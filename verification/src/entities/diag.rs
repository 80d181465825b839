//! The diagnostic button of the bridge: pressing it asks the bridge to stop.

use crate::config::EntityCategory;
use crate::entities::document::{Availability, Button, Document};
use crate::text::opt_view;
use crate::entities::{
    format_object_id, spec_device_id, spec_format_object_id, ConfiguredDevice, EntityContext,
    EntityDocument, EntityIds, EntityObject, StaticEntity,
};
use crate::payload::{SerializeExt, ServiceCommand, PKG_NAME};
use crate::text::chain;
use crate::topics::{EntityTopics, TopicRequest};
use vstd::prelude::*;
use vstd::string::*;

verus! {

broadcast use vstd::string::group_string_axioms;

/// The button through which a consumer stops the bridge.
#[derive(Debug)]
pub struct DiagButton {
    pub device: ConfiguredDevice,
    pub command_topic: String,
    pub status_topic: String,
    pub availability: Availability,
    pub unique_id: String,
    pub object_id: String,
    pub name: String,
}

impl StaticEntity for DiagButton {
    open spec fn spec_domain() -> Seq<char> {
        "button"@
    }

    fn static_domain() -> (r: &'static str) {
        "button"
    }
}

impl StaticEntity for Button {
    open spec fn spec_domain() -> Seq<char> {
        "button"@
    }

    fn static_domain() -> (r: &'static str) {
        "button"
    }
}

impl DiagButton {
    /// `<package>_<hostname>_diag_reset`.
    pub open spec fn spec_unique_id_for(hostname: Seq<char>) -> Seq<char> {
        spec_device_id(hostname, '_') + "_diag_reset"@
    }

    /// Whether this is the button of `context`, with the topics `topics`.
    pub open spec fn describes(&self, context: EntityContext, topics: EntityTopics) -> bool {
        &&& self.device == context.device
        &&& topics.command_topic is Some
        &&& self.command_topic == topics.command_topic.unwrap()
        &&& self.status_topic == context.availability.status_topic
        &&& context.availability.spec_availability(self.availability)
        &&& self.unique_id@ == Self::spec_unique_id_for(context.device.hostname@)
        &&& self.object_id@ == spec_format_object_id(context.device.hostname@, "diag_reset"@)
        &&& self.name@ == PKG_NAME@ + " reset"@
    }

    /// Whether `button` is the document of this entity.
    pub open spec fn spec_button(&self, button: Button) -> bool {
        &&& button.command_topic == self.command_topic
        &&& button.unique_id == Some(self.unique_id)
        &&& button.object_id == Some(self.object_id)
        &&& button.name == Some(self.name)
        &&& button.device is Some
        &&& self.device.spec_device(button.device.unwrap())
        &&& button.availability@.len() == 1
        &&& button.availability@[0] == self.availability
        &&& button.json_attributes_topic == Some(self.status_topic)
        &&& opt_view(button.payload_press) == Some(
            (ServiceCommand::SetActive { active: false }).json_text(),
        )
        &&& button.entity_category == Some(EntityCategory::Diagnostic)
    }

    /// The identifier that is unique among all entities of the consumer.
    pub fn new_unique_id(context: &EntityContext) -> (r: String)
        ensures
            r@ == Self::spec_unique_id_for(context.device.hostname@),
    {
        let mut out = ConfiguredDevice::device_id(context.hostname());
        out.append("_diag_reset");
        out
    }

    /// The entity's name within its host and domain.
    pub fn new_short_id(context: &EntityContext) -> (r: String)
        ensures
            r@ == "diag_reset"@,
    {
        "diag_reset".to_owned()
    }

    /// The name shown for the entity.
    pub fn new_name(context: &EntityContext) -> (r: String)
        ensures
            r@ == PKG_NAME@ + " reset"@,
    {
        chain(PKG_NAME, " reset")
    }

    /// The discovery domain of the entity.
    pub fn new_domain(context: &EntityContext) -> (r: &'static str)
        ensures
            r@ == "button"@,
    {
        Self::static_domain()
    }

    /// The identifier from which the consumer derives the entity's name.
    pub fn new_object_id(context: &EntityContext) -> (r: String)
        ensures
            r@ == spec_format_object_id(context.device.hostname@, "diag_reset"@),
    {
        let short_id = Self::new_short_id(context);
        format_object_id(context, short_id.as_str())
    }

    /// The three names of the entity.
    pub fn new_ids(context: &EntityContext) -> (r: EntityIds)
        ensures
            r.unique_id@ == Self::spec_unique_id_for(context.device.hostname@),
            r.object_id@ == spec_format_object_id(context.device.hostname@, "diag_reset"@),
            r.name@ == PKG_NAME@ + " reset"@,
    {
        EntityIds {
            unique_id: Self::new_unique_id(context),
            object_id: Self::new_object_id(context),
            name: Self::new_name(context),
        }
    }

    /// The button of `context`.  Its topics must include one for commands.
    pub fn new(context: &EntityContext, topics: &EntityTopics) -> (r: Self)
        requires
            topics.command_topic is Some,
        ensures
            r.describes(*context, *topics),
    {
        let (device, availability) = context.to_parts();
        let ids = Self::new_ids(context);
        DiagButton {
            unique_id: ids.unique_id,
            object_id: ids.object_id,
            name: ids.name,
            status_topic: availability.status_topic.clone(),
            availability: availability.into_availability(),
            command_topic: topics.expect_command_topic().clone(),
            device,
        }
    }

    /// What to ask the broker's client for to name the button's topics.
    pub fn entity_topic(context: &EntityContext) -> (r: TopicRequest)
        ensures
            r.domain@ == "button"@,
            r.short_id@ == "diag_reset"@,
    {
        TopicRequest {
            domain: Self::new_domain(context).to_owned(),
            short_id: Self::new_short_id(context),
        }
    }

    /// The discovery document of the button.
    pub fn as_button(&self) -> (r: Button)
        ensures
            self.spec_button(r),
    {
        let mut availability: Vec<Availability> = Vec::new();
        availability.push(self.availability.clone());
        let press = ServiceCommand::SetActive { active: false };
        Button {
            command_topic: self.command_topic.clone(),
            unique_id: Some(self.unique_id.clone()),
            object_id: Some(self.object_id.clone()),
            name: Some(self.name.clone()),
            device: Some(self.device.as_device()),
            availability,
            json_attributes_topic: Some(self.status_topic.clone()),
            payload_press: Some(press.encode_str()),
            entity_category: Some(EntityCategory::Diagnostic),
        }
    }
}

impl EntityObject for DiagButton {
    open spec fn spec_unique_id(&self) -> Option<Seq<char>> {
        Some(self.unique_id@)
    }

    open spec fn spec_object_id(&self) -> Option<Seq<char>> {
        Some(self.object_id@)
    }

    open spec fn spec_entity_domain(&self) -> Seq<char> {
        "button"@
    }

    fn unique_id(&self) -> (r: Option<String>) {
        Some(self.unique_id.clone())
    }

    fn object_id(&self) -> (r: Option<&str>) {
        Some(self.object_id.as_str())
    }

    fn domain(&self) -> (r: &str) {
        Self::static_domain()
    }
}

impl EntityDocument for DiagButton {
    open spec fn spec_document(&self, document: Document) -> bool {
        document matches Document::Button(button) && self.spec_button(button)
    }

    fn to_document(&self) -> (r: Document) {
        Document::Button(self.as_button())
    }
}

} // verus!
