//! The topics of an entity, who owns them, and the slot through which a unit
//! finds its own while a session lasts.

use crate::entities::document::Document;
use crate::payload::SerializeExt;
use vstd::prelude::*;
use vstd::utf8::encode_utf8;

verus! {

/// How hard the broker tries to deliver a message.
#[derive(Debug, Clone, Copy, PartialEq, Eq, Structural)]
pub enum QosLevel {
    AtMostOnce,
    AtLeastOnce,
    ExactlyOnce,
}

/// The level at which the bridge publishes and subscribes.
pub const QOS: QosLevel = QosLevel::AtLeastOnce;

/// What a message carries.
#[derive(Debug)]
pub enum Payload {
    /// Bytes as they go on the wire; none at all erases a retained message.
    Bytes(Vec<u8>),
    /// A discovery document, still to be written out.
    Document(Document),
}

/// One message for the broker.
#[derive(Debug)]
pub struct Publish {
    pub topic: String,
    pub payload: Payload,
    pub retain: bool,
    pub qos: QosLevel,
}

/// The topics of one entity.
#[derive(Debug)]
pub struct EntityTopics {
    pub config_topic: String,
    pub state_topic: String,
    pub command_topic: Option<String>,
}

impl Clone for EntityTopics {
    fn clone(&self) -> (r: Self)
        ensures
            r == *self,
    {
        EntityTopics {
            config_topic: self.config_topic.clone(),
            state_topic: self.state_topic.clone(),
            command_topic: self.command_topic.clone(),
        }
    }
}

impl EntityTopics {
    /// The topic on which the entity's state is published.
    pub fn state_topic(&self) -> (r: String)
        ensures
            r == self.state_topic,
    {
        self.state_topic.clone()
    }

    /// The topic on which the entity takes commands, of an entity that has one.
    pub fn expect_command_topic(&self) -> (r: &String)
        requires
            self.command_topic is Some,
        ensures
            *r == self.command_topic.unwrap(),
    {
        match &self.command_topic {
            Some(topic) => topic,
            None => vstd::pervasive::unreached(),
        }
    }

    /// The message that puts `payload` on the entity's discovery topic.
    pub fn publish_config(&self, payload: Payload, retain: bool, qos: QosLevel) -> (r: Publish)
        ensures
            r.topic == self.config_topic,
            r.payload == payload,
            r.retain == retain,
            r.qos == qos,
    {
        Publish { topic: self.config_topic.clone(), payload, retain, qos }
    }

    /// The message that puts `payload` on the entity's state topic.
    pub fn publish_state_payload(&self, payload: Vec<u8>, retain: bool, qos: QosLevel) -> (r:
        Publish)
        ensures
            r.topic == self.state_topic,
            r.payload == Payload::Bytes(payload),
            r.retain == retain,
            r.qos == qos,
    {
        Publish { topic: self.state_topic.clone(), payload: Payload::Bytes(payload), retain, qos }
    }

    /// The message that puts the JSON form of `payload` on the entity's state
    /// topic.
    pub fn publish_state<T: SerializeExt>(&self, payload: &T, retain: bool, qos: QosLevel) -> (r:
        Publish)
        ensures
            r.topic == self.state_topic,
            r.payload matches Payload::Bytes(bytes) && bytes@ == encode_utf8(payload.json_text()),
            r.retain == retain,
            r.qos == qos,
    {
        self.publish_state_payload(payload.encode_payload(), retain, qos)
    }
}

/// What the broker's client is asked for to name an entity's topics.
#[derive(Debug)]
pub struct TopicRequest {
    pub domain: String,
    pub short_id: String,
}

/// The topics of one unit, under the unit's name.
#[derive(Debug)]
pub struct UnitTopics {
    pub name: String,
    pub topics: EntityTopics,
}

/// The owner of the unit topics of one session.  Dropping it ends the life of
/// every handle that points into it.
#[derive(Debug)]
pub struct TopicStore {
    pub id: u64,
    pub entries: Vec<UnitTopics>,
}

/// A reference to one entry of one store.  It does not keep the entry alive.
#[derive(Debug, Clone, Copy, PartialEq, Eq, Structural)]
pub struct TopicHandle {
    pub store: u64,
    pub index: usize,
}

/// Where a unit keeps the handle to its topics: empty between sessions.
#[derive(Debug)]
pub struct TopicSlot {
    pub handle: Option<TopicHandle>,
}

impl TopicStore {
    /// Whether the store holds topics under `name`.
    pub open spec fn contains(&self, name: Seq<char>) -> bool {
        exists|i: int| 0 <= i < self.entries@.len() && (#[trigger] self.entries@[i]).name@ == name
    }

    /// Whether no name occurs twice.
    pub open spec fn distinct(&self) -> bool {
        forall|i: int, j: int|
            0 <= i < j < self.entries@.len() ==> (#[trigger] self.entries@[i]).name@ != (
            #[trigger] self.entries@[j]).name@
    }

    /// An empty store.
    pub fn new(id: u64) -> (r: Self)
        ensures
            r.id == id,
            r.entries@.len() == 0,
    {
        TopicStore { id, entries: Vec::new() }
    }

    /// Where the topics of `name` stand, if the store holds any.
    pub fn position(&self, name: &str) -> (r: Option<usize>)
        ensures
            match r {
                Some(i) => i < self.entries@.len() && self.entries@[i as int].name@ == name@
                    && forall|j: int| 0 <= j < i ==> (#[trigger] self.entries@[j]).name@ != name@,
                None => !self.contains(name@),
            },
    {
        let mut i: usize = 0;
        while i < self.entries.len()
            invariant
                i <= self.entries@.len(),
                forall|j: int| 0 <= j < i ==> (#[trigger] self.entries@[j]).name@ != name@,
            decreases self.entries@.len() - i,
        {
            if crate::text::str_eq(self.entries[i].name.as_str(), name) {
                return Some(i);
            }
            i = i + 1;
        }
        None
    }

    /// Files `topics` under `name`, in place of what stood there, and hands
    /// back a handle to the entry.
    pub fn insert(&mut self, name: String, topics: EntityTopics) -> (r: TopicHandle)
        requires
            old(self).distinct(),
        ensures
            final(self).distinct(),
            final(self).id == old(self).id,
            r.store == old(self).id,
            r.index < final(self).entries@.len(),
            final(self).entries@[r.index as int].name@ == name@,
            final(self).entries@[r.index as int].topics == topics,
            old(self).contains(name@) ==> final(self).entries@.len() == old(self).entries@.len()
                && old(self).entries@[r.index as int].name@ == name@,
            !old(self).contains(name@) ==> final(self).entries@.len() == old(self).entries@.len()
                + 1 && r.index == old(self).entries@.len(),
            forall|i: int|
                0 <= i < old(self).entries@.len() && i != r.index ==> final(self).entries@[i]
                    == old(self).entries@[i],
    {
        match self.position(name.as_str()) {
            Some(i) => {
                self.entries.set(i, UnitTopics { name, topics });
                TopicHandle { store: self.id, index: i }
            },
            None => {
                let i = self.entries.len();
                self.entries.push(UnitTopics { name, topics });
                TopicHandle { store: self.id, index: i }
            },
        }
    }
}

impl TopicSlot {
    /// The topics that the slot leads to in `store`: those of the entry that
    /// the handle names, while that very store is alive.
    pub open spec fn spec_resolve(&self, store: Option<TopicStore>) -> Option<EntityTopics> {
        match (self.handle, store) {
            (Some(handle), Some(owner)) => if handle.store == owner.id && handle.index
                < owner.entries@.len() {
                Some(owner.entries@[handle.index as int].topics)
            } else {
                None
            },
            _ => None,
        }
    }

    /// An empty slot.
    pub fn new() -> (r: Self)
        ensures
            r.handle is None,
    {
        TopicSlot { handle: None }
    }

    /// Puts `handle` into the slot and hands back what it held.
    pub fn set(&mut self, handle: TopicHandle) -> (previous: Option<TopicHandle>)
        ensures
            previous == old(self).handle,
            final(self).handle == Some(handle),
    {
        let previous = self.handle;
        self.handle = Some(handle);
        previous
    }

    /// Empties the slot and hands back what it held.
    pub fn clear(&mut self) -> (previous: Option<TopicHandle>)
        ensures
            previous == old(self).handle,
            final(self).handle is None,
    {
        let previous = self.handle;
        self.handle = None;
        previous
    }

    /// The topics that the slot leads to, or `None` while no store is alive
    /// that the handle points into.
    pub fn resolve<'a>(&self, store: Option<&'a TopicStore>) -> (r: Option<&'a EntityTopics>)
        ensures
            match r {
                Some(topics) => store is Some && self.spec_resolve(Some(*store.unwrap())) == Some(
                    *topics,
                ),
                None => store is None || self.spec_resolve(Some(*store.unwrap())) is None,
            },
    {
        match (self.handle, store) {
            (Some(handle), Some(owner)) => {
                if handle.store == owner.id && handle.index < owner.entries.len() {
                    Some(&owner.entries[handle.index].topics)
                } else {
                    None
                }
            },
            _ => None,
        }
    }
}

} // verus!
