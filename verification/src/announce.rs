//! What the bridge publishes: the announcement after a connect, the status
//! of a unit, and the cleanup before a disconnect.

use crate::bridge::{
    clear_slots, configs_of, lemma_distinct_by_configs, slot_agrees, store_of, tracks, Core,
    MqttConnection, Unit,
};
use crate::entities::unit::ConfiguredUnit;
use crate::entities::EntityDocument;
use crate::payload::{service_status_text, views, Error, SerializeExt, ServiceStatus, UnitStatus};
use crate::topics::{EntityTopics, Payload, Publish, TopicStore, QOS};
use vstd::prelude::*;
use vstd::utf8::encode_utf8;

verus! {

/// The units whose slots resolve in `store`, in their order.
pub open spec fn live_units(units: Seq<Unit>, store: TopicStore) -> Seq<Unit>
    decreases units.len(),
{
    if units.len() == 0 {
        Seq::empty()
    } else {
        let before = live_units(units.drop_last(), store);
        if units.last().mqtt.spec_resolve(Some(store)) is Some {
            before.push(units.last())
        } else {
            before
        }
    }
}

/// The name of each unit.
pub open spec fn unit_names(units: Seq<Unit>) -> Seq<Seq<char>> {
    units.map_values(|u: Unit| u.unit.unit@)
}

/// Whether `publish` puts the discovery document of `unit` on the unit's
/// discovery topic.
pub open spec fn is_unit_config(
    publish: Publish,
    session: MqttConnection,
    unit: Unit,
    retain: bool,
) -> bool {
    let resolved = unit.mqtt.spec_resolve(Some(session.units));
    &&& resolved is Some
    &&& publish.topic == resolved.unwrap().config_topic
    &&& publish.payload matches Payload::Document(document)
        && ConfiguredUnit::spec_document_for(
        document,
        session.entity_context,
        resolved.unwrap(),
        unit.unit,
    )
    &&& publish.retain == retain
    &&& publish.qos == QOS
}

/// Whether `publish` puts the discovery document of the diagnostic button on
/// the button's discovery topic.
pub open spec fn is_diag_config(publish: Publish, session: MqttConnection, retain: bool) -> bool {
    &&& publish.topic == session.diag_button.config_topic
    &&& publish.payload matches Payload::Document(document)
        && session.diag_button_entity.spec_document(document)
    &&& publish.retain == retain
    &&& publish.qos == QOS
}

/// Whether `publish` erases what is retained on `topic`: a retained message
/// without payload.
pub open spec fn is_tombstone(publish: Publish, topic: String) -> bool {
    &&& publish.topic == topic
    &&& publish.payload matches Payload::Bytes(bytes) && bytes@.len() == 0
    &&& publish.retain
    &&& publish.qos == QOS
}

/// Whether `publish` puts the JSON text `text` on `topic`.
pub open spec fn is_json(publish: Publish, topic: String, text: Seq<char>, retain: bool) -> bool {
    &&& publish.topic == topic
    &&& publish.payload matches Payload::Bytes(bytes) && bytes@ == encode_utf8(text)
    &&& publish.retain == retain
    &&& publish.qos == QOS
}

/// Whether `publishes` is the cleanup of `session`: one message per unit
/// that has topics, then one for the diagnostic button, then the status
/// "inactive".  With `clean_up` the first erase the discovery documents and
/// the status is not retained; without it they repeat the documents with
/// retain cleared and the status is retained.
pub open spec fn is_cleanup(
    publishes: Seq<Publish>,
    session: MqttConnection,
    units: Seq<Unit>,
    clean_up: bool,
) -> bool {
    let live = live_units(units, session.units);
    &&& publishes.len() == live.len() + 2
    &&& forall|k: int|
        0 <= k < live.len() ==> if clean_up {
            is_tombstone(
                #[trigger] publishes[k],
                live[k].mqtt.spec_resolve(Some(session.units)).unwrap().config_topic,
            )
        } else {
            is_unit_config(publishes[k], session, live[k], false)
        }
    &&& if clean_up {
        is_tombstone(publishes[live.len() as int], session.diag_button.config_topic)
    } else {
        is_diag_config(publishes[live.len() as int], session, false)
    }
    &&& is_json(
        publishes[live.len() as int + 1],
        session.diag_button.state_topic,
        service_status_text(false, Seq::empty()),
        !clean_up,
    )
}

/// Whether `publishes` is the announcement of `session`: the status
/// "active" with the names of all units, then the discovery document of
/// each unit that has topics, then that of the diagnostic button, all
/// retained.
pub open spec fn is_announcement(
    publishes: Seq<Publish>,
    session: MqttConnection,
    units: Seq<Unit>,
) -> bool {
    let live = live_units(units, session.units);
    &&& publishes.len() == live.len() + 2
    &&& is_json(
        publishes[0],
        session.diag_button.state_topic,
        service_status_text(true, unit_names(units)),
        true,
    )
    &&& forall|k: int|
        0 <= k < live.len() ==> is_unit_config(#[trigger] publishes[k + 1], session, live[k], true)
    &&& is_diag_config(publishes[live.len() as int + 1], session, true)
}

/// A unit whose slot resolves is among the live units.
pub proof fn lemma_live_units_has(units: Seq<Unit>, store: TopicStore, i: int)
    requires
        0 <= i < units.len(),
        units[i].mqtt.spec_resolve(Some(store)) is Some,
    ensures
        exists|k: int|
            0 <= k < live_units(units, store).len() && #[trigger] live_units(units, store)[k]
                == units[i],
    decreases units.len(),
{
    let before = live_units(units.drop_last(), store);
    if i == units.len() - 1 {
        assert(live_units(units, store)[before.len() as int] == units[i]);
    } else {
        lemma_live_units_has(units.drop_last(), store, i);
        let k = choose|k: int| 0 <= k < before.len() && #[trigger] before[k] == units.drop_last()[i];
        assert(live_units(units, store)[k] == units[i]);
    }
}

/// While a session is installed, every entry of its store is the topics of
/// a live unit.
pub proof fn lemma_live_units_cover_session(core: Core, e: int)
    requires
        core.wf(),
        core.mqtt is Some,
        0 <= e < core.mqtt.unwrap().units.entries@.len(),
    ensures
        exists|k: int|
            0 <= k < core.spec_mqtt_units().len() && (#[trigger] core.spec_mqtt_units()[k]).mqtt.spec_resolve(
                store_of(core.mqtt),
            ) == Some(core.mqtt.unwrap().units.entries@[e].topics),
{
    let store = core.mqtt.unwrap().units;
    let entry = store.entries@[e];
    assert(tracks(core.units@, entry.name@));
    let i = choose|i: int| 0 <= i < core.units@.len() && (#[trigger] core.units@[i]).unit.unit@ == entry.name@;
    let unit = core.units@[i];
    assert(slot_agrees(unit, store));
    match unit.mqtt.handle {
        Some(handle) => {
            if handle.index < e {
                assert(store.entries@[handle.index as int].name@ != store.entries@[e].name@);
            } else if handle.index > e {
                assert(store.entries@[e].name@ != store.entries@[handle.index as int].name@);
            }
        },
        None => {
            assert(store.contains(entry.name@));
        },
    }
    assert(unit.mqtt.handle is Some && unit.mqtt.handle.unwrap().index == e);
    assert(unit.mqtt.spec_resolve(Some(store)) == Some(entry.topics));
    lemma_live_units_has(core.units@, store, i);
    let live = live_units(core.units@, store);
    let k = choose|k: int| 0 <= k < live.len() && #[trigger] live[k] == core.units@[i];
    assert(core.spec_mqtt_units()[k].mqtt.spec_resolve(store_of(core.mqtt)) == Some(entry.topics));
}

/// After a cleanup every entity of the session has had its message: with
/// `clean_up`, every discovery topic of the session gets a retained message
/// without payload; without it, every discovery topic gets the entity's
/// discovery document again, with retain cleared.
pub proof fn lemma_cleanup_reaches_every_entity(core: Core, publishes: Seq<Publish>, e: int)
    requires
        core.wf(),
        core.mqtt is Some,
        is_cleanup(publishes, core.mqtt.unwrap(), core.units@, core.cli.clean_up),
        0 <= e < core.mqtt.unwrap().units.entries@.len(),
    ensures
        exists|k: int|
            0 <= k < publishes.len() && (#[trigger] publishes[k]).topic
                == core.mqtt.unwrap().units.entries@[e].topics.config_topic && publishes[k].retain
                == core.cli.clean_up && if core.cli.clean_up {
                publishes[k].payload matches Payload::Bytes(bytes) && bytes@.len() == 0
            } else {
                publishes[k].payload is Document
            },
        exists|k: int|
            0 <= k < publishes.len() && (#[trigger] publishes[k]).topic
                == core.mqtt.unwrap().diag_button.config_topic && publishes[k].retain
                == core.cli.clean_up && if core.cli.clean_up {
                publishes[k].payload matches Payload::Bytes(bytes) && bytes@.len() == 0
            } else {
                publishes[k].payload is Document
            },
{
    let session = core.mqtt.unwrap();
    let live = core.spec_mqtt_units();
    lemma_live_units_cover_session(core, e);
    let k = choose|k: int|
        0 <= k < live.len() && (#[trigger] live[k]).mqtt.spec_resolve(store_of(core.mqtt)) == Some(
            session.units.entries@[e].topics,
        );
    assert(publishes[k].topic == session.units.entries@[e].topics.config_topic);
    assert(publishes[live.len() as int].topic == session.diag_button.config_topic);
}

/// An announcement reaches every entity of the session: each discovery
/// topic gets a document, retained.
pub proof fn lemma_announcement_reaches_every_entity(core: Core, publishes: Seq<Publish>, e: int)
    requires
        core.wf(),
        core.mqtt is Some,
        is_announcement(publishes, core.mqtt.unwrap(), core.units@),
        0 <= e < core.mqtt.unwrap().units.entries@.len(),
    ensures
        exists|k: int|
            0 <= k < publishes.len() && (#[trigger] publishes[k]).topic
                == core.mqtt.unwrap().units.entries@[e].topics.config_topic && publishes[k].retain
                && publishes[k].payload is Document,
        exists|k: int|
            0 <= k < publishes.len() && (#[trigger] publishes[k]).topic
                == core.mqtt.unwrap().diag_button.config_topic && publishes[k].retain
                && publishes[k].payload is Document,
{
    let session = core.mqtt.unwrap();
    let live = core.spec_mqtt_units();
    lemma_live_units_cover_session(core, e);
    let k = choose|k: int|
        0 <= k < live.len() && (#[trigger] live[k]).mqtt.spec_resolve(store_of(core.mqtt)) == Some(
            session.units.entries@[e].topics,
        );
    assert(publishes[k + 1].topic == session.units.entries@[e].topics.config_topic);
    assert(publishes[live.len() as int + 1].topic == session.diag_button.config_topic);
}

/// Two status messages for one unit go to the same topic, both retained,
/// and say the same where the status is the same: whichever the broker takes
/// last replaces the other, and nothing else is touched.
pub proof fn lemma_status_publishes_agree(
    first: Publish,
    second: Publish,
    topic: String,
    first_text: Seq<char>,
    second_text: Seq<char>,
)
    requires
        is_json(first, topic, first_text, true),
        is_json(second, topic, second_text, true),
    ensures
        first.topic == second.topic,
        first.retain && second.retain,
        first.qos == second.qos,
        first_text == second_text ==> (first.payload matches Payload::Bytes(a)
            && second.payload matches Payload::Bytes(b) && a@ == b@),
{
}

/// The discovery document of `unit`, to go on its discovery topic.
fn unit_config(session: &MqttConnection, unit: &Unit, topics: &EntityTopics, retain: bool) -> (r:
    Publish)
    requires
        unit.mqtt.spec_resolve(Some(session.units)) == Some(*topics),
        !unit.unit.read_only ==> topics.command_topic is Some,
    ensures
        is_unit_config(r, *session, *unit, retain),
{
    let entity = ConfiguredUnit::new(&session.entity_context, topics, &unit.unit);
    let document = entity.to_document();
    assert(entity.describes(session.entity_context, *topics, unit.unit));
    topics.publish_config(Payload::Document(document), retain, QOS)
}

impl Core {
    /// The units that have topics in the installed session, in their order.
    pub open spec fn spec_mqtt_units(&self) -> Seq<Unit> {
        match self.mqtt {
            Some(session) => live_units(self.units@, session.units),
            None => Seq::empty(),
        }
    }

    /// The status that tells consumers that the bridge is gone.
    pub fn mqtt_will_payload(&self) -> (r: ServiceStatus)
        ensures
            !r.is_active,
            r.units@.len() == 0,
    {
        ServiceStatus { is_active: false, units: Vec::new() }
    }

    /// The units that have topics in the installed session, each with its
    /// topics.
    pub fn mqtt_units(&self) -> (r: Vec<(&Unit, &EntityTopics)>)
        requires
            self.wf(),
        ensures
            r@.len() == self.spec_mqtt_units().len(),
            forall|k: int|
                0 <= k < r@.len() ==> *(#[trigger] r@[k]).0 == self.spec_mqtt_units()[k]
                    && r@[k].0.mqtt.spec_resolve(store_of(self.mqtt)) == Some(*r@[k].1)
                    && (!r@[k].0.unit.read_only ==> r@[k].1.command_topic is Some),
    {
        let mut out: Vec<(&Unit, &EntityTopics)> = Vec::new();
        let session = match &self.mqtt {
            Some(session) => session,
            None => {
                return out;
            },
        };
        let mut i: usize = 0;
        assert(self.units@.take(0) =~= Seq::empty());
        while i < self.units.len()
            invariant
                i <= self.units@.len(),
                self.wf(),
                self.mqtt == Some(*session),
                out@.len() == live_units(self.units@.take(i as int), session.units).len(),
                forall|k: int|
                    0 <= k < out@.len() ==> *(#[trigger] out@[k]).0 == live_units(
                        self.units@.take(i as int),
                        session.units,
                    )[k] && out@[k].0.mqtt.spec_resolve(Some(session.units)) == Some(*out@[k].1)
                        && (!out@[k].0.unit.read_only ==> out@[k].1.command_topic is Some),
            decreases self.units@.len() - i,
        {
            let unit = &self.units[i];
            proof {
                assert(self.units@.take(i + 1).drop_last() == self.units@.take(i as int));
                assert(self.units@.take(i + 1).last() == *unit);
                assert(slot_agrees(self.units@[i as int], session.units));
            }
            match unit.topics(Some(&session.units)) {
                Some(topics) => {
                    out.push((unit, topics));
                },
                None => {},
            }
            i = i + 1;
        }
        assert(self.units@.take(i as int) == self.units@);
        out
    }

    /// What to publish after a connect; nothing without a session.  It
    /// always succeeds.
    pub fn announce(&self) -> (r: Result<Vec<Publish>, Error>)
        requires
            self.wf(),
        ensures
            r is Ok,
            match self.mqtt {
                Some(session) => is_announcement(r.unwrap()@, session, self.units@),
                None => r.unwrap()@.len() == 0,
            },
    {
        let mut out: Vec<Publish> = Vec::new();
        let session = match &self.mqtt {
            Some(session) => session,
            None => {
                return Ok(out);
            },
        };
        let mut names: Vec<String> = Vec::new();
        let mut i: usize = 0;
        while i < self.units.len()
            invariant
                i <= self.units@.len(),
                names@.len() == i,
                views(names@) == unit_names(self.units@.take(i as int)),
            decreases self.units@.len() - i,
        {
            let ghost before = names@;
            names.push(self.units[i].unit.unit.clone());
            proof {
                let after = unit_names(self.units@.take(i + 1));
                assert(views(names@).len() == after.len());
                assert forall|j: int| 0 <= j < after.len() implies views(names@)[j] == after[j] by {
                    if j < i {
                        assert(views(before)[j] == unit_names(self.units@.take(i as int))[j]);
                    }
                }
                assert(views(names@) =~= after);
            }
            i = i + 1;
        }
        assert(self.units@.take(i as int) == self.units@);
        let status = ServiceStatus { is_active: true, units: names };
        out.push(session.diag_button.publish_state(&status, true, QOS));
        let live = self.mqtt_units();
        let mut k: usize = 0;
        while k < live.len()
            invariant
                k <= live@.len(),
                self.wf(),
                self.mqtt == Some(*session),
                live@.len() == self.spec_mqtt_units().len(),
                forall|j: int|
                    0 <= j < live@.len() ==> *(#[trigger] live@[j]).0 == self.spec_mqtt_units()[j]
                        && live@[j].0.mqtt.spec_resolve(store_of(self.mqtt)) == Some(*live@[j].1)
                        && (!live@[j].0.unit.read_only ==> live@[j].1.command_topic is Some),
                out@.len() == k + 1,
                is_json(
                    out@[0],
                    session.diag_button.state_topic,
                    service_status_text(true, unit_names(self.units@)),
                    true,
                ),
                forall|j: int|
                    0 <= j < k ==> is_unit_config(
                        #[trigger] out@[j + 1],
                        *session,
                        self.spec_mqtt_units()[j],
                        true,
                    ),
            decreases live@.len() - k,
        {
            let (unit, topics) = live[k];
            out.push(unit_config(session, unit, topics, true));
            k = k + 1;
        }
        out.push(
            session.diag_button.publish_config(
                Payload::Document(session.diag_button_entity.to_document()),
                true,
                QOS,
            ),
        );
        Ok(out)
    }

    /// What to publish for a unit whose state may have changed: its status,
    /// retained, on its state topic.  Nothing while the unit's slot does
    /// not resolve.  It always succeeds, however often and in whatever
    /// order it is called.
    pub fn inform_unit(&self, unit: &Unit, status: &UnitStatus) -> (r: Result<
        Option<Publish>,
        Error,
    >)
        ensures
            r is Ok,
            match r.unwrap() {
                None => unit.mqtt.spec_resolve(store_of(self.mqtt)) is None,
                Some(publish) => {
                    &&& unit.mqtt.spec_resolve(store_of(self.mqtt)) is Some
                    &&& is_json(
                        publish,
                        unit.mqtt.spec_resolve(store_of(self.mqtt)).unwrap().state_topic,
                        status.json_text(),
                        true,
                    )
                },
            },
    {
        let session = match &self.mqtt {
            Some(session) => session,
            None => {
                return Ok(None);
            },
        };
        let topics = match unit.topics(Some(&session.units)) {
            Some(topics) => topics,
            None => {
                return Ok(None);
            },
        };
        Ok(Some(topics.publish_state(status, true, QOS)))
    }

    /// The first step of a disconnect: what to publish before the session
    /// ends.  The bridge stays as it is, session and slots included, so
    /// that a status published meanwhile still finds its topic; `release`
    /// is the second step, to be taken once the messages are out.  It
    /// always succeeds, and without a session there is nothing to publish.
    pub fn disconnect(&self) -> (r: Result<Vec<Publish>, Error>)
        requires
            self.wf(),
        ensures
            r is Ok,
            match self.mqtt {
                Some(session) => is_cleanup(
                    r.unwrap()@,
                    session,
                    self.units@,
                    self.cli.clean_up,
                ),
                None => r.unwrap()@.len() == 0,
            },
    {
        let mut out: Vec<Publish> = Vec::new();
        let clean_up = self.cli.clean_up();
        let session = match &self.mqtt {
            Some(session) => session,
            None => {
                return Ok(out);
            },
        };
        let live = self.mqtt_units();
        let mut k: usize = 0;
        while k < live.len()
            invariant
                k <= live@.len(),
                self.wf(),
                self.mqtt == Some(*session),
                live@.len() == self.spec_mqtt_units().len(),
                forall|j: int|
                    0 <= j < live@.len() ==> *(#[trigger] live@[j]).0 == self.spec_mqtt_units()[j]
                        && live@[j].0.mqtt.spec_resolve(store_of(self.mqtt)) == Some(*live@[j].1)
                        && (!live@[j].0.unit.read_only ==> live@[j].1.command_topic is Some),
                out@.len() == k,
                forall|j: int|
                    0 <= j < k ==> if clean_up {
                        is_tombstone(
                            #[trigger] out@[j],
                            self.spec_mqtt_units()[j].mqtt.spec_resolve(
                                Some(session.units),
                            ).unwrap().config_topic,
                        )
                    } else {
                        is_unit_config(out@[j], *session, self.spec_mqtt_units()[j], false)
                    },
            decreases live@.len() - k,
        {
            let (unit, topics) = live[k];
            if clean_up {
                out.push(topics.publish_config(Payload::Bytes(Vec::new()), true, QOS));
            } else {
                out.push(unit_config(session, unit, topics, false));
            }
            k = k + 1;
        }
        if clean_up {
            out.push(session.diag_button.publish_config(Payload::Bytes(Vec::new()), true, QOS));
        } else {
            out.push(
                session.diag_button.publish_config(
                    Payload::Document(session.diag_button_entity.to_document()),
                    false,
                    QOS,
                ),
            );
        }
        let offline = self.mqtt_will_payload();
        assert(views(offline.units@) =~= Seq::empty());
        out.push(session.diag_button.publish_state(&offline, !clean_up, QOS));
        Ok(out)
    }

    /// The second step of a disconnect: ends the session.  Every slot is
    /// emptied, then the session is dropped.  Without a session nothing
    /// happens.
    pub fn release(&mut self)
        requires
            old(self).wf(),
        ensures
            final(self).wf(),
            final(self).mqtt is None,
            final(self).cli == old(self).cli,
            final(self).system_hostname == old(self).system_hostname,
            final(self).sessions == old(self).sessions,
            configs_of(final(self).units@) == configs_of(old(self).units@),
            forall|i: int|
                0 <= i < final(self).units@.len() ==> (
                #[trigger] final(self).units@[i]).mqtt.handle is None,
            old(self).mqtt is None ==> *final(self) == *old(self),
    {
        if self.mqtt.is_none() {
            return;
        }
        let ghost units_before = self.units@;
        clear_slots(&mut self.units);
        proof {
            lemma_distinct_by_configs(units_before, self.units@);
        }
        self.mqtt = None;
    }
}

} // verus!
