//! The bridge's state: the units it watches, and the session with the broker
//! while there is one.

use crate::config::{Args, UnitConfig};
use crate::entities::diag::DiagButton;
use crate::entities::EntityContext;
use crate::text::{head_of, head_segment, str_eq};
use crate::topics::{EntityTopics, TopicHandle, TopicSlot, TopicStore};
use vstd::prelude::*;
use vstd::string::*;

verus! {

broadcast use vstd::string::group_string_axioms;

/// One watched unit: its settings, which never change, and the slot that
/// leads to its topics while a session lasts.
#[derive(Debug)]
pub struct Unit {
    pub unit: UnitConfig,
    pub mqtt: TopicSlot,
}

/// Everything that lives as long as one connection to the broker.
#[derive(Debug)]
pub struct MqttConnection {
    pub diag_button: EntityTopics,
    pub diag_button_entity: DiagButton,
    pub entity_context: EntityContext,
    pub units: TopicStore,
}

/// The bridge.
#[derive(Debug)]
pub struct Core {
    pub cli: Args,
    pub system_hostname: Option<String>,
    pub units: Vec<Unit>,
    pub mqtt: Option<MqttConnection>,
    pub sessions: u64,
}

/// The store of a session that may be absent.
pub open spec fn store_of(mqtt: Option<MqttConnection>) -> Option<TopicStore> {
    match mqtt {
        Some(session) => Some(session.units),
        None => None,
    }
}

/// Whether `unit`'s slot and `store` agree: either the slot leads to the
/// store's entry of that unit, which has a command topic unless the unit is
/// only watched, or it leads nowhere and the store has no such entry.
pub open spec fn slot_agrees(unit: Unit, store: TopicStore) -> bool {
    match unit.mqtt.handle {
        Some(handle) => {
            &&& handle.store == store.id
            &&& handle.index < store.entries@.len()
            &&& store.entries@[handle.index as int].name@ == unit.unit.unit@
            &&& !unit.unit.read_only ==> store.entries@[handle.index as int].topics.command_topic is Some
        },
        None => !store.contains(unit.unit.unit@),
    }
}

/// Whether no two units share a name.
pub open spec fn names_distinct(units: Seq<Unit>) -> bool {
    forall|i: int, j: int|
        0 <= i < j < units.len() ==> (#[trigger] units[i]).unit.unit@ != (
        #[trigger] units[j]).unit.unit@
}

/// Whether a unit called `name` is among `units`.
pub open spec fn tracks(units: Seq<Unit>, name: Seq<char>) -> bool {
    exists|i: int| 0 <= i < units.len() && (#[trigger] units[i]).unit.unit@ == name
}

/// The units that `configs` describes: one per name, in the order in which
/// the names first occur, each with the last settings given under its name.
pub open spec fn collected(configs: Seq<UnitConfig>) -> Seq<UnitConfig>
    decreases configs.len(),
{
    if configs.len() == 0 {
        Seq::empty()
    } else {
        let before = collected(configs.drop_last());
        let last = configs.last();
        let at = config_position(before, last.unit@);
        if at < before.len() {
            before.update(at, last)
        } else {
            before.push(last)
        }
    }
}

/// Position of the first settings for `name`, or the length of `configs`.
pub open spec fn config_position(configs: Seq<UnitConfig>, name: Seq<char>) -> int
    decreases configs.len(),
{
    if configs.len() == 0 {
        0
    } else if configs[0].unit@ == name {
        0
    } else {
        1 + config_position(configs.skip(1), name)
    }
}

/// The settings of each unit.
pub open spec fn configs_of(units: Seq<Unit>) -> Seq<UnitConfig> {
    units.map_values(|u: Unit| u.unit)
}

/// The first settings for `name` stand where nothing before bears that name.
pub proof fn lemma_config_position(configs: Seq<UnitConfig>, name: Seq<char>, i: int)
    requires
        0 <= i <= configs.len(),
        i < configs.len() ==> configs[i].unit@ == name,
        forall|j: int| 0 <= j < i ==> (#[trigger] configs[j]).unit@ != name,
    ensures
        config_position(configs, name) == i,
    decreases configs.len(),
{
    if configs.len() > 0 && i > 0 {
        let rest = configs.skip(1);
        assert(configs[0].unit@ != name);
        assert forall|j: int| 0 <= j < i - 1 implies (#[trigger] rest[j]).unit@ != name by {
            assert(rest[j] == configs[j + 1]);
        }
        lemma_config_position(rest, name, i - 1);
    }
}

/// Position of the unit called `name` among `units`.
pub(crate) fn position_in(units: &Vec<Unit>, name: &str) -> (r: Option<usize>)
    ensures
        match r {
            Some(i) => i < units@.len() && units@[i as int].unit.unit@ == name@ && forall|j: int|
                0 <= j < i ==> (#[trigger] units@[j]).unit.unit@ != name@,
            None => !tracks(units@, name@),
        },
        config_position(configs_of(units@), name@) == match r {
            Some(i) => i as int,
            None => units@.len() as int,
        },
{
    let ghost configs = configs_of(units@);
    let mut i: usize = 0;
    while i < units.len()
        invariant
            configs == configs_of(units@),
            i <= units@.len(),
            forall|j: int| 0 <= j < i ==> (#[trigger] units@[j]).unit.unit@ != name@,
        decreases units@.len() - i,
    {
        if str_eq(units[i].unit.unit.as_str(), name) {
            proof {
                assert forall|j: int| 0 <= j < i implies (#[trigger] configs[j]).unit@ != name@ by {
                    assert(units@[j].unit.unit@ != name@);
                }
                lemma_config_position(configs, name@, i as int);
            }
            return Some(i);
        }
        i = i + 1;
    }
    proof {
        assert forall|j: int| 0 <= j < configs.len() implies (#[trigger] configs[j]).unit@
            != name@ by {
            assert(units@[j].unit.unit@ != name@);
        }
        lemma_config_position(configs, name@, configs.len() as int);
    }
    None
}

/// Units with the same settings have distinct names together.
pub proof fn lemma_distinct_by_configs(a: Seq<Unit>, b: Seq<Unit>)
    requires
        configs_of(a) == configs_of(b),
        names_distinct(a),
    ensures
        names_distinct(b),
{
    assert(a.len() == configs_of(a).len());
    assert(b.len() == configs_of(b).len());
    assert forall|i: int, j: int| 0 <= i < j < b.len() implies (#[trigger] b[i]).unit.unit@ != (
    #[trigger] b[j]).unit.unit@ by {
        assert(b[i].unit == configs_of(b)[i]);
        assert(b[j].unit == configs_of(b)[j]);
        assert(a[i].unit == configs_of(a)[i]);
        assert(a[j].unit == configs_of(a)[j]);
    }
}

/// Empties every slot.
pub(crate) fn clear_slots(units: &mut Vec<Unit>)
    ensures
        final(units)@.len() == old(units)@.len(),
        configs_of(final(units)@) == configs_of(old(units)@),
        forall|i: int| 0 <= i < final(units)@.len() ==> (#[trigger] final(units)@[i]).mqtt.handle is None,
{
    let mut i: usize = 0;
    while i < units.len()
        invariant
            i <= units@.len(),
            units@.len() == old(units)@.len(),
            configs_of(units@) =~= configs_of(old(units)@),
            forall|j: int| 0 <= j < i ==> (#[trigger] units@[j]).mqtt.handle is None,
        decreases units@.len() - i,
    {
        units[i].drop_topics();
        i = i + 1;
    }
}

impl Unit {
    /// A unit with an empty slot.
    pub fn new(unit: UnitConfig) -> (r: Self)
        ensures
            r.unit == unit,
            r.mqtt.handle is None,
    {
        Unit { unit, mqtt: TopicSlot::new() }
    }

    /// The unit's full name.
    pub fn unit_name(&self) -> (r: &String)
        ensures
            *r == self.unit.unit,
    {
        &self.unit.unit
    }

    /// The unit's topics, while `store` is the live store that its slot
    /// points into.
    pub fn topics<'a>(&self, store: Option<&'a TopicStore>) -> (r: Option<&'a EntityTopics>)
        ensures
            match r {
                Some(topics) => store is Some && self.mqtt.spec_resolve(Some(*store.unwrap()))
                    == Some(*topics),
                None => store is None || self.mqtt.spec_resolve(Some(*store.unwrap())) is None,
            },
    {
        self.mqtt.resolve(store)
    }

    /// Points the slot at `handle` and hands back what it held.
    pub fn set_topics(&mut self, handle: TopicHandle) -> (previous: Option<TopicHandle>)
        ensures
            previous == old(self).mqtt.handle,
            final(self).mqtt.handle == Some(handle),
            final(self).unit == old(self).unit,
    {
        self.mqtt.set(handle)
    }

    /// Empties the slot.
    pub fn drop_topics(&mut self)
        ensures
            final(self).mqtt.handle is None,
            final(self).unit == old(self).unit,
    {
        let _ = self.mqtt.clear();
    }
}

impl MqttConnection {
    /// Whether the session is complete: the diagnostic button can take
    /// commands and is described as the context says, and no unit has two
    /// entries.
    pub open spec fn wf(&self) -> bool {
        &&& self.units.distinct()
        &&& self.diag_button.command_topic is Some
        &&& self.diag_button_entity.describes(self.entity_context, self.diag_button)
    }

    /// The topic that carries the bridge's own status.
    pub fn status_topic(&self) -> (r: String)
        ensures
            r == self.diag_button.state_topic,
    {
        self.diag_button.state_topic()
    }

    /// The topic on which the bridge itself takes commands.
    pub fn set_topic(&self) -> (r: &String)
        requires
            self.diag_button.command_topic is Some,
        ensures
            *r == self.diag_button.command_topic.unwrap(),
    {
        self.diag_button.expect_command_topic()
    }
}

impl Core {
    /// Whether the bridge's state is consistent: unit names are distinct;
    /// while a session is installed it is complete, its context is that of
    /// this host with the button's state topic for the status, every slot
    /// agrees with its store, and every entry of the store belongs to a
    /// unit; and between sessions every slot is empty.
    pub open spec fn wf(&self) -> bool {
        &&& names_distinct(self.units@)
        &&& match self.mqtt {
            Some(session) => {
                &&& session.wf()
                &&& session.units.id == self.sessions
                &&& session.entity_context.is_for(
                    self.spec_hostname(),
                    session.diag_button.state_topic@,
                )
                &&& forall|i: int|
                    0 <= i < self.units@.len() ==> slot_agrees(
                        #[trigger] self.units@[i],
                        session.units,
                    )
                &&& forall|k: int|
                    0 <= k < session.units.entries@.len() ==> tracks(
                        self.units@,
                        (#[trigger] session.units.entries@[k]).name@,
                    )
            },
            None => forall|i: int|
                0 <= i < self.units@.len() ==> (#[trigger] self.units@[i]).mqtt.handle is None,
        }
    }

    /// The host's name as given, else as the system reports it, else
    /// `systemd`.
    pub open spec fn spec_hostname_(&self) -> Seq<char> {
        match self.cli.hostname {
            Some(hostname) => hostname@,
            None => match self.system_hostname {
                Some(hostname) => hostname@,
                None => "systemd"@,
            },
        }
    }

    /// The host's name up to its first dot.
    pub open spec fn spec_hostname(&self) -> Seq<char> {
        head_segment(self.spec_hostname_(), '.')
    }

    /// The bridge for the given settings, before any session.  Where two
    /// units are given under one name, the later settings replace the
    /// earlier.
    pub fn new(cli: Args, system_hostname: Option<String>) -> (r: Self)
        ensures
            r.wf(),
            r.mqtt is None,
            r.cli == cli,
            r.system_hostname == system_hostname,
            r.sessions == 0,
            configs_of(r.units@) == collected(cli.units@),
            forall|i: int| 0 <= i < r.units@.len() ==> (#[trigger] r.units@[i]).mqtt.handle is None,
    {
        let mut units: Vec<Unit> = Vec::new();
        let mut k: usize = 0;
        assert(cli.units@.take(0) =~= Seq::empty());
        assert(configs_of(units@) =~= Seq::empty());
        while k < cli.units.len()
            invariant
                k <= cli.units@.len(),
                names_distinct(units@),
                configs_of(units@) == collected(cli.units@.take(k as int)),
                forall|i: int| 0 <= i < units@.len() ==> (#[trigger] units@[i]).mqtt.handle is None,
            decreases cli.units@.len() - k,
        {
            let config = cli.units[k].clone();
            let ghost before = configs_of(units@);
            proof {
                assert(cli.units@.take(k + 1).drop_last() == cli.units@.take(k as int));
                assert(cli.units@.take(k + 1).last() == config);
            }
            match position_in(&units, config.unit.as_str()) {
                Some(i) => {
                    proof {
                        lemma_config_position(before, config.unit@, i as int);
                    }
                    units.set(i, Unit::new(config));
                    assert(configs_of(units@) =~= before.update(i as int, config));
                },
                None => {
                    proof {
                        assert forall|j: int| 0 <= j < before.len() implies (
                        #[trigger] before[j]).unit@ != config.unit@ by {
                            assert(units@[j].unit.unit@ != config.unit@);
                        }
                        lemma_config_position(before, config.unit@, before.len() as int);
                    }
                    units.push(Unit::new(config));
                    assert(configs_of(units@) =~= before.push(config));
                },
            }
            k = k + 1;
        }
        assert(cli.units@.take(k as int) == cli.units@);
        Core {
            cli,
            system_hostname,
            units,
            mqtt: None,
            sessions: 0,
        }
    }

    /// Position of the first unit called `name`, if the bridge watches one.
    pub fn unit_position(&self, name: &str) -> (r: Option<usize>)
        ensures
            match r {
                Some(i) => i < self.units@.len() && self.units@[i as int].unit.unit@ == name@
                    && forall|j: int| 0 <= j < i ==> (#[trigger] self.units@[j]).unit.unit@ != name@,
                None => !tracks(self.units@, name@),
            },
            r is Some <==> tracks(self.units@, name@),
    {
        position_in(&self.units, name)
    }

    /// The unit called `name`, if the bridge watches one: the first of that
    /// name.
    pub fn unit(&self, name: &str) -> (r: Option<&Unit>)
        ensures
            r is Some <==> tracks(self.units@, name@),
            r is Some ==> r.unwrap().unit.unit@ == name@ && *r.unwrap() == self.units@[config_position(
                configs_of(self.units@),
                name@,
            )],
    {
        match position_in(&self.units, name) {
            Some(i) => Some(&self.units[i]),
            None => None,
        }
    }

    /// The host's name as given, else as the system reports it, else
    /// `systemd`.
    pub fn hostname_(&self) -> (r: &str)
        ensures
            r@ == self.spec_hostname_(),
    {
        match &self.cli.hostname {
            Some(hostname) => hostname.as_str(),
            None => match &self.system_hostname {
                Some(hostname) => hostname.as_str(),
                None => "systemd",
            },
        }
    }

    /// The host's name up to its first dot.
    pub fn hostname(&self) -> (r: &str)
        ensures
            r@ == self.spec_hostname(),
    {
        head_of(self.hostname_(), '.')
    }
}

/// A handle into the store of one session leads nowhere in the store of the
/// next: no topics are shared between two sessions.
pub proof fn lemma_handle_dies_with_its_session(
    slot: TopicSlot,
    earlier: TopicStore,
    later: TopicStore,
)
    requires
        slot.handle is Some,
        slot.handle.unwrap().store == earlier.id,
        later.id == vstd::wrapping::u64_specs::wrapping_add(earlier.id, 1),
    ensures
        slot.spec_resolve(Some(later)) is None,
{
}

/// While a session is installed, a unit's slot resolves exactly when the
/// session holds topics under the unit's name; without a session no slot
/// resolves.
pub proof fn lemma_slot_resolves_iff_in_session(core: Core, i: int)
    requires
        core.wf(),
        0 <= i < core.units@.len(),
    ensures
        core.units@[i].mqtt.spec_resolve(store_of(core.mqtt)) is Some <==> (core.mqtt is Some
            && core.mqtt.unwrap().units.contains(core.units@[i].unit.unit@)),
{
    match core.mqtt {
        Some(session) => {
            let unit = core.units@[i];
            assert(slot_agrees(unit, session.units));
            match unit.mqtt.handle {
                Some(handle) => {
                    assert(session.units.entries@[handle.index as int].name@ == unit.unit.unit@);
                },
                None => {},
            }
        },
        None => {},
    }
}

} // verus!
