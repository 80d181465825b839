//! Installing a session: what to ask the broker for, and what to make of
//! the answers.

use crate::bridge::{
    clear_slots, config_position, configs_of, lemma_distinct_by_configs, names_distinct,
    position_in, slot_agrees, store_of, tracks, Core, MqttConnection, Unit,
};
use crate::config::UnitConfig;
use crate::entities::diag::DiagButton;
use crate::entities::unit::{spec_unit_domain, ConfiguredUnit};
use crate::entities::EntityContext;
use crate::payload::{views, Error};
use crate::router::TOPIC_ROOT;
use crate::text::{opt_view, str_eq};
use crate::topics::{EntityTopics, TopicRequest, TopicStore};
use vstd::prelude::*;
use vstd::string::*;

verus! {

broadcast use vstd::string::group_string_axioms;

/// How to reach the broker.
#[derive(Debug)]
pub struct BrokerOptions {
    pub host: String,
    pub application: String,
    pub port: u16,
    pub node_id: String,
    pub discovery_prefix: String,
    pub private_prefix: String,
    pub tls: bool,
    pub auth: Option<(String, String)>,
}

/// What came of asking for the topics of one unit.
#[derive(Debug)]
pub struct Allocation {
    pub unit_name: String,
    /// The topics, or `None` where the broker's client gave none.
    pub topics: Option<EntityTopics>,
}

/// The topics to obtain for one entity before a session can be installed.
#[derive(Debug)]
pub struct EntityRequest {
    /// The unit that the entity stands for; `None` for the diagnostic button.
    pub unit_name: Option<String>,
    pub entity: TopicRequest,
    /// The name of the state topic below the entity.
    pub state: String,
    /// The name of the command topic below the entity, if it takes commands.
    pub command: Option<String>,
}

/// Whether `scheme` asks for an encrypted connection.
pub open spec fn spec_is_tls(scheme: Seq<char>) -> bool {
    scheme == "mqtts"@ || scheme == "ssl"@
}

/// Whether `request` asks for the topics of the diagnostic button.
pub open spec fn is_diag_request(request: EntityRequest) -> bool {
    &&& request.unit_name is None
    &&& request.entity.domain@ == "button"@
    &&& request.entity.short_id@ == "diag_reset"@
    &&& request.state@ == "status"@
    &&& opt_view(request.command) == Some("set"@)
}

/// Whether `request` asks for the topics of `unit`: a command topic only
/// where the unit is not merely watched.
pub open spec fn is_unit_request(request: EntityRequest, unit: UnitConfig) -> bool {
    &&& opt_view(request.unit_name) == Some(unit.unit@)
    &&& request.entity.domain@ == spec_unit_domain(unit)
    &&& request.entity.short_id@ == unit.spec_short_name()
    &&& request.state@ == "status"@
    &&& opt_view(request.command) == if unit.read_only {
        None
    } else {
        Some("activate"@)
    }
}

/// Whether settings for `name` are among `configs`.
pub open spec fn configured(configs: Seq<UnitConfig>, name: Seq<char>) -> bool {
    config_position(configs, name) < configs.len()
}

/// The first settings for `name` among `configs`.
pub open spec fn config_named(configs: Seq<UnitConfig>, name: Seq<char>) -> UnitConfig {
    configs[config_position(configs, name)]
}

/// The topics as the session keeps them: a unit that is only watched has no
/// command topic.
pub open spec fn effective_topics(topics: EntityTopics, read_only: bool) -> EntityTopics {
    EntityTopics {
        config_topic: topics.config_topic,
        state_topic: topics.state_topic,
        command_topic: if read_only {
            None
        } else {
            topics.command_topic
        },
    }
}

/// Whether a session can be built on `allocation`: topics were given, they
/// are for a unit that the bridge watches, and they include a command topic
/// unless that unit is only watched.
pub open spec fn allocation_fits(configs: Seq<UnitConfig>, allocation: Allocation) -> bool {
    &&& allocation.topics is Some
    &&& configured(configs, allocation.unit_name@)
    &&& !config_named(configs, allocation.unit_name@).read_only
        ==> allocation.topics.unwrap().command_topic is Some
}

/// Position of the first allocation that does not fit, or the number of
/// allocations.
pub open spec fn first_misfit(configs: Seq<UnitConfig>, allocations: Seq<Allocation>) -> int
    decreases allocations.len(),
{
    if allocations.len() == 0 {
        0
    } else if !allocation_fits(configs, allocations[0]) {
        0
    } else {
        1 + first_misfit(configs, allocations.skip(1))
    }
}

/// Whether `e` is the error for an allocation that does not fit: a unit
/// that the bridge does not watch is an inconsistency, anything else a
/// failure to configure the entity.
pub open spec fn misfit_error(configs: Seq<UnitConfig>, allocation: Allocation, e: Error) -> bool {
    if allocation.topics is Some && !configured(configs, allocation.unit_name@) {
        e matches Error::InternalConsistency { unit_name } && unit_name@ == allocation.unit_name@
    } else {
        e is Entity
    }
}

/// Position of the last allocation for `name`, or -1.
pub open spec fn last_allocation(allocations: Seq<Allocation>, name: Seq<char>) -> int
    decreases allocations.len(),
{
    if allocations.len() == 0 {
        -1
    } else if allocations.last().unit_name@ == name {
        allocations.len() - 1
    } else {
        last_allocation(allocations.drop_last(), name)
    }
}

/// The command topic that `allocation` adds to the session, if any.
pub open spec fn command_of(configs: Seq<UnitConfig>, allocation: Allocation) -> Option<Seq<char>> {
    if allocation.topics is Some && !config_named(configs, allocation.unit_name@).read_only {
        opt_view(allocation.topics.unwrap().command_topic)
    } else {
        None
    }
}

/// The command topics of the units, in the order of the allocations.
pub open spec fn command_topics(configs: Seq<UnitConfig>, allocations: Seq<Allocation>) -> Seq<
    Seq<char>,
>
    decreases allocations.len(),
{
    if allocations.len() == 0 {
        Seq::empty()
    } else {
        let before = command_topics(configs, allocations.drop_last());
        match command_of(configs, allocations.last()) {
            Some(topic) => before.push(topic),
            None => before,
        }
    }
}

/// What the slot of the unit `config` resolves to in a session built on
/// `allocations`: the topics of the last allocation under its name.
pub open spec fn allocated_topics(allocations: Seq<Allocation>, config: UnitConfig) -> Option<
    EntityTopics,
> {
    let at = last_allocation(allocations, config.unit@);
    if at >= 0 && allocations[at].topics is Some {
        Some(effective_topics(allocations[at].topics.unwrap(), config.read_only))
    } else {
        None
    }
}

/// `last_allocation` is a position of the name, or -1 where there is none.
pub proof fn lemma_last_allocation(allocations: Seq<Allocation>, name: Seq<char>)
    ensures
        -1 <= last_allocation(allocations, name) < allocations.len(),
        last_allocation(allocations, name) >= 0 ==> allocations[last_allocation(
            allocations,
            name,
        )].unit_name@ == name,
    decreases allocations.len(),
{
    if allocations.len() > 0 && allocations.last().unit_name@ != name {
        lemma_last_allocation(allocations.drop_last(), name);
    }
}

/// `config_position` is in range, points at settings for the name when it
/// is inside, and nothing before it bears the name.
pub proof fn lemma_config_position_found(configs: Seq<UnitConfig>, name: Seq<char>)
    ensures
        0 <= config_position(configs, name) <= configs.len(),
        configured(configs, name) ==> configs[config_position(configs, name)].unit@ == name,
        forall|j: int| 0 <= j < config_position(configs, name) ==> (#[trigger] configs[j]).unit@ != name,
    decreases configs.len(),
{
    if configs.len() > 0 && configs[0].unit@ != name {
        let rest = configs.skip(1);
        lemma_config_position_found(rest, name);
        assert forall|j: int| 0 <= j < config_position(configs, name) implies (
        #[trigger] configs[j]).unit@ != name by {
            if j > 0 {
                assert(configs[j] == rest[j - 1]);
            }
        }
    }
}

/// Whether `unit`'s slot and a store under construction agree after the
/// allocations `done`: the slot leads to the topics of the last of them
/// under the unit's name, or nowhere where there is none.
pub open spec fn slot_follows(unit: Unit, store: TopicStore, done: Seq<Allocation>) -> bool {
    let at = last_allocation(done, unit.unit.unit@);
    match unit.mqtt.handle {
        Some(handle) => {
            &&& handle.store == store.id
            &&& handle.index < store.entries@.len()
            &&& store.entries@[handle.index as int].name@ == unit.unit.unit@
            &&& at >= 0
            &&& done[at].topics is Some
            &&& store.entries@[handle.index as int].topics == effective_topics(
                done[at].topics.unwrap(),
                unit.unit.read_only,
            )
        },
        None => at < 0 && !store.contains(unit.unit.unit@),
    }
}

/// Builds the store of a session from allocations that all fit, and points
/// the slot of every unit that has topics at its entry.
fn fill_store(units: &mut Vec<Unit>, allocations: &Vec<Allocation>, id: u64) -> (r: (
    TopicStore,
    Vec<String>,
))
    requires
        names_distinct(old(units)@),
        forall|i: int| 0 <= i < old(units)@.len() ==> (#[trigger] old(units)@[i]).mqtt.handle is None,
        forall|k: int|
            0 <= k < allocations@.len() ==> allocation_fits(
                configs_of(old(units)@),
                #[trigger] allocations@[k],
            ),
    ensures
        final(units)@.len() == old(units)@.len(),
        configs_of(final(units)@) == configs_of(old(units)@),
        r.0.distinct(),
        r.0.id == id,
        forall|i: int|
            0 <= i < final(units)@.len() ==> slot_follows(
                #[trigger] final(units)@[i],
                r.0,
                allocations@,
            ),
        forall|k: int|
            0 <= k < r.0.entries@.len() ==> configured(
                configs_of(old(units)@),
                (#[trigger] r.0.entries@[k]).name@,
            ),
        views(r.1@) == command_topics(configs_of(old(units)@), allocations@),
{
    let ghost configs = configs_of(units@);
    let mut store = TopicStore::new(id);
    let mut commands: Vec<String> = Vec::new();
    let mut k: usize = 0;
    assert(allocations@.take(0) =~= Seq::empty());
    assert(views(commands@) =~= Seq::empty());
    while k < allocations.len()
        invariant
            k <= allocations@.len(),
            units@.len() == configs.len(),
            configs_of(units@) == configs,
            names_distinct(units@),
            forall|j: int|
                0 <= j < allocations@.len() ==> allocation_fits(configs, #[trigger] allocations@[j]),
            store.distinct(),
            store.id == id,
            forall|i: int|
                0 <= i < units@.len() ==> slot_follows(
                    #[trigger] units@[i],
                    store,
                    allocations@.take(k as int),
                ),
            forall|e: int|
                0 <= e < store.entries@.len() ==> configured(
                    configs,
                    (#[trigger] store.entries@[e]).name@,
                ),
            views(commands@) == command_topics(configs, allocations@.take(k as int)),
        decreases allocations@.len() - k,
    {
        let allocation = &allocations[k];
        let ghost done = allocations@.take(k as int);
        let ghost next = allocations@.take(k + 1);
        let ghost old_units = units@;
        let ghost old_store = store;
        let ghost old_commands = views(commands@);
        proof {
            assert(allocation_fits(configs, allocations@[k as int]));
            assert(next.drop_last() == done);
            assert(next.last() == *allocation);
        }
        let topics = match &allocation.topics {
            Some(topics) => topics,
            None => vstd::pervasive::unreached(),
        };
        let u = match position_in(units, allocation.unit_name.as_str()) {
            Some(u) => u,
            None => vstd::pervasive::unreached(),
        };
        assert(configs[u as int] == units@[u as int].unit);
        let read_only = units[u].unit.read_only;
        let command = if read_only {
            None
        } else {
            topics.command_topic.clone()
        };
        let kept = EntityTopics {
            config_topic: topics.config_topic.clone(),
            state_topic: topics.state_topic.clone(),
            command_topic: command,
        };
        assert(kept == effective_topics(*topics, read_only));
        if !read_only {
            match &topics.command_topic {
                Some(topic) => {
                    commands.push(topic.clone());
                    assert(views(commands@) =~= old_commands.push(topic@));
                },
                None => {},
            }
        }
        let handle = store.insert(allocation.unit_name.clone(), kept);
        let _ = units[u].set_topics(handle);
        proof {
            assert(configs_of(units@) =~= configs);
            assert forall|i: int| 0 <= i < units@.len() implies slot_follows(
                #[trigger] units@[i],
                store,
                next,
            ) by {
                let unit = units@[i];
                if i == u {
                    assert(last_allocation(next, unit.unit.unit@) == k);
                } else {
                    assert(unit == old_units[i]);
                    assert(slot_follows(old_units[i], old_store, done));
                    assert(unit.unit.unit@ != old_units[u as int].unit.unit@);
                    assert(last_allocation(next, unit.unit.unit@) == last_allocation(
                        done,
                        unit.unit.unit@,
                    ));
                    lemma_last_allocation(done, unit.unit.unit@);
                    let at = last_allocation(done, unit.unit.unit@);
                    if at >= 0 {
                        assert(next[at] == done[at]);
                    }
                    match unit.mqtt.handle {
                        Some(h) => {
                            assert(h.index != handle.index);
                        },
                        None => {
                            if store.contains(unit.unit.unit@) {
                                let j = choose|j: int|
                                    0 <= j < store.entries@.len() && (
                                    #[trigger] store.entries@[j]).name@ == unit.unit.unit@;
                                assert(j != handle.index);
                                assert(old_store.entries@[j] == store.entries@[j]);
                                assert(false);
                            }
                        },
                    }
                }
            }
            assert forall|e: int| 0 <= e < store.entries@.len() implies configured(
                configs,
                (#[trigger] store.entries@[e]).name@,
            ) by {
                if e != handle.index {
                    assert(old_store.entries@[e] == store.entries@[e]);
                }
            }
        }
        k = k + 1;
    }
    assert(allocations@.take(k as int) == allocations@);
    (store, commands)
}

/// Checks that a session can be built on every allocation.
fn check_allocations(units: &Vec<Unit>, allocations: &Vec<Allocation>) -> (r: Result<(), Error>)
    ensures
        match r {
            Ok(_) => first_misfit(configs_of(units@), allocations@) == allocations@.len()
                && forall|k: int|
                0 <= k < allocations@.len() ==> allocation_fits(
                    configs_of(units@),
                    #[trigger] allocations@[k],
                ),
            Err(e) => {
                let at = first_misfit(configs_of(units@), allocations@);
                0 <= at < allocations@.len() && misfit_error(
                    configs_of(units@),
                    allocations@[at],
                    e,
                )
            },
        },
{
    let ghost configs = configs_of(units@);
    let mut k: usize = 0;
    assert(allocations@.skip(0) == allocations@);
    while k < allocations.len()
        invariant
            k <= allocations@.len(),
            configs == configs_of(units@),
            first_misfit(configs, allocations@) == k + first_misfit(
                configs,
                allocations@.skip(k as int),
            ),
            forall|j: int| 0 <= j < k ==> allocation_fits(configs, #[trigger] allocations@[j]),
        decreases allocations@.len() - k,
    {
        let allocation = &allocations[k];
        proof {
            let rest = allocations@.skip(k as int);
            assert(rest[0] == allocations@[k as int]);
            assert(rest.skip(1) == allocations@.skip(k + 1));
        }
        match &allocation.topics {
            None => {
                return Err(Error::Entity);
            },
            Some(topics) => match position_in(units, allocation.unit_name.as_str()) {
                None => {
                    return Err(
                        Error::InternalConsistency { unit_name: allocation.unit_name.clone() },
                    );
                },
                Some(u) => {
                    assert(configs[u as int] == units@[u as int].unit);
                    if !units[u].unit.read_only && topics.command_topic.is_none() {
                        return Err(Error::Entity);
                    }
                },
            },
        }
        k = k + 1;
    }
    Ok(())
}

impl Core {
    /// How to reach the broker, or `None` where no broker is configured.
    /// `UrlMissingHost` where the address names no host; `NoTls` where it
    /// asks for an encrypted connection and `tls_support` is off.
    pub fn mqtt_create(&self, tls_support: bool) -> (r: Result<Option<BrokerOptions>, Error>)
        ensures
            match r {
                Ok(None) => self.cli.mqtt_url is None,
                Ok(Some(options)) => {
                    &&& self.cli.mqtt_url is Some
                    &&& self.cli.mqtt_url.unwrap().host is Some
                    &&& options.host@ == self.cli.mqtt_url.unwrap().host.unwrap()@
                    &&& options.application@ == "systemd2mqtt"@
                    &&& options.port == match self.cli.mqtt_url.unwrap().port {
                        Some(port) => port,
                        None => 1883u16,
                    }
                    &&& options.node_id@ == self.spec_hostname()
                    &&& options.discovery_prefix@ == self.cli.discovery_prefix@
                    &&& options.private_prefix@ == "root"@
                    &&& options.tls == spec_is_tls(self.cli.mqtt_url.unwrap().scheme@)
                    &&& options.tls ==> tls_support
                    &&& match options.auth {
                        Some((user, password)) => {
                            &&& self.cli.spec_mqtt_username() == Some(user@)
                            &&& password@ == match self.cli.spec_mqtt_password() {
                                Some(given) => given,
                                None => Seq::empty(),
                            }
                        },
                        None => self.cli.spec_mqtt_username() is None,
                    }
                },
                Err(e) => {
                    &&& self.cli.mqtt_url is Some
                    &&& match self.cli.mqtt_url.unwrap().host {
                        None => e is UrlMissingHost,
                        Some(_) => e is NoTls && spec_is_tls(self.cli.mqtt_url.unwrap().scheme@)
                            && !tls_support,
                    }
                },
            },
    {
        let url = match self.cli.mqtt_url() {
            Some(url) => url,
            None => {
                return Ok(None);
            },
        };
        let host = match &url.host {
            Some(host) => host,
            None => {
                return Err(Error::UrlMissingHost);
            },
        };
        let tls = str_eq(url.scheme.as_str(), "mqtts") || str_eq(url.scheme.as_str(), "ssl");
        if tls && !tls_support {
            return Err(Error::NoTls);
        }
        let auth = match self.cli.mqtt_username() {
            Some(user) => {
                let password = match self.cli.mqtt_password() {
                    Some(password) => password.to_owned(),
                    None => String::new(),
                };
                Some((user.to_owned(), password))
            },
            None => None,
        };
        Ok(
            Some(
                BrokerOptions {
                    host: host.clone(),
                    application: "systemd2mqtt".to_owned(),
                    port: match url.port {
                        Some(port) => port,
                        None => 1883,
                    },
                    node_id: self.hostname().to_owned(),
                    discovery_prefix: self.cli.discovery_prefix().to_owned(),
                    private_prefix: TOPIC_ROOT.to_owned(),
                    tls,
                    auth,
                },
            ),
        )
    }

    /// Installs a session on the topics that were obtained: `diag` for the
    /// diagnostic button, `allocations` for the units.  All or nothing: the
    /// first allocation that does not fit fails the whole call and leaves
    /// the bridge as it was, and so does a button without a command topic.
    /// On success every slot leads to the topics of the last allocation
    /// under its unit's name, and the result lists the command topics to
    /// listen on: those of the units in the order of the allocations, then
    /// the button's.
    pub fn connect_mqtt(&mut self, diag: EntityTopics, allocations: Vec<Allocation>) -> (r: Result<
        Vec<String>,
        Error,
    >)
        requires
            old(self).wf(),
        ensures
            match r {
                Ok(commands) => {
                    &&& diag.command_topic is Some
                    &&& first_misfit(configs_of(old(self).units@), allocations@)
                        == allocations@.len()
                    &&& final(self).wf()
                    &&& final(self).cli == old(self).cli
                    &&& final(self).system_hostname == old(self).system_hostname
                    &&& configs_of(final(self).units@) == configs_of(old(self).units@)
                    &&& final(self).mqtt is Some
                    &&& final(self).sessions == vstd::wrapping::u64_specs::wrapping_add(
                        old(self).sessions,
                        1,
                    )
                    &&& final(self).mqtt.unwrap().diag_button == diag
                    &&& final(self).mqtt.unwrap().entity_context.is_for(
                        old(self).spec_hostname(),
                        diag.state_topic@,
                    )
                    &&& forall|i: int|
                        0 <= i < final(self).units@.len() ==> (
                        #[trigger] final(self).units@[i]).mqtt.spec_resolve(
                            store_of(final(self).mqtt),
                        ) == allocated_topics(allocations@, final(self).units@[i].unit)
                    &&& views(commands@) == command_topics(
                        configs_of(old(self).units@),
                        allocations@,
                    ).push(diag.command_topic.unwrap()@)
                },
                Err(e) => {
                    &&& *final(self) == *old(self)
                    &&& if diag.command_topic is None {
                        e is Entity
                    } else {
                        let at = first_misfit(configs_of(old(self).units@), allocations@);
                        0 <= at < allocations@.len() && misfit_error(
                            configs_of(old(self).units@),
                            allocations@[at],
                            e,
                        )
                    }
                },
            },
    {
        if diag.command_topic.is_none() {
            return Err(Error::Entity);
        }
        match check_allocations(&self.units, &allocations) {
            Ok(_) => {},
            Err(e) => {
                return Err(e);
            },
        }
        let ghost configs = configs_of(self.units@);
        let context = EntityContext::with_hostname(self.hostname()).with_status_topic(
            diag.state_topic(),
        );
        let entity = DiagButton::new(&context, &diag);
        let id = self.sessions.wrapping_add(1);
        self.sessions = id;
        let ghost units_before = self.units@;
        clear_slots(&mut self.units);
        proof {
            lemma_distinct_by_configs(units_before, self.units@);
        }
        let ghost units_cleared = self.units@;
        let (store, mut commands) = fill_store(&mut self.units, &allocations, id);
        proof {
            lemma_distinct_by_configs(units_cleared, self.units@);
        }
        let ghost unit_commands = views(commands@);
        commands.push(diag.expect_command_topic().clone());
        assert(views(commands@) =~= unit_commands.push(diag.command_topic.unwrap()@));
        proof {
            assert forall|i: int| 0 <= i < self.units@.len() implies slot_agrees(
                #[trigger] self.units@[i],
                store,
            ) && self.units@[i].mqtt.spec_resolve(Some(store)) == allocated_topics(
                allocations@,
                self.units@[i].unit,
            ) by {
                let unit = self.units@[i];
                assert(slot_follows(unit, store, allocations@));
                assert(configs[i] == unit.unit);
                lemma_last_allocation(allocations@, unit.unit.unit@);
                let at = last_allocation(allocations@, unit.unit.unit@);
                if at >= 0 {
                    assert(allocation_fits(configs, allocations@[at]));
                    lemma_config_position_found(configs, unit.unit.unit@);
                    let p = config_position(configs, unit.unit.unit@);
                    assert(configs[p] == self.units@[p].unit);
                    assert(p == i);
                }
            }
            assert forall|k: int| 0 <= k < store.entries@.len() implies tracks(
                self.units@,
                (#[trigger] store.entries@[k]).name@,
            ) by {
                let name = store.entries@[k].name@;
                lemma_config_position_found(configs, name);
                let p = config_position(configs, name);
                assert(configs[p] == self.units@[p].unit);
            }
        }
        self.mqtt = Some(
            MqttConnection {
                diag_button_entity: entity,
                diag_button: diag,
                entity_context: context,
                units: store,
            },
        );
        Ok(commands)
    }

    /// The topics to obtain before a session can be installed: those of the
    /// diagnostic button first, then those of each unit in turn.
    pub fn entity_requests(&self) -> (r: Vec<EntityRequest>)
        ensures
            r@.len() == self.units@.len() + 1,
            is_diag_request(r@[0]),
            forall|i: int|
                0 <= i < self.units@.len() ==> is_unit_request(
                    #[trigger] r@[i + 1],
                    self.units@[i].unit,
                ),
    {
        let context = EntityContext::with_hostname(self.hostname());
        let mut out: Vec<EntityRequest> = Vec::new();
        out.push(
            EntityRequest {
                unit_name: None,
                entity: DiagButton::entity_topic(&context),
                state: "status".to_owned(),
                command: Some("set".to_owned()),
            },
        );
        let mut i: usize = 0;
        while i < self.units.len()
            invariant
                i <= self.units@.len(),
                out@.len() == i + 1,
                is_diag_request(out@[0]),
                forall|j: int|
                    0 <= j < i ==> is_unit_request(#[trigger] out@[j + 1], self.units@[j].unit),
            decreases self.units@.len() - i,
        {
            let unit = &self.units[i].unit;
            out.push(
                EntityRequest {
                    unit_name: Some(unit.unit.clone()),
                    entity: ConfiguredUnit::entity_topic(&context, unit),
                    state: "status".to_owned(),
                    command: if unit.read_only {
                        None
                    } else {
                        Some("activate".to_owned())
                    },
                },
            );
            i = i + 1;
        }
        out
    }
}

} // verus!
