//! Reading the settings of a unit from the text given on the command line:
//! a unit's name, optionally followed by `?` and settings in the form of a
//! query string.

use crate::config::{BrokerUrl, DeviceClass, EntityCategory, UnitConfig};
use crate::text::opt_view;
use crate::payload::Error;
use crate::text::{chars_of, str_eq};
use crate::urls::{
    broker_url_view, form_pairs, pairs_view, parse_broker_url, parse_query, parse_reference,
    url_parts, url_path_and_query,
};
use vstd::prelude::*;
use vstd::string::*;

verus! {

broadcast use vstd::string::group_string_axioms;

/// The address that unit names are taken relative to.
pub const BASE_URL: &'static str = "systemd:/unit/";

/// What the path of a unit's address starts with.
pub const UNIT_PREFIX: &'static str = "/unit/";

/// A setting of a unit that can be given by name.
#[derive(Debug, Clone, Copy, PartialEq, Eq, Structural)]
pub enum UnitField {
    Unit,
    ReadOnly,
    InvertState,
    EnabledByDefault,
    EntityCategory,
    Icon,
    Name,
    ObjectId,
    DeviceClass,
}

/// The settings that were given, each at most once.
#[derive(Debug)]
pub struct UnitFields {
    pub unit: Option<String>,
    pub read_only: Option<bool>,
    pub invert_state: Option<bool>,
    pub enabled_by_default: Option<bool>,
    pub entity_category: Option<EntityCategory>,
    pub icon: Option<String>,
    pub name: Option<String>,
    pub object_id: Option<String>,
    pub device_class: Option<String>,
}

/// The settings that were given, by their characters.
pub struct UnitFieldsView {
    pub unit: Option<Seq<char>>,
    pub read_only: Option<bool>,
    pub invert_state: Option<bool>,
    pub enabled_by_default: Option<bool>,
    pub entity_category: Option<EntityCategory>,
    pub icon: Option<Seq<char>>,
    pub name: Option<Seq<char>>,
    pub object_id: Option<Seq<char>>,
    pub device_class: Option<Seq<char>>,
}

impl View for UnitFields {
    type V = UnitFieldsView;

    open spec fn view(&self) -> UnitFieldsView {
        UnitFieldsView {
            unit: opt_view(self.unit),
            read_only: self.read_only,
            invert_state: self.invert_state,
            enabled_by_default: self.enabled_by_default,
            entity_category: self.entity_category,
            icon: opt_view(self.icon),
            name: opt_view(self.name),
            object_id: opt_view(self.object_id),
            device_class: opt_view(self.device_class),
        }
    }
}

/// The setting that goes by the name `key`, if any.
pub open spec fn spec_field_named(key: Seq<char>) -> Option<UnitField> {
    if key == "unit"@ {
        Some(UnitField::Unit)
    } else if key == "read-only"@ || key == "readonly"@ {
        Some(UnitField::ReadOnly)
    } else if key == "invert-state"@ || key == "invert"@ {
        Some(UnitField::InvertState)
    } else if key == "enabled-by-default"@ || key == "enabled"@ {
        Some(UnitField::EnabledByDefault)
    } else if key == "entity-category"@ {
        Some(UnitField::EntityCategory)
    } else if key == "icon"@ {
        Some(UnitField::Icon)
    } else if key == "name"@ {
        Some(UnitField::Name)
    } else if key == "object-id"@ || key == "entity_id"@ {
        Some(UnitField::ObjectId)
    } else if key == "device-class"@ {
        Some(UnitField::DeviceClass)
    } else {
        None
    }
}

/// The flag that `value` spells.
pub open spec fn spec_flag(value: Seq<char>) -> Option<bool> {
    if value == "true"@ {
        Some(true)
    } else if value == "false"@ {
        Some(false)
    } else {
        None
    }
}

/// The category that `value` spells.
pub open spec fn spec_category(value: Seq<char>) -> Option<EntityCategory> {
    if value == "config"@ {
        Some(EntityCategory::Config)
    } else if value == "diagnostic"@ {
        Some(EntityCategory::Diagnostic)
    } else {
        None
    }
}

/// No setting given.
pub open spec fn no_fields() -> UnitFieldsView {
    UnitFieldsView {
        unit: None,
        read_only: None,
        invert_state: None,
        enabled_by_default: None,
        entity_category: None,
        icon: None,
        name: None,
        object_id: None,
        device_class: None,
    }
}

/// `fields` with one more pair taken in.  A name that is no setting is
/// passed over; a setting given twice, or a value that does not spell what
/// the setting holds, is refused.
pub open spec fn with_pair(fields: UnitFieldsView, key: Seq<char>, value: Seq<char>) -> Option<
    UnitFieldsView,
> {
    match spec_field_named(key) {
        None => Some(fields),
        Some(UnitField::Unit) => if fields.unit is Some {
            None
        } else {
            Some(UnitFieldsView { unit: Some(value), ..fields })
        },
        Some(UnitField::ReadOnly) => if fields.read_only is Some || spec_flag(value) is None {
            None
        } else {
            Some(UnitFieldsView { read_only: spec_flag(value), ..fields })
        },
        Some(UnitField::InvertState) => if fields.invert_state is Some || spec_flag(value) is None {
            None
        } else {
            Some(UnitFieldsView { invert_state: spec_flag(value), ..fields })
        },
        Some(UnitField::EnabledByDefault) => if fields.enabled_by_default is Some || spec_flag(
            value,
        ) is None {
            None
        } else {
            Some(UnitFieldsView { enabled_by_default: spec_flag(value), ..fields })
        },
        Some(UnitField::EntityCategory) => if fields.entity_category is Some || spec_category(
            value,
        ) is None {
            None
        } else {
            Some(UnitFieldsView { entity_category: spec_category(value), ..fields })
        },
        Some(UnitField::Icon) => if fields.icon is Some {
            None
        } else {
            Some(UnitFieldsView { icon: Some(value), ..fields })
        },
        Some(UnitField::Name) => if fields.name is Some {
            None
        } else {
            Some(UnitFieldsView { name: Some(value), ..fields })
        },
        Some(UnitField::ObjectId) => if fields.object_id is Some {
            None
        } else {
            Some(UnitFieldsView { object_id: Some(value), ..fields })
        },
        Some(UnitField::DeviceClass) => if fields.device_class is Some {
            None
        } else {
            Some(UnitFieldsView { device_class: Some(value), ..fields })
        },
    }
}

/// The settings that `pairs` give, taken in one after another; `None` where
/// one of them is refused.
pub open spec fn applied(pairs: Seq<(Seq<char>, Seq<char>)>) -> Option<UnitFieldsView>
    decreases pairs.len(),
{
    if pairs.len() == 0 {
        Some(no_fields())
    } else {
        match applied(pairs.drop_last()) {
            Some(fields) => with_pair(fields, pairs.last().0, pairs.last().1),
            None => None,
        }
    }
}

/// The settings that a query gives: none without a query.
pub open spec fn spec_query_fields(query: Option<Seq<char>>) -> Option<UnitFieldsView> {
    match query {
        None => Some(no_fields()),
        Some(text) => match form_pairs(text) {
            Some(pairs) => applied(pairs),
            None => None,
        },
    }
}

/// Whether `path` names a unit: it starts with `/unit/`.
pub open spec fn is_unit_path(path: Seq<char>) -> bool {
    path.len() >= UNIT_PREFIX@.len() && path.take(UNIT_PREFIX@.len() as int) == UNIT_PREFIX@
}

/// Whether `config` is the unit at `path` with the settings `fields`:
/// what was not given has its default, and the name is what follows
/// `/unit/` in the path, whatever name was given as a setting.
pub open spec fn is_unit_config(config: UnitConfig, path: Seq<char>, fields: UnitFieldsView) -> bool {
    &&& config.unit@ == path.skip(UNIT_PREFIX@.len() as int)
    &&& config.read_only == match fields.read_only {
        Some(flag) => flag,
        None => false,
    }
    &&& config.invert_state == match fields.invert_state {
        Some(flag) => flag,
        None => false,
    }
    &&& config.enabled_by_default == match fields.enabled_by_default {
        Some(flag) => flag,
        None => true,
    }
    &&& config.entity_category == match fields.entity_category {
        Some(category) => category,
        None => EntityCategory::Config,
    }
    &&& opt_view(config.icon) == fields.icon
    &&& opt_view(config.name) == fields.name
    &&& opt_view(config.object_id) == fields.object_id
    &&& match fields.device_class {
        Some(class) => config.device_class matches DeviceClass::Class(name) && name@ == class,
        None => config.device_class is Unspecified,
    }
}

/// Whether `r` is what reading `text` as the settings of a unit gives.
/// The text is taken as an address relative to `systemd:/unit/`: where it
/// is none, the result is `InvalidUnitUrl`; else, where its query gives no
/// settings, `InvalidUnitArgs`; else, where its path names no unit,
/// `InvalidUnitSpec` with the text; else the unit at that path with those
/// settings.
pub open spec fn is_unit_read(text: Seq<char>, r: Result<UnitConfig, Error>) -> bool {
    match url_path_and_query(BASE_URL@, text) {
        None => r matches Err(e) && e is InvalidUnitUrl,
        Some((path, query)) => match spec_query_fields(query) {
            None => r matches Err(e) && e is InvalidUnitArgs,
            Some(fields) => match r {
                Ok(config) => is_unit_path(path) && is_unit_config(config, path, fields),
                Err(e) => !is_unit_path(path) && is_path_error(e, text),
            },
        },
    }
}

/// Whether `e` says that the path of `text` names no unit.
pub open spec fn is_path_error(e: Error, text: Seq<char>) -> bool {
    e matches Error::InvalidUnitSpec { spec } && spec@ == text
}

/// The setting that goes by the name `key`, if any.
pub fn field_named(key: &str) -> (r: Option<UnitField>)
    ensures
        r == spec_field_named(key@),
{
    if str_eq(key, "unit") {
        Some(UnitField::Unit)
    } else if str_eq(key, "read-only") || str_eq(key, "readonly") {
        Some(UnitField::ReadOnly)
    } else if str_eq(key, "invert-state") || str_eq(key, "invert") {
        Some(UnitField::InvertState)
    } else if str_eq(key, "enabled-by-default") || str_eq(key, "enabled") {
        Some(UnitField::EnabledByDefault)
    } else if str_eq(key, "entity-category") {
        Some(UnitField::EntityCategory)
    } else if str_eq(key, "icon") {
        Some(UnitField::Icon)
    } else if str_eq(key, "name") {
        Some(UnitField::Name)
    } else if str_eq(key, "object-id") || str_eq(key, "entity_id") {
        Some(UnitField::ObjectId)
    } else if str_eq(key, "device-class") {
        Some(UnitField::DeviceClass)
    } else {
        None
    }
}

fn flag_of(value: &str) -> (r: Option<bool>)
    ensures
        r == spec_flag(value@),
{
    if str_eq(value, "true") {
        Some(true)
    } else if str_eq(value, "false") {
        Some(false)
    } else {
        None
    }
}

fn category_of(value: &str) -> (r: Option<EntityCategory>)
    ensures
        r == spec_category(value@),
{
    if str_eq(value, "config") {
        Some(EntityCategory::Config)
    } else if str_eq(value, "diagnostic") {
        Some(EntityCategory::Diagnostic)
    } else {
        None
    }
}

impl UnitFields {
    /// No setting given.
    pub fn new() -> (r: Self)
        ensures
            r@ == no_fields(),
    {
        UnitFields {
            unit: None,
            read_only: None,
            invert_state: None,
            enabled_by_default: None,
            entity_category: None,
            icon: None,
            name: None,
            object_id: None,
            device_class: None,
        }
    }

    /// Takes in one pair.  Says `false`, and leaves the settings as they
    /// are, where the pair is refused.
    pub fn set(&mut self, key: &str, value: &str) -> (r: bool)
        ensures
            match with_pair(old(self)@, key@, value@) {
                Some(fields) => r && final(self)@ == fields,
                None => !r && *final(self) == *old(self),
            },
    {
        match field_named(key) {
            None => true,
            Some(UnitField::Unit) => {
                if self.unit.is_some() {
                    return false;
                }
                self.unit = Some(value.to_owned());
                true
            },
            Some(UnitField::ReadOnly) => {
                let flag = flag_of(value);
                if self.read_only.is_some() || flag.is_none() {
                    return false;
                }
                self.read_only = flag;
                true
            },
            Some(UnitField::InvertState) => {
                let flag = flag_of(value);
                if self.invert_state.is_some() || flag.is_none() {
                    return false;
                }
                self.invert_state = flag;
                true
            },
            Some(UnitField::EnabledByDefault) => {
                let flag = flag_of(value);
                if self.enabled_by_default.is_some() || flag.is_none() {
                    return false;
                }
                self.enabled_by_default = flag;
                true
            },
            Some(UnitField::EntityCategory) => {
                let category = category_of(value);
                if self.entity_category.is_some() || category.is_none() {
                    return false;
                }
                self.entity_category = category;
                true
            },
            Some(UnitField::Icon) => {
                if self.icon.is_some() {
                    return false;
                }
                self.icon = Some(value.to_owned());
                true
            },
            Some(UnitField::Name) => {
                if self.name.is_some() {
                    return false;
                }
                self.name = Some(value.to_owned());
                true
            },
            Some(UnitField::ObjectId) => {
                if self.object_id.is_some() {
                    return false;
                }
                self.object_id = Some(value.to_owned());
                true
            },
            Some(UnitField::DeviceClass) => {
                if self.device_class.is_some() {
                    return false;
                }
                self.device_class = Some(value.to_owned());
                true
            },
        }
    }

    /// The settings that `pairs` give, or `None` where one is refused.
    pub fn from_pairs(pairs: &Vec<(String, String)>) -> (r: Option<UnitFields>)
        ensures
            match r {
                Some(fields) => applied(pairs_view(pairs@)) == Some(fields@),
                None => applied(pairs_view(pairs@)) is None,
            },
    {
        let mut fields = UnitFields::new();
        let ghost all = pairs_view(pairs@);
        let mut i: usize = 0;
        assert(all.take(0) =~= Seq::empty());
        while i < pairs.len()
            invariant
                i <= pairs@.len(),
                all == pairs_view(pairs@),
                applied(all.take(i as int)) == Some(fields@),
            decreases pairs@.len() - i,
        {
            proof {
                assert(all.take(i + 1).drop_last() == all.take(i as int));
                assert(all.take(i + 1).last() == (pairs@[i as int].0@, pairs@[i as int].1@));
            }
            if !fields.set(pairs[i].0.as_str(), pairs[i].1.as_str()) {
                proof {
                    lemma_applied_fails(all, i + 1);
                }
                return None;
            }
            i = i + 1;
        }
        assert(all.take(i as int) == all);
        Some(fields)
    }
}

/// Once a pair is refused, so is every longer list.
pub proof fn lemma_applied_fails(pairs: Seq<(Seq<char>, Seq<char>)>, n: int)
    requires
        0 <= n <= pairs.len(),
        applied(pairs.take(n)) is None,
    ensures
        applied(pairs) is None,
    decreases pairs.len() - n,
{
    if n < pairs.len() {
        assert(pairs.take(n + 1).drop_last() == pairs.take(n));
        lemma_applied_fails(pairs, n + 1);
    } else {
        assert(pairs.take(n) == pairs);
    }
}

impl UnitConfig {
    /// What `text` says of a unit, given the path and the settings that
    /// were read from it: `InvalidUnitSpec` where the path names no unit.
    pub fn from_parts(text: &str, path: &str, fields: UnitFields) -> (r: Result<UnitConfig, Error>)
        ensures
            match r {
                Ok(config) => is_unit_path(path@) && is_unit_config(config, path@, fields@),
                Err(e) => !is_unit_path(path@) && is_path_error(e, text@),
            },
    {
        let chars = chars_of(path);
        let prefix = chars_of(UNIT_PREFIX);
        proof {
            reveal_strlit("/unit/");
        }
        let mut matches = chars.len() >= prefix.len();
        let mut i: usize = 0;
        while matches && i < prefix.len()
            invariant
                chars@ == path@,
                prefix@ == UNIT_PREFIX@,
                prefix@.len() == 6,
                i <= prefix@.len(),
                matches ==> chars@.len() >= prefix@.len() && chars@.take(i as int) == prefix@.take(
                    i as int,
                ),
                !matches ==> !is_unit_path(path@),
            decreases prefix@.len() - i, matches as int,
        {
            if chars[i] != prefix[i] {
                matches = false;
                assert(path@.take(6)[i as int] != UNIT_PREFIX@[i as int]);
            } else {
                assert(chars@.take(i + 1) == chars@.take(i as int).push(chars@[i as int]));
                assert(prefix@.take(i + 1) == prefix@.take(i as int).push(prefix@[i as int]));
                i = i + 1;
            }
        }
        if !matches {
            return Err(Error::InvalidUnitSpec { spec: text.to_owned() });
        }
        assert(prefix@.take(6) == prefix@);
        let unit = path.substring_char(prefix.len(), chars.len()).to_owned();
        assert(unit@ == path@.skip(6));
        Ok(
            UnitConfig {
                unit,
                read_only: match fields.read_only {
                    Some(flag) => flag,
                    None => false,
                },
                invert_state: match fields.invert_state {
                    Some(flag) => flag,
                    None => false,
                },
                enabled_by_default: match fields.enabled_by_default {
                    Some(flag) => flag,
                    None => true,
                },
                entity_category: match fields.entity_category {
                    Some(category) => category,
                    None => EntityCategory::Config,
                },
                icon: fields.icon,
                name: fields.name,
                object_id: fields.object_id,
                device_class: match fields.device_class {
                    Some(class) => DeviceClass::Class(class),
                    None => DeviceClass::Unspecified,
                },
            },
        )
    }

    /// Reads the settings of a unit from `text`, taken as an address
    /// relative to `systemd:/unit/`.  `InvalidUnitUrl` where it is no
    /// address, `InvalidUnitArgs` where its query gives no settings,
    /// `InvalidUnitSpec` where its path names no unit.
    pub fn from_str(text: &str) -> (r: Result<UnitConfig, Error>)
        ensures
            is_unit_read(text@, r),
    {
        let (path, query) = match parse_reference(BASE_URL, text) {
            Some(parts) => parts,
            None => {
                return Err(Error::InvalidUnitUrl);
            },
        };
        let fields = match &query {
            None => UnitFields::new(),
            Some(query) => {
                let pairs = match parse_query(query.as_str()) {
                    Some(pairs) => pairs,
                    None => {
                        return Err(Error::InvalidUnitArgs);
                    },
                };
                match UnitFields::from_pairs(&pairs) {
                    Some(fields) => fields,
                    None => {
                        return Err(Error::InvalidUnitArgs);
                    },
                }
            },
        };
        UnitConfig::from_parts(text, path.as_str(), fields)
    }
}

impl std::str::FromStr for UnitConfig {
    type Err = Error;

    /// Reads the settings of a unit from `text`, as `UnitConfig::from_str`
    /// does.
    fn from_str(text: &str) -> (r: Result<Self, Error>)
        ensures
            is_unit_read(text@, r),
    {
        UnitConfig::from_str(text)
    }
}

impl BrokerUrl {
    /// Reads a broker's address; `None` where `text` is no address.
    pub fn parse(text: &str) -> (r: Option<BrokerUrl>)
        ensures
            match r {
                Some(url) => url_parts(text@) == Some(broker_url_view(url)),
                None => url_parts(text@) is None,
            },
    {
        parse_broker_url(text)
    }
}

} // verus!
