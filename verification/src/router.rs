//! What the bridge does with a message from the broker.

use crate::bridge::{tracks, Core};
use crate::payload::{
    spec_service_command, spec_unit_command, ServiceCommand, UnitCommand,
};
use crate::text::{split, split_seq, str_eq};
use vstd::prelude::*;
use vstd::string::*;

verus! {

broadcast use vstd::string::group_string_axioms;

/// The first segment of every topic of the bridge's own.
pub const TOPIC_ROOT: &'static str = "root";

/// A request to the service manager.
#[derive(Debug)]
pub struct ManagerCall {
    pub command: UnitCommand,
    pub unit: String,
    /// What the manager does where the job conflicts with another.
    pub mode: String,
}

/// What a message leads to.
#[derive(Debug)]
pub enum Reaction {
    /// The message is for another host: nothing to do.
    Foreign,
    /// A command for a watched unit: the call to make.
    Call(ManagerCall),
    /// A command for a watched unit that is none of the known ones.
    UnsupportedUnitCommand { unit: String },
    /// A command for a unit that the bridge does not watch.
    Untracked { unit: String },
    /// The bridge is told to be active, which it is.
    Reasserted,
    /// The bridge is told to stop.
    Shutdown,
    /// A command for the bridge that is none of the known ones.
    UnsupportedServiceCommand,
    /// The topic has none of the known shapes.
    Unrecognized,
}

/// The shapes of a topic that the bridge tells apart.
pub enum Route {
    Foreign,
    Activate { unit: Seq<char> },
    Control,
    Unrecognized,
}

/// The shape of `topic`, read by its segments between slashes: first, below
/// `root`, a host other than `hostname`; then `*/*/<unit>/activate`; then
/// `*/*/control`.
pub open spec fn spec_route(hostname: Seq<char>, topic: Seq<char>) -> Route {
    let segments = split_seq(topic, '/');
    if segments.len() >= 2 && segments[0] == "root"@ && segments[1] != hostname {
        Route::Foreign
    } else if segments.len() == 4 && segments[3] == "activate"@ {
        Route::Activate { unit: segments[2] }
    } else if segments.len() == 3 && segments[2] == "control"@ {
        Route::Control
    } else {
        Route::Unrecognized
    }
}

/// Whether `call` asks the manager to apply `command` to `unit`, failing
/// where the job conflicts with another.
pub open spec fn is_call(call: ManagerCall, unit: Seq<char>, command: UnitCommand) -> bool {
    &&& call.command == command
    &&& call.unit@ == unit
    &&& call.mode@ == "fail"@
}

/// Whether `reaction` is what a command for `unit` with `payload` leads to.
pub open spec fn is_activation(
    reaction: Reaction,
    watched: bool,
    unit: Seq<char>,
    payload: Seq<u8>,
) -> bool {
    if !watched {
        reaction matches Reaction::Untracked { unit: named } && named@ == unit
    } else {
        match spec_unit_command(payload) {
            Some(command) => reaction matches Reaction::Call(call) && is_call(call, unit, command),
            None => reaction matches Reaction::UnsupportedUnitCommand { unit: named } && named@
                == unit,
        }
    }
}

/// Whether `reaction` is what a command for the bridge with `payload` leads
/// to.
pub open spec fn is_control(reaction: Reaction, payload: Seq<u8>) -> bool {
    match spec_service_command(payload) {
        Some(ServiceCommand::SetActive { active }) => if active {
            reaction is Reasserted
        } else {
            reaction is Shutdown
        },
        None => reaction is UnsupportedServiceCommand,
    }
}

/// Whether `reaction` is what the message on `topic` with `payload` leads
/// to in the bridge `core`.
pub open spec fn is_reaction(
    reaction: Reaction,
    core: Core,
    topic: Seq<char>,
    payload: Seq<u8>,
) -> bool {
    match spec_route(core.spec_hostname(), topic) {
        Route::Foreign => reaction is Foreign,
        Route::Activate { unit } => is_activation(
            reaction,
            tracks(core.units@, unit),
            unit,
            payload,
        ),
        Route::Control => is_control(reaction, payload),
        Route::Unrecognized => reaction is Unrecognized,
    }
}

/// Whether the message on `topic` with `payload` tells the bridge to stop.
pub open spec fn asks_shutdown(core: Core, topic: Seq<char>, payload: Seq<u8>) -> bool {
    spec_route(core.spec_hostname(), topic) is Control && spec_service_command(
        payload,
    ) == Some(ServiceCommand::SetActive { active: false })
}

impl Reaction {
    /// Whether the bridge goes on after this reaction: it does unless it was
    /// told to stop.
    pub fn keeps_running(&self) -> (r: bool)
        ensures
            r == !(*self is Shutdown),
    {
        match self {
            Reaction::Shutdown => false,
            _ => true,
        }
    }
}

impl Core {
    /// The call that a command payload for `unit` asks for, or `None` where
    /// the payload is none of the known commands.
    pub fn handle_activate(&self, unit: &str, payload: &[u8]) -> (r: Option<ManagerCall>)
        ensures
            match r {
                Some(call) => spec_unit_command(payload@) is Some && is_call(
                    call,
                    unit@,
                    spec_unit_command(payload@).unwrap(),
                ),
                None => spec_unit_command(payload@) is None,
            },
    {
        match UnitCommand::decode(payload) {
            Some(command) => Some(
                ManagerCall { command, unit: unit.to_owned(), mode: "fail".to_owned() },
            ),
            None => None,
        }
    }

    /// What the message on `topic` with `payload` leads to.
    pub fn handle_message(&self, topic: &str, payload: &[u8]) -> (r: Reaction)
        ensures
            is_reaction(r, *self, topic@, payload@),
            r is Shutdown <==> asks_shutdown(*self, topic@, payload@),
    {
        let segments = split(topic, '/');
        let n = segments.len();
        if n >= 2 && str_eq(segments[0].as_str(), TOPIC_ROOT) && !str_eq(
            segments[1].as_str(),
            self.hostname(),
        ) {
            Reaction::Foreign
        } else if n == 4 && str_eq(segments[3].as_str(), "activate") {
            let unit = segments[2].as_str();
            match self.unit_position(unit) {
                Some(_) => match self.handle_activate(unit, payload) {
                    Some(call) => Reaction::Call(call),
                    None => Reaction::UnsupportedUnitCommand { unit: unit.to_owned() },
                },
                None => Reaction::Untracked { unit: unit.to_owned() },
            }
        } else if n == 3 && str_eq(segments[2].as_str(), "control") {
            match ServiceCommand::decode(payload) {
                Some(ServiceCommand::SetActive { active }) => if active {
                    Reaction::Reasserted
                } else {
                    Reaction::Shutdown
                },
                None => Reaction::UnsupportedServiceCommand,
            }
        } else {
            Reaction::Unrecognized
        }
    }
}

} // verus!
