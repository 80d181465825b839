//! The loop that merges everything the bridge waits for, as a state machine:
//! each event goes in, the next thing to do comes out.

use crate::bridge::{tracks, Core};
use crate::payload::Error;
use crate::router::{asks_shutdown, is_reaction, Reaction};
use vstd::prelude::*;

verus! {

/// Where the loop stands.
#[derive(Debug, Clone, Copy, PartialEq, Eq, Structural)]
pub enum LoopState {
    AwaitingInitialSetup,
    Running,
    ShuttingDown,
    Terminated,
}

/// One of the two streams that the loop cannot do without.
#[derive(Debug, Clone, Copy, PartialEq, Eq, Structural)]
pub enum Source {
    ServiceManager,
    Broker,
}

/// Something that the loop was waiting for.
#[derive(Debug)]
pub enum Event {
    /// The initial setup ran to its end.
    InitialSetup { failed: bool },
    /// The service manager created or removed a job of a unit.
    Job { unit_name: String },
    /// The active state of a unit changed.
    ActiveStateChanged { unit_name: String },
    /// The broker delivered a message.
    Message { topic: String, payload: Vec<u8> },
    /// The user interrupted the bridge.
    Cancelled,
    /// A stream yields no more items.
    StreamEnded(Source),
    /// The cleanup that the loop asked for is done.
    CleanupDone,
}

/// What to do next.
#[derive(Debug)]
pub enum Action {
    Nothing,
    /// Report that the initial setup failed, and go on.
    SetupFailed,
    /// Fetch the status of the unit and publish it.
    PublishStatus { unit_name: String },
    /// Act on a message as the router decided.
    React(Reaction),
    /// Publish the cleanup, release the session, then report that it is done.
    Cleanup,
    /// Leave, with a failure where a stream was lost.
    Exit { failure: Option<Error> },
}

/// The loop's state between two events.
#[derive(Debug)]
pub struct DispatchLoop {
    pub state: LoopState,
    /// The stream whose end made the loop shut down, if that was the reason.
    pub lost: Option<Source>,
}

/// Whether the loop still takes events.
pub open spec fn is_live(state: LoopState) -> bool {
    state is AwaitingInitialSetup || state is Running
}

/// Whether `failure` is how the loop ends after losing `lost`.
pub open spec fn is_failure(failure: Option<Error>, lost: Option<Source>) -> bool {
    match lost {
        Some(Source::ServiceManager) => failure matches Some(e) && e is ConnectionLostSystemd,
        Some(Source::Broker) => failure matches Some(e) && e is ConnectionLostMqtt,
        None => failure is None,
    }
}

/// Whether `action` asks to publish the status of the unit `name` if the
/// bridge watches it, and nothing otherwise.
pub open spec fn is_status_request(action: Action, core: Core, name: Seq<char>) -> bool {
    if tracks(core.units@, name) {
        action matches Action::PublishStatus { unit_name } && unit_name@ == name
    } else {
        action is Nothing
    }
}

/// Whether the loop may go from `before` to `after` on `event`, doing
/// `action`.
///
/// A live loop: the end of the initial setup makes it run; a job or a
/// changed state asks for a status; a message is routed, and shuts the loop
/// down where it tells the bridge to stop; an interrupt or a lost stream
/// shuts it down.  Shutting down asks for the cleanup, once.  A loop that
/// shuts down waits for the cleanup only, then exits.  A terminated loop
/// does nothing.
pub open spec fn is_step(
    before: DispatchLoop,
    core: Core,
    event: Event,
    after: DispatchLoop,
    action: Action,
) -> bool {
    match before.state {
        LoopState::Terminated => after == before && action is Nothing,
        LoopState::ShuttingDown => match event {
            Event::CleanupDone => {
                &&& after.state is Terminated
                &&& after.lost == before.lost
                &&& action matches Action::Exit { failure } && is_failure(failure, before.lost)
            },
            _ => after == before && action is Nothing,
        },
        _ => match event {
            Event::InitialSetup { failed } => {
                &&& after.state is Running
                &&& after.lost == before.lost
                &&& if failed {
                    action is SetupFailed
                } else {
                    action is Nothing
                }
            },
            Event::Job { unit_name } => after == before && is_status_request(
                action,
                core,
                unit_name@,
            ),
            Event::ActiveStateChanged { unit_name } => after == before && is_status_request(
                action,
                core,
                unit_name@,
            ),
            Event::Message { topic, payload } => if asks_shutdown(core, topic@, payload@) {
                after.state is ShuttingDown && after.lost == before.lost && action is Cleanup
            } else {
                &&& after == before
                &&& action matches Action::React(reaction) && is_reaction(
                    reaction,
                    core,
                    topic@,
                    payload@,
                )
            },
            Event::Cancelled => after.state is ShuttingDown && after.lost == before.lost
                && action is Cleanup,
            Event::StreamEnded(source) => after.state is ShuttingDown && after.lost == Some(source)
                && action is Cleanup,
            Event::CleanupDone => after == before && action is Nothing,
        },
    }
}

impl DispatchLoop {
    /// A loop that waits for the initial setup.
    pub fn new() -> (r: Self)
        ensures
            r.state is AwaitingInitialSetup,
            r.lost is None,
    {
        DispatchLoop { state: LoopState::AwaitingInitialSetup, lost: None }
    }

    /// Where the loop stands.
    pub fn state(&self) -> (r: LoopState)
        ensures
            r == self.state,
    {
        self.state
    }

    fn status_request(core: &Core, unit_name: &str) -> (r: Action)
        ensures
            is_status_request(r, *core, unit_name@),
    {
        match core.unit_position(unit_name) {
            Some(_) => Action::PublishStatus { unit_name: unit_name.to_owned() },
            None => Action::Nothing,
        }
    }

    /// Takes one event and says what to do next.
    pub fn step(&mut self, core: &Core, event: &Event) -> (action: Action)
        ensures
            is_step(*old(self), *core, *event, *final(self), action),
    {
        match self.state {
            LoopState::Terminated => Action::Nothing,
            LoopState::ShuttingDown => match event {
                Event::CleanupDone => {
                    self.state = LoopState::Terminated;
                    Action::Exit {
                        failure: match self.lost {
                            Some(Source::ServiceManager) => Some(Error::ConnectionLostSystemd),
                            Some(Source::Broker) => Some(Error::ConnectionLostMqtt),
                            None => None,
                        },
                    }
                },
                _ => Action::Nothing,
            },
            _ => match event {
                Event::InitialSetup { failed } => {
                    self.state = LoopState::Running;
                    if *failed {
                        Action::SetupFailed
                    } else {
                        Action::Nothing
                    }
                },
                Event::Job { unit_name } => Self::status_request(core, unit_name.as_str()),
                Event::ActiveStateChanged { unit_name } => Self::status_request(
                    core,
                    unit_name.as_str(),
                ),
                Event::Message { topic, payload } => {
                    let reaction = core.handle_message(topic.as_str(), payload.as_slice());
                    if reaction.keeps_running() {
                        Action::React(reaction)
                    } else {
                        self.state = LoopState::ShuttingDown;
                        Action::Cleanup
                    }
                },
                Event::Cancelled => {
                    self.state = LoopState::ShuttingDown;
                    Action::Cleanup
                },
                Event::StreamEnded(source) => {
                    self.state = LoopState::ShuttingDown;
                    self.lost = Some(*source);
                    Action::Cleanup
                },
                Event::CleanupDone => Action::Nothing,
            },
        }
    }
}

/// Once the loop shuts down it never asks for the cleanup again, and never
/// goes back to taking events: whatever comes, it stays as it is or
/// terminates.
pub proof fn lemma_shutdown_is_final(
    before: DispatchLoop,
    core: Core,
    event: Event,
    after: DispatchLoop,
    action: Action,
)
    requires
        !is_live(before.state),
        is_step(before, core, event, after, action),
    ensures
        !is_live(after.state),
        !(action is Cleanup),
{
}

/// A live loop asks for the cleanup exactly when it shuts down, and it shuts
/// down exactly on an interrupt, a lost stream, or a message that tells the
/// bridge to stop.
pub proof fn lemma_shutdown_causes(
    before: DispatchLoop,
    core: Core,
    event: Event,
    after: DispatchLoop,
    action: Action,
)
    requires
        is_live(before.state),
        is_step(before, core, event, after, action),
    ensures
        action is Cleanup <==> after.state is ShuttingDown,
        after.state is ShuttingDown <==> (event is Cancelled || event is StreamEnded || (
        event matches Event::Message { topic, payload } && asks_shutdown(core, topic@, payload@))),
        !(after.state is Terminated),
{
}

} // verus!
