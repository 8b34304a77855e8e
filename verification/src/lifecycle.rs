//! The life of the controller process as a state machine: register the
//! schema of the primary resource type, wait until the platform has
//! established it, watch, stop. The machine decides; its caller does the
//! work that each command names and reports back what happened.

use vstd::prelude::*;
use crate::kind::{dependent_kind, dependent_kind_spec, ResourceKind, ResourceKindView, Scope};
use crate::reconciler::{apply_params, apply_params_spec, ApplyParams, ApplyParamsView};

verus! {

/// Name under which the platform keeps the definition of the primary
/// resource type.
pub const DEFINITION_NAME: &'static str = "clusters.citus.dev";

/// Seconds to wait for the platform to establish the primary resource type.
pub const ESTABLISHMENT_TIMEOUT_SECS: u64 = 10;

/// Why the process could not start.
#[derive(Clone, Copy, Debug, PartialEq, Eq, Structural)]
pub enum StartupFailure {
    /// The platform did not accept the type definition.
    RegistrationFailed,
    /// The type was not seen established within the time allowed.
    EstablishmentTimedOut,
}

/// Where the process stands.
#[derive(Clone, Copy, Debug, PartialEq, Eq, Structural)]
pub enum Phase {
    /// The type definition is being published.
    Registering,
    /// The definition is published; the platform has not yet established it.
    AwaitingEstablishment,
    /// The type is established and both resource types are being watched.
    Watching,
    /// The watches have ended.
    Stopped,
    /// Startup failed. This phase is never left.
    Failed(StartupFailure),
}

/// What the caller reports to the machine.
#[derive(Clone, Copy, Debug, PartialEq, Eq, Structural)]
pub enum Event {
    /// The platform accepted the type definition.
    Registered,
    /// The platform call that publishes the type definition failed.
    RegistrationFailed,
    /// The platform reported the type as established.
    Established,
    /// The type was not seen established within the time allowed: the wait
    /// ran out of time or ended without it.
    EstablishmentTimedOut,
    /// A reconciliation finished, successfully or not.
    Reconciled { succeeded: bool },
    /// The watches ended, after a termination signal or on their own.
    WatchEnded,
}

/// What the machine orders its caller to do.
#[derive(Debug, PartialEq)]
pub enum Command {
    /// Publish the type definition under `name`, as an apply with `params`.
    RegisterSchema { name: String, params: ApplyParams },
    /// Wait until the platform reports the definition `name` as established,
    /// for at most `timeout_secs` seconds.
    AwaitEstablishment { name: String, timeout_secs: u64 },
    /// Watch the primary resource type in `primary_scope` and the type
    /// `dependent` in `dependent_scope`, and reconcile on their events.
    StartWatching { primary_scope: Scope, dependent: ResourceKind, dependent_scope: Scope },
    /// Nothing new: carry on.
    Idle,
    /// Leave with success.
    Exit,
    /// Leave with `failure`.
    Abort { failure: StartupFailure },
}

/// What a `Command` holds.
pub enum CommandView {
    RegisterSchema { name: Seq<char>, params: ApplyParamsView },
    AwaitEstablishment { name: Seq<char>, timeout_secs: u64 },
    StartWatching { primary_scope: Scope, dependent: ResourceKindView, dependent_scope: Scope },
    Idle,
    Exit,
    Abort { failure: StartupFailure },
}

impl View for Command {
    type V = CommandView;

    open spec fn view(&self) -> CommandView {
        match *self {
            Command::RegisterSchema { name, params } => CommandView::RegisterSchema {
                name: name@,
                params: params@,
            },
            Command::AwaitEstablishment { name, timeout_secs } => CommandView::AwaitEstablishment {
                name: name@,
                timeout_secs,
            },
            Command::StartWatching {
                primary_scope,
                dependent,
                dependent_scope,
            } => CommandView::StartWatching {
                primary_scope,
                dependent: dependent@,
                dependent_scope,
            },
            Command::Idle => CommandView::Idle,
            Command::Exit => CommandView::Exit,
            Command::Abort { failure } => CommandView::Abort { failure },
        }
    }
}

/// The phase in which the process starts and the first command: publish the
/// type definition, with forced ownership.
pub open spec fn begin_spec() -> (Phase, CommandView) {
    (
        Phase::Registering,
        CommandView::RegisterSchema { name: DEFINITION_NAME@, params: apply_params_spec() },
    )
}

/// The phase that follows `phase` on `event`, and the command that goes with
/// the change. An event that the phase does not wait for changes nothing.
pub open spec fn step_spec(phase: Phase, event: Event) -> (Phase, CommandView) {
    match (phase, event) {
        (Phase::Registering, Event::Registered) => (
            Phase::AwaitingEstablishment,
            CommandView::AwaitEstablishment {
                name: DEFINITION_NAME@,
                timeout_secs: ESTABLISHMENT_TIMEOUT_SECS,
            },
        ),
        (Phase::Registering, Event::RegistrationFailed) => (
            Phase::Failed(StartupFailure::RegistrationFailed),
            CommandView::Abort { failure: StartupFailure::RegistrationFailed },
        ),
        (Phase::AwaitingEstablishment, Event::Established) => (
            Phase::Watching,
            CommandView::StartWatching {
                primary_scope: Scope::AllNamespaces,
                dependent: dependent_kind_spec(),
                dependent_scope: Scope::DefaultNamespace,
            },
        ),
        (Phase::AwaitingEstablishment, Event::EstablishmentTimedOut) => (
            Phase::Failed(StartupFailure::EstablishmentTimedOut),
            CommandView::Abort { failure: StartupFailure::EstablishmentTimedOut },
        ),
        (Phase::Watching, Event::WatchEnded) => (Phase::Stopped, CommandView::Exit),
        _ => (phase, CommandView::Idle),
    }
}

/// Starts the machine.
pub fn begin() -> (start: (Phase, Command))
    ensures
        (start.0, start.1@) == begin_spec(),
{
    (
        Phase::Registering,
        Command::RegisterSchema { name: DEFINITION_NAME.to_owned(), params: apply_params() },
    )
}

/// Advances the machine by one reported event.
pub fn step(phase: Phase, event: Event) -> (next: (Phase, Command))
    ensures
        (next.0, next.1@) == step_spec(phase, event),
{
    match (phase, event) {
        (Phase::Registering, Event::Registered) => (
            Phase::AwaitingEstablishment,
            Command::AwaitEstablishment {
                name: DEFINITION_NAME.to_owned(),
                timeout_secs: ESTABLISHMENT_TIMEOUT_SECS,
            },
        ),
        (Phase::Registering, Event::RegistrationFailed) => (
            Phase::Failed(StartupFailure::RegistrationFailed),
            Command::Abort { failure: StartupFailure::RegistrationFailed },
        ),
        (Phase::AwaitingEstablishment, Event::Established) => (
            Phase::Watching,
            Command::StartWatching {
                primary_scope: Scope::AllNamespaces,
                dependent: dependent_kind(),
                dependent_scope: Scope::DefaultNamespace,
            },
        ),
        (Phase::AwaitingEstablishment, Event::EstablishmentTimedOut) => (
            Phase::Failed(StartupFailure::EstablishmentTimedOut),
            Command::Abort { failure: StartupFailure::EstablishmentTimedOut },
        ),
        (Phase::Watching, Event::WatchEnded) => (Phase::Stopped, Command::Exit),
        _ => (phase, Command::Idle),
    }
}

/// The phase the machine is in after it was started and given `events` in
/// order.
pub open spec fn phase_after(events: Seq<Event>) -> Phase
    decreases events.len(),
{
    if events.len() == 0 {
        begin_spec().0
    } else {
        step_spec(phase_after(events.drop_last()), events.last()).0
    }
}

/// The command with which the machine answers the event at position `i` of
/// `events`.
pub open spec fn command_at(events: Seq<Event>, i: int) -> CommandView
    recommends
        0 <= i < events.len(),
{
    step_spec(phase_after(events.take(i)), events[i]).1
}

/// How far a phase is along the life of the process.
pub open spec fn progress(phase: Phase) -> int {
    match phase {
        Phase::Registering => 0,
        Phase::AwaitingEstablishment => 1,
        Phase::Watching => 2,
        Phase::Stopped => 3,
        Phase::Failed(_) => 3,
    }
}

/// The machine never goes back: after a prefix of the events it is no
/// further than after all of them.
pub proof fn lemma_progress_never_decreases(events: Seq<Event>, j: int)
    requires
        0 <= j <= events.len(),
    ensures
        progress(phase_after(events.take(j))) <= progress(phase_after(events)),
    decreases events.len(),
{
    if j == events.len() {
        assert(events.take(j) =~= events);
    } else {
        lemma_progress_never_decreases(events.drop_last(), j);
        assert(events.drop_last().take(j) =~= events.take(j));
    }
}

/// The watches are gated by establishment. Whenever the machine orders the
/// watches to start, it does so in answer to the report that the type is
/// established, given while it was waiting for that report. Up to then it
/// was only registering or waiting, so it had not ordered the watches
/// before, had not been watching, and had not failed.
pub proof fn law_establishment_gates_watching(events: Seq<Event>, i: int)
    requires
        0 <= i < events.len(),
        command_at(events, i) is StartWatching,
    ensures
        events[i] == Event::Established,
        phase_after(events.take(i)) == Phase::AwaitingEstablishment,
        phase_after(events.take(i + 1)) == Phase::Watching,
        forall|j: int|
            0 <= j <= i ==> {
                let before = #[trigger] phase_after(events.take(j));
                before == Phase::Registering || before == Phase::AwaitingEstablishment
            },
        forall|j: int| 0 <= j < i ==> !(#[trigger] command_at(events, j) is StartWatching),
{
    let waiting = events.take(i);
    assert(events.take(i + 1).drop_last() =~= waiting);
    assert(events.take(i + 1).last() == events[i]);
    assert forall|j: int| 0 <= j <= i implies {
        let before = #[trigger] phase_after(events.take(j));
        before == Phase::Registering || before == Phase::AwaitingEstablishment
    } by {
        lemma_progress_never_decreases(waiting, j);
        assert(waiting.take(j) =~= events.take(j));
    }
    assert forall|j: int| 0 <= j < i implies !(#[trigger] command_at(events, j) is StartWatching) by {
        if command_at(events, j) is StartWatching {
            assert(events.take(j + 1).drop_last() =~= events.take(j));
            assert(events.take(j + 1).last() == events[j]);
            assert(phase_after(events.take(j + 1)) == Phase::Watching);
        }
    }
}

/// A failed startup is final: whatever is reported afterwards, the machine
/// stays in the failure it entered and orders nothing more; in particular it
/// never orders the watches to start.
pub proof fn law_startup_failure_is_final(events: Seq<Event>, later: Seq<Event>)
    requires
        phase_after(events) is Failed,
    ensures
        phase_after(events + later) == phase_after(events),
        forall|i: int|
            events.len() <= i < events.len() + later.len() ==> #[trigger] command_at(
                events + later,
                i,
            ) == CommandView::Idle,
    decreases later.len(),
{
    let all = events + later;
    if later.len() == 0 {
        assert(all =~= events);
    } else {
        let earlier = later.drop_last();
        law_startup_failure_is_final(events, earlier);
        assert(all.drop_last() =~= events + earlier);
        assert(all.last() == later.last());
        assert forall|i: int| events.len() <= i < events.len() + later.len() implies #[trigger] command_at(
            all,
            i,
        ) == CommandView::Idle by {
            if i < events.len() + earlier.len() {
                assert(all.take(i) =~= (events + earlier).take(i));
                assert(all[i] == (events + earlier)[i]);
                assert(command_at(events + earlier, i) == CommandView::Idle);
            } else {
                assert(all.take(i) =~= events + earlier);
            }
        }
    }
}

} // verus!
