//! Remaps the twelve side buttons of a Razer Naga 2014 mouse to keyboard keys.
//!
//! The crate holds the decisions of the remapper: the key mapping table, the
//! translation of raw input events into keyboard emissions, the selection of
//! the source device among the input nodes, and the polling and supervisory
//! loops, each written as a function from the last observation to the next
//! action. Performing the actions against the operating system is left to the
//! caller, who reports back what came of each.

pub mod event_mapper;
pub mod key_map;
pub mod naga;
pub mod text;

use vstd::prelude::*;
use crate::event_mapper::TranslateError;
use crate::naga::LocateError;

verus! {

/// Milliseconds to rest between two attach cycles.
pub const COOL_DOWN_MILLIS: u64 = 1000;

/// Why a run ended in failure.
#[derive(Clone, Copy, Debug, PartialEq, Eq, Structural)]
pub enum RunError {
    /// The virtual keyboard could not be created.
    Output,
    /// No source device was acquired.
    Locate(LocateError),
    /// The polling loop gave up.
    Translate(TranslateError),
}

/// Where a run stands.
#[derive(Clone, Copy, Debug, PartialEq, Eq, Structural)]
pub enum RunState {
    /// No source device is attached.
    Searching,
    /// A source device is attached and being polled.
    Attached,
    /// The run is over.
    Stopped,
}

/// What the last step of a run observed.
#[derive(Clone, Copy, Debug, PartialEq, Eq)]
pub enum RunEvent {
    /// Nothing yet: the run begins.
    Started,
    /// The virtual keyboard was created.
    OutputCreated,
    /// The virtual keyboard could not be created.
    OutputFailed,
    /// The search acquired a source device.
    Located,
    /// The search ended without a source device.
    LocateFailed(LocateError),
    /// The polling loop returned, and the source device was released.
    Detached(Result<(), TranslateError>),
    /// The cool-down is over.
    Rested,
}

/// What a run does next.
#[derive(Clone, Copy, Debug, PartialEq, Eq)]
pub enum RunAction {
    /// Create the virtual keyboard.
    CreateOutput,
    /// Search for the source device.
    Locate,
    /// Poll the attached source device until the polling loop returns.
    Translate,
    /// Sleep for this many milliseconds.
    CoolDown { millis: u64 },
    /// End the run with this result.
    Exit(Result<(), RunError>),
}

/// The state that a run is in while it carries out an action: attached
/// while it polls, stopped once it ends, searching otherwise.
pub open spec fn state_during(action: RunAction) -> RunState {
    match action {
        RunAction::Translate => RunState::Attached,
        RunAction::Exit(_) => RunState::Stopped,
        _ => RunState::Searching,
    }
}

impl RunAction {
    /// The state that a run is in while it carries out the action.
    pub fn state(&self) -> (state: RunState)
        ensures
            state == state_during(*self),
    {
        match self {
            RunAction::Translate => RunState::Attached,
            RunAction::Exit(_) => RunState::Stopped,
            _ => RunState::Searching,
        }
    }
}

/// The step of the supervisory loop that tests the running flag before a
/// search: search while running, stop successfully otherwise.
pub open spec fn search_or_stop(running: bool) -> RunAction {
    if running {
        RunAction::Locate
    } else {
        RunAction::Exit(Ok(()))
    }
}

/// The step of the supervisory loop that tests the running flag after an
/// attach cycle: rest while running, stop successfully and without delay
/// otherwise.
pub open spec fn rest_or_stop(running: bool) -> RunAction {
    if running {
        RunAction::CoolDown { millis: COOL_DOWN_MILLIS }
    } else {
        RunAction::Exit(Ok(()))
    }
}

/// The step of the supervisory loop that follows an observation.
///
/// The virtual keyboard is created once, at the start; without it the run
/// fails. From then on the loop searches, attaches on success, and after a
/// failed search or a returned polling loop, whatever its result, rests and
/// searches again, until the running flag is found cleared.
pub open spec fn next_loop_action(event: RunEvent, running: bool) -> RunAction {
    match event {
        RunEvent::Started => RunAction::CreateOutput,
        RunEvent::OutputCreated => search_or_stop(running),
        RunEvent::OutputFailed => RunAction::Exit(Err(RunError::Output)),
        RunEvent::Located => RunAction::Translate,
        RunEvent::LocateFailed(_) => rest_or_stop(running),
        RunEvent::Detached(_) => rest_or_stop(running),
        RunEvent::Rested => search_or_stop(running),
    }
}

/// The step of a single attach cycle that follows an observation.
///
/// The cycle creates the virtual keyboard, searches once, polls the source
/// device it found, and ends with the result of the polling loop or with the
/// first failure. It searches as soon as nothing stands in the way: once the
/// virtual keyboard exists, or after a rest that an earlier cycle left it.
pub open spec fn next_cycle_action(event: RunEvent) -> RunAction {
    match event {
        RunEvent::Started => RunAction::CreateOutput,
        RunEvent::OutputCreated => RunAction::Locate,
        RunEvent::OutputFailed => RunAction::Exit(Err(RunError::Output)),
        RunEvent::Located => RunAction::Translate,
        RunEvent::LocateFailed(error) => RunAction::Exit(Err(RunError::Locate(error))),
        RunEvent::Detached(Ok(())) => RunAction::Exit(Ok(())),
        RunEvent::Detached(Err(error)) => RunAction::Exit(Err(RunError::Translate(error))),
        RunEvent::Rested => RunAction::Locate,
    }
}

/// Whether `event` can be what a run observes on carrying out `action`.
/// Nothing is observed after the run has ended.
pub open spec fn answers(action: RunAction, event: RunEvent) -> bool {
    match action {
        RunAction::CreateOutput => event == RunEvent::OutputCreated || event
            == RunEvent::OutputFailed,
        RunAction::Locate => event is Located || event is LocateFailed,
        RunAction::Translate => event is Detached,
        RunAction::CoolDown { .. } => event == RunEvent::Rested,
        RunAction::Exit(_) => false,
    }
}

/// Whether `events` and `flags` tell a course of the supervisory loop: what
/// it observed step by step, from its start on, each observation answering
/// the action decided at the step before, and what the running flag said at
/// each step.
pub open spec fn is_course(events: Seq<RunEvent>, flags: Seq<bool>) -> bool {
    &&& events.len() == flags.len()
    &&& events.len() > 0
    &&& events[0] == RunEvent::Started
    &&& forall|i: int|
        0 <= i < events.len() - 1 ==> answers(
            #[trigger] next_loop_action(events[i], flags[i]),
            events[i + 1],
        )
}

/// As long as the virtual keyboard exists and every search fails, the
/// supervisory loop does nothing but search and rest in turn, each failed
/// search followed by a rest of [`COOL_DOWN_MILLIS`] and each rest by the
/// next search, for as long as the running flag stays set. At the first step
/// that finds the flag cleared it ends successfully. It never polls a source
/// device, so nothing is ever emitted.
pub proof fn failing_search_is_retried_until_stopped(
    events: Seq<RunEvent>,
    flags: Seq<bool>,
    step: int,
)
    requires
        is_course(events, flags),
        0 <= step < events.len(),
        forall|i: int| 0 <= i < events.len() ==> (#[trigger] events[i]) != RunEvent::OutputFailed,
        forall|i: int| 0 <= i < events.len() ==> !((#[trigger] events[i]) is Located),
    ensures
        ({
            let action = next_loop_action(events[step], flags[step]);
            &&& action != RunAction::Translate
            &&& step == 0 ==> action == RunAction::CreateOutput
            &&& step > 0 && !flags[step] ==> action == RunAction::Exit(Ok(()))
            &&& step > 0 && flags[step] && step % 2 == 1 ==> action == RunAction::Locate
            &&& step > 0 && flags[step] && step % 2 == 0 ==> action == (RunAction::CoolDown {
                millis: COOL_DOWN_MILLIS,
            })
        }),
    decreases step,
{
    if step > 0 {
        failing_search_is_retried_until_stopped(events, flags, step - 1);
        let before = next_loop_action(events[step - 1], flags[step - 1]);
        assert(answers(before, events[step]));
        assert(events[step] != RunEvent::OutputFailed);
        assert(!(events[step] is Located));
    }
}

/// The supervisory loop ends for two reasons only: in failure if the virtual
/// keyboard cannot be created, successfully if it finds the running flag
/// cleared. While the flag stays set, no failed search and no failure of the
/// polling loop ends it.
pub proof fn loop_ends_for_a_reason(event: RunEvent, running: bool, result: Result<(), RunError>)
    requires
        next_loop_action(event, running) == RunAction::Exit(result),
    ensures
        result == Err::<(), RunError>(RunError::Output) || result == Ok::<(), RunError>(()),
        result == Err::<(), RunError>(RunError::Output) <==> event == RunEvent::OutputFailed,
        result == Ok::<(), RunError>(()) ==> !running,
{
}

/// A course of the supervisory loop moves from searching to attached, and
/// from attached back to searching, or from either to stopped, and in no
/// other way: no step follows the stop, and a source device is polled only
/// right after a search.
pub proof fn course_keeps_to_the_states(events: Seq<RunEvent>, flags: Seq<bool>, step: int)
    requires
        is_course(events, flags),
        0 <= step < events.len() - 1,
    ensures
        ({
            let action = next_loop_action(events[step], flags[step]);
            let next = next_loop_action(events[step + 1], flags[step + 1]);
            &&& state_during(action) != RunState::Stopped
            &&& state_during(action) == RunState::Attached ==> state_during(next)
                != RunState::Attached
            &&& next == RunAction::Translate ==> action == RunAction::Locate
        }),
{
    let action = next_loop_action(events[step], flags[step]);
    assert(answers(action, events[step + 1]));
}

/// Decides the next step of a single attach-and-map cycle from what the last
/// step observed. The polling loop of such a cycle runs with a running flag
/// that stays set.
pub fn run_once(event: RunEvent) -> (action: RunAction)
    ensures
        action == next_cycle_action(event),
{
    match event {
        RunEvent::Started => RunAction::CreateOutput,
        RunEvent::OutputCreated | RunEvent::Rested => RunAction::Locate,
        RunEvent::OutputFailed => RunAction::Exit(Err(RunError::Output)),
        RunEvent::Located => RunAction::Translate,
        RunEvent::LocateFailed(error) => RunAction::Exit(Err(RunError::Locate(error))),
        RunEvent::Detached(result) => match result {
            Ok(()) => RunAction::Exit(Ok(())),
            Err(error) => RunAction::Exit(Err(RunError::Translate(error))),
        },
    }
}

/// Decides the next step of the supervisory loop from what the last step
/// observed and from the state of the running flag at this step.
pub fn run_loop(event: RunEvent, running: bool) -> (action: RunAction)
    ensures
        action == next_loop_action(event, running),
{
    match event {
        RunEvent::Started => RunAction::CreateOutput,
        RunEvent::OutputFailed => RunAction::Exit(Err(RunError::Output)),
        RunEvent::Located => RunAction::Translate,
        RunEvent::OutputCreated | RunEvent::Rested => {
            if running {
                RunAction::Locate
            } else {
                RunAction::Exit(Ok(()))
            }
        },
        RunEvent::LocateFailed(_) | RunEvent::Detached(_) => {
            if running {
                RunAction::CoolDown { millis: COOL_DOWN_MILLIS }
            } else {
                RunAction::Exit(Ok(()))
            }
        },
    }
}

/// Decides the next step of a supervisory loop whose running flag is never
/// cleared: such a loop ends only if the virtual keyboard cannot be created.
pub fn run_loop_blocking(event: RunEvent) -> (action: RunAction)
    ensures
        action == next_loop_action(event, true),
{
    run_loop(event, true)
}

} // verus!

