//! Translating raw input events of the mouse into keyboard emissions.
//!
//! [`process_event`] says what a single raw event makes the virtual keyboard
//! do. [`map_events`] decides each step of the polling loop that reads raw
//! events and forwards their emissions until it is told to stop.

use vstd::prelude::*;
use crate::key_map::{Key, KeyMapper};

verus! {

/// Hardware code of the first side button.
pub const FIRST_BUTTON_CODE: u32 = 2;

/// Hardware code of the last side button.
pub const LAST_BUTTON_CODE: u32 = 13;

/// Value of a key event that reports a press.
pub const PRESSED: i32 = 1;

/// Value of a key event that reports a release.
pub const RELEASED: i32 = 0;

/// Error code with which the operating system answers a non-blocking read
/// that has no data yet (`EAGAIN` on Linux).
pub const NO_DATA_YET: i32 = 11;

/// Milliseconds to wait before polling again when no data was available.
pub const IDLE_WAIT_MILLIS: u64 = 50;

/// An event of the input subsystem, reduced to what the translation reads.
#[derive(Clone, Copy, Debug, PartialEq, Eq, Structural)]
pub enum RawInputEvent {
    /// A key event with its hardware code and its value.
    Key { code: u32, value: i32 },
    /// The end of a packet of events.
    Sync,
    /// Any other kind of event.
    Other,
}

/// One call on the virtual keyboard.
#[derive(Clone, Copy, Debug, PartialEq, Eq, Structural)]
pub enum Emission {
    Press(Key),
    Release(Key),
    Synchronize,
}

/// Why the polling loop gave up.
#[derive(Clone, Copy, Debug, PartialEq, Eq, Structural)]
pub enum TranslateError {
    /// Reading from the source device failed; the operating system's error
    /// code, where it gave one.
    Read { os_error: Option<i32> },
    /// The virtual keyboard refused an emission.
    Emit,
}

/// What the last step of the polling loop observed.
#[derive(Clone, Copy, Debug, PartialEq, Eq, Structural)]
pub enum TranslatorEvent {
    /// Nothing yet: the loop begins.
    Started,
    /// The source device delivered an event.
    Read(RawInputEvent),
    /// Reading from the source device failed.
    ReadFailed { os_error: Option<i32> },
    /// The virtual keyboard took the emission.
    Emitted,
    /// The virtual keyboard refused the emission.
    EmitFailed,
    /// The idle wait is over.
    Woke,
}

/// What the polling loop does next.
#[derive(Clone, Copy, Debug, PartialEq, Eq)]
pub enum TranslatorAction {
    /// Attempt a non-blocking read of the next raw event.
    Read,
    /// Make this call on the virtual keyboard.
    Emit(Emission),
    /// Sleep for this many milliseconds.
    Wait { millis: u64 },
    /// Leave the loop with this result.
    Return(Result<(), TranslateError>),
}

/// The index of the button with the given hardware code, if the code is that
/// of a side button.
pub open spec fn button_index(code: u32) -> Option<int> {
    if FIRST_BUTTON_CODE <= code <= LAST_BUTTON_CODE {
        Some(code - FIRST_BUTTON_CODE)
    } else {
        None
    }
}

/// What a raw event makes the virtual keyboard do.
///
/// A press or release of a side button that has a key becomes a press or
/// release of that key; every sync event becomes a synchronize call;
/// nothing else is forwarded.
pub open spec fn emission(mapper: KeyMapper, event: RawInputEvent) -> Option<Emission> {
    match event {
        RawInputEvent::Key { code, value } => match button_index(code) {
            Some(index) => match mapper.spec_lookup(index) {
                Some(key) => if value == PRESSED {
                    Some(Emission::Press(key))
                } else if value == RELEASED {
                    Some(Emission::Release(key))
                } else {
                    None
                },
                None => None,
            },
            None => None,
        },
        RawInputEvent::Sync => Some(Emission::Synchronize),
        RawInputEvent::Other => None,
    }
}

/// Whether a failed read only means that no event is pending.
pub open spec fn is_idle(os_error: Option<i32>) -> bool {
    os_error == Some(NO_DATA_YET)
}

/// The step with which an iteration of the polling loop begins: read on
/// while running, leave cleanly once told to stop.
pub open spec fn poll(running: bool) -> TranslatorAction {
    if running {
        TranslatorAction::Read
    } else {
        TranslatorAction::Return(Ok(()))
    }
}

/// The step that follows an observation of the polling loop.
///
/// An event with an emission has it forwarded; one without begins the next
/// iteration at once. A read that found no data is followed by the idle
/// wait, any other failed read and any refused emission end the loop with
/// the error. After a forwarded emission and after the idle wait the next
/// iteration begins. `running` is the state of the running flag at this
/// step; it is consulted only where an iteration begins.
pub open spec fn next_translator_action(
    mapper: KeyMapper,
    event: TranslatorEvent,
    running: bool,
) -> TranslatorAction {
    match event {
        TranslatorEvent::Started => poll(running),
        TranslatorEvent::Read(raw) => match emission(mapper, raw) {
            Some(call) => TranslatorAction::Emit(call),
            None => poll(running),
        },
        TranslatorEvent::ReadFailed { os_error } => if is_idle(os_error) {
            TranslatorAction::Wait { millis: IDLE_WAIT_MILLIS }
        } else {
            TranslatorAction::Return(Err(TranslateError::Read { os_error }))
        },
        TranslatorEvent::Emitted => poll(running),
        TranslatorEvent::EmitFailed => TranslatorAction::Return(Err(TranslateError::Emit)),
        TranslatorEvent::Woke => poll(running),
    }
}

/// Key events whose code is not that of a side button are never forwarded:
/// the polling loop goes straight on to its next iteration.
pub proof fn foreign_code_is_ignored(mapper: KeyMapper, code: u32, value: i32, running: bool)
    requires
        code < FIRST_BUTTON_CODE || code > LAST_BUTTON_CODE,
    ensures
        emission(mapper, RawInputEvent::Key { code, value }) is None,
        next_translator_action(
            mapper,
            TranslatorEvent::Read(RawInputEvent::Key { code, value }),
            running,
        ) == poll(running),
{
}

/// The polling loop presses or releases a key only in answer to a key event
/// of a side button that the table maps to that key: to its press with a
/// press, to its release with a release.
pub proof fn key_emission_has_a_cause(
    mapper: KeyMapper,
    event: TranslatorEvent,
    running: bool,
    key: Key,
)
    requires
        ({
            let action = next_translator_action(mapper, event, running);
            action == TranslatorAction::Emit(Emission::Press(key)) || action
                == TranslatorAction::Emit(Emission::Release(key))
        }),
    ensures
        event matches TranslatorEvent::Read(RawInputEvent::Key { code, value }) && {
            &&& FIRST_BUTTON_CODE <= code <= LAST_BUTTON_CODE
            &&& mapper.spec_lookup(code - FIRST_BUTTON_CODE) == Some(key)
            &&& value == PRESSED || value == RELEASED
            &&& value == PRESSED <==> next_translator_action(mapper, event, running)
                == TranslatorAction::Emit(Emission::Press(key))
        },
{
}

/// A key event of a side button that has a key is answered with exactly one
/// call: a press for the value 1, a release for the value 0. Any other value
/// is answered with none. Once the call was taken the next iteration begins,
/// so nothing is emitted twice.
pub proof fn mapped_button_is_forwarded_once(
    mapper: KeyMapper,
    code: u32,
    value: i32,
    key: Key,
    running: bool,
)
    requires
        FIRST_BUTTON_CODE <= code <= LAST_BUTTON_CODE,
        mapper.spec_lookup(code - FIRST_BUTTON_CODE) == Some(key),
    ensures
        ({
            let action = next_translator_action(
                mapper,
                TranslatorEvent::Read(RawInputEvent::Key { code, value }),
                running,
            );
            &&& value == PRESSED ==> action == TranslatorAction::Emit(Emission::Press(key))
            &&& value == RELEASED ==> action == TranslatorAction::Emit(Emission::Release(key))
            &&& value != PRESSED && value != RELEASED ==> action == poll(running)
        }),
        next_translator_action(mapper, TranslatorEvent::Emitted, running) == poll(running),
{
}

/// A key event of a side button that has no key is never forwarded.
pub proof fn unmapped_button_is_ignored(mapper: KeyMapper, code: u32, value: i32, running: bool)
    requires
        FIRST_BUTTON_CODE <= code <= LAST_BUTTON_CODE,
        mapper.spec_lookup(code - FIRST_BUTTON_CODE) is None,
    ensures
        next_translator_action(
            mapper,
            TranslatorEvent::Read(RawInputEvent::Key { code, value }),
            running,
        ) == poll(running),
{
}

/// Every sync event is answered with exactly one synchronize call, whatever
/// the table holds and whatever the running flag says; the answer depends on
/// no earlier event.
pub proof fn sync_is_always_forwarded(mapper: KeyMapper, running: bool)
    ensures
        emission(mapper, RawInputEvent::Sync) == Some(Emission::Synchronize),
        next_translator_action(mapper, TranslatorEvent::Read(RawInputEvent::Sync), running)
            == TranslatorAction::Emit(Emission::Synchronize),
        next_translator_action(mapper, TranslatorEvent::Emitted, running) == poll(running),
{
}

/// A read that finds no data is followed by one idle wait of
/// [`IDLE_WAIT_MILLIS`]. If the running flag is found cleared when the wait
/// is over, the loop returns successfully at once: it neither reads nor
/// emits again.
pub proof fn cleared_flag_ends_idle_wait(mapper: KeyMapper, running: bool)
    ensures
        next_translator_action(
            mapper,
            TranslatorEvent::ReadFailed { os_error: Some(NO_DATA_YET) },
            running,
        ) == (TranslatorAction::Wait { millis: IDLE_WAIT_MILLIS }),
        next_translator_action(mapper, TranslatorEvent::Woke, false) == TranslatorAction::Return(
            Ok(()),
        ),
{
}

/// With the running flag cleared no iteration begins: wherever one would,
/// the loop returns successfully instead.
pub proof fn cleared_flag_begins_no_iteration(mapper: KeyMapper, event: TranslatorEvent)
    requires
        event == TranslatorEvent::Started || event == TranslatorEvent::Emitted || event
            == TranslatorEvent::Woke || (event matches TranslatorEvent::Read(raw) && emission(
            mapper,
            raw,
        ) is None),
    ensures
        next_translator_action(mapper, event, false) == TranslatorAction::Return(Ok(())),
{
}

/// The polling loop returns for three reasons only: successfully if it finds
/// the running flag cleared where an iteration would begin, with the read
/// error if a read fails for another reason than that no data is there yet,
/// and with the emit error if the virtual keyboard refuses a call.
pub proof fn return_has_a_reason(
    mapper: KeyMapper,
    event: TranslatorEvent,
    running: bool,
    result: Result<(), TranslateError>,
)
    requires
        next_translator_action(mapper, event, running) == TranslatorAction::Return(result),
    ensures
        match result {
            Ok(()) => !running && !(event is ReadFailed) && event != TranslatorEvent::EmitFailed,
            Err(TranslateError::Read { os_error }) => event == (TranslatorEvent::ReadFailed {
                os_error,
            }) && !is_idle(os_error),
            Err(TranslateError::Emit) => event == TranslatorEvent::EmitFailed,
        },
{
}

/// One iteration of the polling loop as the outside world shapes it.
#[derive(Clone, Copy, Debug)]
pub struct Turn {
    /// The state of the running flag when the iteration begins.
    pub running: bool,
    /// What the read yields: an event, or the error code of a failed read.
    pub read: Result<RawInputEvent, Option<i32>>,
    /// Whether the virtual keyboard takes the call, should one be made.
    pub taken: bool,
}

/// What the polling loop observes when it reads during a turn.
pub open spec fn read_event(turn: Turn) -> TranslatorEvent {
    match turn.read {
        Ok(raw) => TranslatorEvent::Read(raw),
        Err(os_error) => TranslatorEvent::ReadFailed { os_error },
    }
}

/// What the polling loop observes when it makes a call during a turn.
pub open spec fn emit_event(turn: Turn) -> TranslatorEvent {
    if turn.taken {
        TranslatorEvent::Emitted
    } else {
        TranslatorEvent::EmitFailed
    }
}

/// The state of the running flag when turn `at` begins. Past the last turn
/// the flag counts as set.
pub open spec fn flag_at(turns: Seq<Turn>, at: int) -> bool {
    if 0 <= at < turns.len() {
        turns[at].running
    } else {
        true
    }
}

/// What the polling loop has to come to from turn `at` on: the calls that
/// the virtual keyboard takes, in order, and the result with which the loop
/// returns, or none if the turns run out first.
///
/// A turn that begins with the running flag cleared ends the loop in
/// success. Otherwise the turn's read decides: a failure that only means
/// that no data is there yet lets the loop go on, any other ends it; an
/// event without an emission lets the loop go on; an event with an emission
/// adds the call, or ends the loop if the virtual keyboard refuses it.
pub open spec fn translation(mapper: KeyMapper, turns: Seq<Turn>, at: int) -> (
    Seq<Emission>,
    Option<Result<(), TranslateError>>,
)
    decreases turns.len() - at,
{
    if at < 0 || at >= turns.len() {
        (Seq::empty(), None)
    } else if !turns[at].running {
        (Seq::empty(), Some(Ok(())))
    } else {
        let rest = translation(mapper, turns, at + 1);
        match turns[at].read {
            Err(os_error) => if is_idle(os_error) {
                rest
            } else {
                (Seq::empty(), Some(Err(TranslateError::Read { os_error })))
            },
            Ok(raw) => match emission(mapper, raw) {
                None => rest,
                Some(call) => if turns[at].taken {
                    (seq![call] + rest.0, rest.1)
                } else {
                    (Seq::empty(), Some(Err(TranslateError::Emit)))
                },
            },
        }
    }
}

/// An upper bound on the steps that can follow `action` within a turn.
pub open spec fn steps_left(action: TranslatorAction) -> nat {
    match action {
        TranslatorAction::Read => 2,
        TranslatorAction::Emit(_) => 1,
        TranslatorAction::Wait { .. } => 1,
        TranslatorAction::Return(_) => 0,
    }
}

/// What the polling loop comes to that is about to carry out `action` in
/// turn `at`, when every step is decided by [`next_translator_action`] and
/// answered by the outside world as `turns` says.
pub open spec fn course(mapper: KeyMapper, turns: Seq<Turn>, at: int, action: TranslatorAction) -> (
    Seq<Emission>,
    Option<Result<(), TranslateError>>,
)
    decreases turns.len() - at, steps_left(action),
{
    match action {
        TranslatorAction::Return(result) => (Seq::empty(), Some(result)),
        _ => if at < 0 || at >= turns.len() {
            (Seq::empty(), None)
        } else {
            match action {
                TranslatorAction::Read => {
                    let next = next_translator_action(
                        mapper,
                        read_event(turns[at]),
                        flag_at(turns, at + 1),
                    );
                    if next == TranslatorAction::Read {
                        course(mapper, turns, at + 1, next)
                    } else {
                        course(mapper, turns, at, next)
                    }
                },
                TranslatorAction::Emit(call) => {
                    let next = next_translator_action(
                        mapper,
                        emit_event(turns[at]),
                        flag_at(turns, at + 1),
                    );
                    let rest = course(mapper, turns, at + 1, next);
                    if turns[at].taken {
                        (seq![call] + rest.0, rest.1)
                    } else {
                        rest
                    }
                },
                _ => course(
                    mapper,
                    turns,
                    at + 1,
                    next_translator_action(mapper, TranslatorEvent::Woke, flag_at(turns, at + 1)),
                ),
            }
        },
    }
}

/// A polling loop whose steps are decided by [`map_events`] comes to what
/// [`translation`] says, from whichever turn it begins an iteration in.
pub proof fn steps_make_the_translation(mapper: KeyMapper, turns: Seq<Turn>, at: int)
    requires
        0 <= at <= turns.len(),
    ensures
        course(mapper, turns, at, poll(flag_at(turns, at))) == translation(mapper, turns, at),
    decreases turns.len() - at,
{
    reveal_with_fuel(course, 3);
    if at < turns.len() && turns[at].running {
        steps_make_the_translation(mapper, turns, at + 1);
    }
}

/// A polling loop that starts on the given turns makes exactly the calls
/// and comes to exactly the result that [`translation`] gives for them.
pub proof fn polling_loop_is_the_translation(mapper: KeyMapper, turns: Seq<Turn>)
    ensures
        course(
            mapper,
            turns,
            0,
            next_translator_action(mapper, TranslatorEvent::Started, flag_at(turns, 0)),
        ) == translation(mapper, turns, 0),
{
    steps_make_the_translation(mapper, turns, 0);
}

/// A press of a side button that has a key, followed by its release, makes
/// the virtual keyboard press the key once and then release it once.
pub proof fn press_then_release_is_forwarded(mapper: KeyMapper, code: u32, key: Key)
    requires
        FIRST_BUTTON_CODE <= code <= LAST_BUTTON_CODE,
        mapper.spec_lookup(code - FIRST_BUTTON_CODE) == Some(key),
    ensures
        ({
            let press = Turn {
                running: true,
                read: Ok(RawInputEvent::Key { code, value: PRESSED }),
                taken: true,
            };
            let release = Turn {
                running: true,
                read: Ok(RawInputEvent::Key { code, value: RELEASED }),
                taken: true,
            };
            translation(mapper, seq![press, release], 0) == (
                seq![Emission::Press(key), Emission::Release(key)],
                None::<Result<(), TranslateError>>,
            )
        }),
{
    reveal_with_fuel(translation, 3);
    let press = Turn { running: true, read: Ok(RawInputEvent::Key { code, value: PRESSED }), taken: true };
    let release = Turn {
        running: true,
        read: Ok(RawInputEvent::Key { code, value: RELEASED }),
        taken: true,
    };
    let got = translation(mapper, seq![press, release], 0);
    assert(got.0 =~= seq![Emission::Press(key), Emission::Release(key)]);
}

/// A turn that delivers a sync event adds exactly one synchronize call to
/// what follows, whatever came before it and whatever the table holds.
pub proof fn sync_turn_adds_one_call(mapper: KeyMapper, turns: Seq<Turn>, at: int)
    requires
        0 <= at < turns.len(),
        turns[at].running,
        turns[at].read == Ok::<RawInputEvent, Option<i32>>(RawInputEvent::Sync),
        turns[at].taken,
    ensures
        translation(mapper, turns, at).0 == seq![Emission::Synchronize] + translation(
            mapper,
            turns,
            at + 1,
        ).0,
        translation(mapper, turns, at).1 == translation(mapper, turns, at + 1).1,
{
}

/// A turn that begins with the running flag cleared ends the loop in
/// success: nothing is read and nothing is emitted from then on.
pub proof fn cleared_flag_ends_the_translation(mapper: KeyMapper, turns: Seq<Turn>, at: int)
    requires
        0 <= at < turns.len(),
        !turns[at].running,
    ensures
        translation(mapper, turns, at) == (
            Seq::<Emission>::empty(),
            Some(Ok::<(), TranslateError>(())),
        ),
{
}

/// Decides [`button_index`] for a hardware code.
pub fn button_of_code(code: u32) -> (index: Option<usize>)
    ensures
        match index {
            Some(i) => button_index(code) == Some(i as int),
            None => button_index(code) is None,
        },
{
    if FIRST_BUTTON_CODE <= code && code <= LAST_BUTTON_CODE {
        Some((code - FIRST_BUTTON_CODE) as usize)
    } else {
        None
    }
}

/// Says what a raw event makes the virtual keyboard do, if anything.
pub fn process_event(key_mapper: &KeyMapper, event: RawInputEvent) -> (call: Option<Emission>)
    ensures
        call == emission(*key_mapper, event),
{
    match event {
        RawInputEvent::Key { code, value } => {
            let index = match button_of_code(code) {
                Some(index) => index,
                None => { return None; },
            };
            let key = match key_mapper.lookup(index) {
                Some(key) => key,
                None => { return None; },
            };
            if value == PRESSED {
                Some(Emission::Press(key))
            } else if value == RELEASED {
                Some(Emission::Release(key))
            } else {
                None
            }
        },
        RawInputEvent::Sync => Some(Emission::Synchronize),
        RawInputEvent::Other => None,
    }
}

/// Begins an iteration of the polling loop.
fn begin_iteration(running: bool) -> (action: TranslatorAction)
    ensures
        action == poll(running),
{
    if running {
        TranslatorAction::Read
    } else {
        TranslatorAction::Return(Ok(()))
    }
}

/// Decides the next step of the polling loop from what the last step
/// observed and from the state of the running flag.
pub fn map_events(key_mapper: &KeyMapper, event: TranslatorEvent, running: bool) -> (action: TranslatorAction)
    ensures
        action == next_translator_action(*key_mapper, event, running),
{
    match event {
        TranslatorEvent::Started => begin_iteration(running),
        TranslatorEvent::Read(raw) => match process_event(key_mapper, raw) {
            Some(call) => TranslatorAction::Emit(call),
            None => begin_iteration(running),
        },
        TranslatorEvent::ReadFailed { os_error } => match os_error {
            Some(code) if code == NO_DATA_YET => TranslatorAction::Wait { millis: IDLE_WAIT_MILLIS },
            _ => TranslatorAction::Return(Err(TranslateError::Read { os_error })),
        },
        TranslatorEvent::Emitted => begin_iteration(running),
        TranslatorEvent::EmitFailed => TranslatorAction::Return(Err(TranslateError::Emit)),
        TranslatorEvent::Woke => begin_iteration(running),
    }
}

} // verus!
