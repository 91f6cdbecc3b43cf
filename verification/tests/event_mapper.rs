use config_2014_naga::event_mapper::{
    button_of_code, map_events, process_event, Emission, RawInputEvent, TranslateError,
    TranslatorAction, TranslatorEvent, IDLE_WAIT_MILLIS, NO_DATA_YET,
};
use config_2014_naga::key_map::{ConfigEntry, Key, KeyMapper};

fn key_event(code: u32, value: i32) -> RawInputEvent {
    RawInputEvent::Key { code, value }
}

fn read(code: u32, value: i32) -> TranslatorEvent {
    TranslatorEvent::Read(key_event(code, value))
}

/// What the outside world does in one iteration of a scripted run.
enum Turn {
    /// The read delivers an event; the keyboard takes what is emitted.
    Deliver(RawInputEvent),
    /// The read delivers an event; the keyboard refuses what is emitted.
    Refuse(RawInputEvent),
    /// The read fails with this error code.
    Fail(Option<i32>),
    /// The running flag is cleared before the iteration begins.
    Stop,
}

/// Drives `map_events` as a caller would, against a script. Returns the
/// emissions that were taken, the total time waited and the result.
fn run(mapper: &KeyMapper, script: Vec<Turn>) -> (Vec<Emission>, u64, Option<Result<(), TranslateError>>) {
    let mut emitted = Vec::new();
    let mut waited = 0;
    let mut event = TranslatorEvent::Started;
    let mut turns = script.into_iter().peekable();
    for _ in 0..10_000 {
        let running = !matches!(turns.peek(), Some(Turn::Stop));
        match map_events(mapper, event, running) {
            TranslatorAction::Return(result) => return (emitted, waited, Some(result)),
            TranslatorAction::Wait { millis } => {
                waited += millis;
                event = TranslatorEvent::Woke;
            }
            TranslatorAction::Emit(call) => match turns.next() {
                Some(Turn::Deliver(_)) => {
                    emitted.push(call);
                    event = TranslatorEvent::Emitted;
                }
                Some(Turn::Refuse(_)) => event = TranslatorEvent::EmitFailed,
                _ => unreachable!(),
            },
            TranslatorAction::Read => {
                let raw = match turns.peek() {
                    None => return (emitted, waited, None),
                    Some(Turn::Fail(os_error)) => {
                        event = TranslatorEvent::ReadFailed { os_error: *os_error };
                        turns.next();
                        continue;
                    }
                    Some(Turn::Deliver(raw)) | Some(Turn::Refuse(raw)) => *raw,
                    Some(Turn::Stop) => unreachable!(),
                };
                event = TranslatorEvent::Read(raw);
                if process_event(mapper, raw).is_none() {
                    turns.next();
                }
            }
        }
    }
    panic!("the scripted run did not end");
}

#[test]
fn default_table_end_to_end() {
    let mapper = KeyMapper::default();
    assert_eq!(
        map_events(&mapper, read(2, 1), true),
        TranslatorAction::Emit(Emission::Press(Key::from_name("_1").unwrap()))
    );
    assert_eq!(
        map_events(&mapper, read(2, 0), true),
        TranslatorAction::Emit(Emission::Release(Key::from_name("_1").unwrap()))
    );
    assert_eq!(
        map_events(&mapper, read(13, 1), true),
        TranslatorAction::Emit(Emission::Press(Key::from_name("Equal").unwrap()))
    );
    assert_eq!(map_events(&mapper, read(1, 1), true), TranslatorAction::Read);
    assert_eq!(process_event(&mapper, key_event(2, 1)), Some(Emission::Press(Key { code: 2 })));
    assert_eq!(process_event(&mapper, key_event(2, 0)), Some(Emission::Release(Key { code: 2 })));
    assert_eq!(process_event(&mapper, key_event(13, 1)), Some(Emission::Press(Key { code: 13 })));
    assert_eq!(process_event(&mapper, key_event(1, 1)), None);
}

#[test]
fn codes_outside_the_button_range_emit_nothing() {
    let mapper = KeyMapper::default();
    let outside = (0..2u32).chain(14..2000).chain([u32::MAX - 1, u32::MAX]);
    for code in outside {
        for value in [0, 1, 2, -1, i32::MAX, i32::MIN] {
            assert_eq!(process_event(&mapper, key_event(code, value)), None);
            assert_eq!(map_events(&mapper, read(code, value), true), TranslatorAction::Read);
            assert_eq!(map_events(&mapper, read(code, value), false), TranslatorAction::Return(Ok(())));
        }
    }
}

#[test]
fn button_codes_map_to_indices() {
    assert_eq!(button_of_code(0), None);
    assert_eq!(button_of_code(1), None);
    for code in 2..=13u32 {
        assert_eq!(button_of_code(code), Some(code as usize - 2));
    }
    assert_eq!(button_of_code(14), None);
    assert_eq!(button_of_code(u32::MAX), None);
}

#[test]
fn press_then_release_gives_one_press_and_one_release() {
    let mapper = KeyMapper::default();
    for code in 2..=13u32 {
        let key = Key { code: code as u16 };
        let script = vec![Turn::Deliver(key_event(code, 1)), Turn::Deliver(key_event(code, 0))];
        let (emitted, waited, result) = run(&mapper, script);
        assert_eq!(emitted, vec![Emission::Press(key), Emission::Release(key)]);
        assert_eq!(waited, 0);
        assert_eq!(result, None);
    }
}

#[test]
fn other_values_emit_nothing() {
    let mapper = KeyMapper::default();
    for code in 2..=13u32 {
        for value in [2, 3, -1, 100, i32::MAX, i32::MIN] {
            assert_eq!(process_event(&mapper, key_event(code, value)), None);
            assert_eq!(map_events(&mapper, read(code, value), true), TranslatorAction::Read);
        }
    }
}

#[test]
fn unmapped_button_emits_nothing() {
    let entries = vec![ConfigEntry { label: "2".to_string(), key: Key { code: 59 } }];
    let mapper = KeyMapper::from_entries(&entries).unwrap();
    assert_eq!(process_event(&mapper, key_event(2, 1)), None);
    assert_eq!(process_event(&mapper, key_event(2, 0)), None);
    assert_eq!(process_event(&mapper, key_event(3, 1)), Some(Emission::Press(Key { code: 59 })));
    assert_eq!(process_event(&mapper, key_event(3, 0)), Some(Emission::Release(Key { code: 59 })));
    assert_eq!(map_events(&mapper, read(4, 1), true), TranslatorAction::Read);
}

#[test]
fn sync_always_gives_one_synchronize() {
    for mapper in [KeyMapper::default(), KeyMapper::empty()] {
        assert_eq!(process_event(&mapper, RawInputEvent::Sync), Some(Emission::Synchronize));
        for running in [true, false] {
            assert_eq!(
                map_events(&mapper, TranslatorEvent::Read(RawInputEvent::Sync), running),
                TranslatorAction::Emit(Emission::Synchronize)
            );
        }
    }
    let mapper = KeyMapper::default();
    let script = vec![
        Turn::Deliver(key_event(5, 1)),
        Turn::Deliver(RawInputEvent::Sync),
        Turn::Deliver(key_event(1, 1)),
        Turn::Deliver(RawInputEvent::Sync),
        Turn::Deliver(RawInputEvent::Sync),
    ];
    let (emitted, _, _) = run(&mapper, script);
    assert_eq!(
        emitted,
        vec![
            Emission::Press(Key { code: 5 }),
            Emission::Synchronize,
            Emission::Synchronize,
            Emission::Synchronize,
        ]
    );
}

#[test]
fn other_events_emit_nothing() {
    let mapper = KeyMapper::default();
    assert_eq!(process_event(&mapper, RawInputEvent::Other), None);
    assert_eq!(map_events(&mapper, TranslatorEvent::Read(RawInputEvent::Other), true), TranslatorAction::Read);
}

#[test]
fn no_data_is_followed_by_the_idle_wait() {
    let mapper = KeyMapper::default();
    assert_eq!(NO_DATA_YET, 11);
    assert_eq!(IDLE_WAIT_MILLIS, 50);
    for running in [true, false] {
        assert_eq!(
            map_events(&mapper, TranslatorEvent::ReadFailed { os_error: Some(11) }, running),
            TranslatorAction::Wait { millis: 50 }
        );
    }
    assert_eq!(map_events(&mapper, TranslatorEvent::Woke, true), TranslatorAction::Read);
}

#[test]
fn cleared_flag_ends_the_idle_wait_without_emission() {
    let mapper = KeyMapper::default();
    assert_eq!(map_events(&mapper, TranslatorEvent::Woke, false), TranslatorAction::Return(Ok(())));
    let script = vec![
        Turn::Deliver(key_event(2, 1)),
        Turn::Fail(Some(11)),
        Turn::Stop,
        Turn::Deliver(key_event(2, 0)),
    ];
    let (emitted, waited, result) = run(&mapper, script);
    assert_eq!(emitted, vec![Emission::Press(Key { code: 2 })]);
    assert_eq!(waited, 50);
    assert_eq!(result, Some(Ok(())));
}

#[test]
fn cleared_flag_begins_no_iteration() {
    let mapper = KeyMapper::default();
    for event in [
        TranslatorEvent::Started,
        TranslatorEvent::Emitted,
        TranslatorEvent::Woke,
        TranslatorEvent::Read(RawInputEvent::Other),
        read(1, 1),
        read(2, 7),
    ] {
        assert_eq!(map_events(&mapper, event, false), TranslatorAction::Return(Ok(())));
        assert_eq!(map_events(&mapper, event, true), TranslatorAction::Read);
    }
}

#[test]
fn other_read_failures_are_fatal() {
    let mapper = KeyMapper::default();
    for os_error in [None, Some(0), Some(5), Some(19), Some(-11), Some(i32::MAX)] {
        for running in [true, false] {
            assert_eq!(
                map_events(&mapper, TranslatorEvent::ReadFailed { os_error }, running),
                TranslatorAction::Return(Err(TranslateError::Read { os_error }))
            );
        }
    }
    let script = vec![Turn::Deliver(key_event(3, 1)), Turn::Fail(Some(19)), Turn::Deliver(key_event(3, 0))];
    let (emitted, waited, result) = run(&mapper, script);
    assert_eq!(emitted, vec![Emission::Press(Key { code: 3 })]);
    assert_eq!(waited, 0);
    assert_eq!(result, Some(Err(TranslateError::Read { os_error: Some(19) })));
}

#[test]
fn refused_emission_is_fatal() {
    let mapper = KeyMapper::default();
    for running in [true, false] {
        assert_eq!(
            map_events(&mapper, TranslatorEvent::EmitFailed, running),
            TranslatorAction::Return(Err(TranslateError::Emit))
        );
    }
    let script = vec![
        Turn::Deliver(key_event(3, 1)),
        Turn::Refuse(RawInputEvent::Sync),
        Turn::Deliver(key_event(3, 0)),
    ];
    let (emitted, _, result) = run(&mapper, script);
    assert_eq!(emitted, vec![Emission::Press(Key { code: 3 })]);
    assert_eq!(result, Some(Err(TranslateError::Emit)));
}

#[test]
fn idle_waits_add_up() {
    let mapper = KeyMapper::default();
    let script = vec![Turn::Fail(Some(11)), Turn::Fail(Some(11)), Turn::Fail(Some(11)), Turn::Stop];
    let (emitted, waited, result) = run(&mapper, script);
    assert_eq!(emitted, Vec::new());
    assert_eq!(waited, 150);
    assert_eq!(result, Some(Ok(())));
}
