use config_2014_naga::naga::{
    locate, names_event_node, DeviceIdentity, LocateAction, LocateError, LocateEvent, Node,
    EVENT_NODE_PREFIX, INPUT_DIRECTORY, TARGET_NAME, TARGET_PORT_SUFFIX,
};

fn identity(name: Option<&str>, phys: Option<&str>) -> DeviceIdentity {
    DeviceIdentity { name: name.map(str::to_string), phys: phys.map(str::to_string) }
}

fn mouse() -> DeviceIdentity {
    identity(Some("Razer Razer Naga 2014"), Some("usb-0000:00:14.0-2/input2"))
}

fn node(file_name: &str, device: Option<DeviceIdentity>) -> Node {
    Node { readable: true, file_name: file_name.to_string(), device, grabbable: true }
}

/// Drives `locate` as a caller would, against a directory that is given as
/// a list of entries. Returns the position of the attached entry or the
/// error, and the positions of the entries that were opened.
fn search(listing: Option<Vec<Node>>) -> (Result<usize, LocateError>, Vec<usize>) {
    let mut opened = Vec::new();
    let mut next = 0;
    let mut current = 0;
    let mut event = LocateEvent::Started;
    for _ in 0..10_000 {
        event = match locate(&event) {
            LocateAction::Attach => return (Ok(current), opened),
            LocateAction::Fail(error) => return (Err(error), opened),
            LocateAction::List => match listing {
                Some(_) => LocateEvent::Listed,
                None => LocateEvent::ListFailed,
            },
            LocateAction::NextEntry => match listing.as_ref().unwrap().get(next) {
                None => LocateEvent::End,
                Some(entry) => {
                    current = next;
                    next += 1;
                    if entry.readable {
                        LocateEvent::Entry { file_name: entry.file_name.clone() }
                    } else {
                        LocateEvent::EntryUnreadable
                    }
                }
            },
            LocateAction::Open => {
                opened.push(current);
                match &listing.as_ref().unwrap()[current].device {
                    Some(identity) => LocateEvent::Opened { identity: identity.clone() },
                    None => LocateEvent::OpenFailed,
                }
            }
            LocateAction::Grab => {
                if listing.as_ref().unwrap()[current].grabbable {
                    LocateEvent::Grabbed
                } else {
                    LocateEvent::GrabFailed
                }
            }
            LocateAction::SetNonBlocking => LocateEvent::NonBlocking,
        };
    }
    panic!("the scripted search did not end");
}

#[test]
fn constants_name_the_mouse() {
    assert_eq!(INPUT_DIRECTORY, "/dev/input");
    assert_eq!(EVENT_NODE_PREFIX, "event");
    assert_eq!(TARGET_NAME, "Razer Razer Naga 2014");
    assert_eq!(TARGET_PORT_SUFFIX, "/input2");
}

#[test]
fn event_nodes_are_known_by_their_prefix() {
    for name in ["event0", "event1", "event17", "event", "eventful", "event\u{e9}"] {
        assert!(names_event_node(name), "name {:?}", name);
    }
    for name in ["", "even", "even0", "mouse0", "mice", "js0", "Event0", "xevent0", " event0", "by-id"] {
        assert!(!names_event_node(name), "name {:?}", name);
    }
}

#[test]
fn the_mouse_is_known_by_name_and_port() {
    assert!(mouse().is_target());
    assert!(identity(Some("Razer Razer Naga 2014"), Some("/input2")).is_target());
    assert!(identity(Some("Razer Razer Naga 2014"), Some("usb-\u{fc}/input2")).is_target());
}

#[test]
fn other_devices_are_not_the_mouse() {
    let others = [
        identity(Some("Razer Razer Naga 2014"), Some("usb-0000:00:14.0-2/input0")),
        identity(Some("Razer Razer Naga 2014"), Some("usb-0000:00:14.0-2/input1")),
        identity(Some("Razer Razer Naga 2014"), Some("usb-0000:00:14.0-2/input20")),
        identity(Some("Razer Razer Naga 2014"), Some("usb-0000:00:14.0-2/input2 ")),
        identity(Some("Razer Razer Naga 2014"), Some("input2")),
        identity(Some("Razer Razer Naga 2014"), Some("")),
        identity(Some("Razer Razer Naga 2014"), None),
        identity(Some("Razer Razer Naga 2014 "), Some("usb-0000:00:14.0-2/input2")),
        identity(Some("Razer Razer Naga 201"), Some("usb-0000:00:14.0-2/input2")),
        identity(Some("razer razer naga 2014"), Some("usb-0000:00:14.0-2/input2")),
        identity(Some("Razer Naga 2014"), Some("usb-0000:00:14.0-2/input2")),
        identity(Some(""), Some("usb-0000:00:14.0-2/input2")),
        identity(None, Some("usb-0000:00:14.0-2/input2")),
        identity(None, None),
    ];
    for other in others {
        assert!(!other.is_target(), "{:?}", other);
    }
}

#[test]
fn each_observation_has_its_step() {
    assert_eq!(locate(&LocateEvent::Started), LocateAction::List);
    assert_eq!(locate(&LocateEvent::Listed), LocateAction::NextEntry);
    assert_eq!(locate(&LocateEvent::ListFailed), LocateAction::Fail(LocateError::Unlisted));
    assert_eq!(locate(&LocateEvent::Entry { file_name: "event4".to_string() }), LocateAction::Open);
    assert_eq!(locate(&LocateEvent::Entry { file_name: "mouse1".to_string() }), LocateAction::NextEntry);
    assert_eq!(locate(&LocateEvent::EntryUnreadable), LocateAction::NextEntry);
    assert_eq!(locate(&LocateEvent::End), LocateAction::Fail(LocateError::NotFound));
    assert_eq!(locate(&LocateEvent::Opened { identity: mouse() }), LocateAction::Grab);
    assert_eq!(
        locate(&LocateEvent::Opened { identity: identity(Some("AT Translated Set 2 keyboard"), Some("isa0060/serio0/input0")) }),
        LocateAction::NextEntry
    );
    assert_eq!(locate(&LocateEvent::OpenFailed), LocateAction::NextEntry);
    assert_eq!(locate(&LocateEvent::Grabbed), LocateAction::SetNonBlocking);
    assert_eq!(locate(&LocateEvent::GrabFailed), LocateAction::Fail(LocateError::Grab));
    assert_eq!(locate(&LocateEvent::NonBlocking), LocateAction::Attach);
}

#[test]
fn search_attaches_the_first_mouse() {
    let keyboard = identity(Some("AT Translated Set 2 keyboard"), Some("isa0060/serio0/input0"));
    let pointer = identity(Some("Razer Razer Naga 2014"), Some("usb-0000:00:14.0-2/input0"));
    let listing = vec![
        node("by-id", None),
        node("event0", Some(keyboard)),
        node("mouse0", Some(mouse())),
        node("event1", None),
        node("event2", Some(pointer)),
        Node { readable: false, file_name: "event3".to_string(), device: Some(mouse()), grabbable: true },
        node("event4", Some(mouse())),
        node("event5", Some(mouse())),
    ];
    let (result, opened) = search(Some(listing));
    assert_eq!(result, Ok(6));
    assert_eq!(opened, vec![1, 3, 4, 6]);
}

#[test]
fn refused_grab_fails_the_search() {
    let mut first = node("event3", Some(mouse()));
    first.grabbable = false;
    let listing = vec![node("event0", None), first, node("event4", Some(mouse()))];
    let (result, opened) = search(Some(listing));
    assert_eq!(result, Err(LocateError::Grab));
    assert_eq!(opened, vec![0, 1]);
}

#[test]
fn search_without_the_mouse_finds_nothing() {
    let keyboard = identity(Some("AT Translated Set 2 keyboard"), Some("isa0060/serio0/input0"));
    let listing = vec![node("event0", Some(keyboard)), node("mice", None), node("event1", None)];
    assert_eq!(search(Some(listing)), (Err(LocateError::NotFound), vec![0, 2]));
    assert_eq!(search(Some(Vec::new())), (Err(LocateError::NotFound), Vec::new()));
}

#[test]
fn unlisted_directory_fails_the_search() {
    assert_eq!(search(None), (Err(LocateError::Unlisted), Vec::new()));
}
