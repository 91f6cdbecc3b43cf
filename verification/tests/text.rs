use config_2014_naga::text::{ends_with, same_text, starts_with};

#[test]
fn same_text_compares_every_character() {
    assert!(same_text("", ""));
    assert!(same_text("event", "event"));
    assert!(same_text("na\u{ef}ve", "na\u{ef}ve"));
    assert!(!same_text("event", "events"));
    assert!(!same_text("events", "event"));
    assert!(!same_text("event", "evens"));
    assert!(!same_text("Event", "event"));
    assert!(!same_text("", "e"));
    assert!(!same_text("na\u{ef}ve", "naive"));
}

#[test]
fn starts_with_looks_at_the_beginning() {
    assert!(starts_with("event12", "event"));
    assert!(starts_with("event", "event"));
    assert!(starts_with("event", ""));
    assert!(starts_with("", ""));
    assert!(starts_with("\u{e9}vent", "\u{e9}v"));
    assert!(!starts_with("even", "event"));
    assert!(!starts_with("", "event"));
    assert!(!starts_with("an event", "event"));
    assert!(!starts_with("evxnt1", "event"));
}

#[test]
fn ends_with_looks_at_the_end() {
    assert!(ends_with("usb-0000:00:14.0-2/input2", "/input2"));
    assert!(ends_with("/input2", "/input2"));
    assert!(ends_with("/input2", ""));
    assert!(ends_with("", ""));
    assert!(ends_with("usb-\u{fc}/input2", "/input2"));
    assert!(ends_with("usb/input\u{b2}", "input\u{b2}"));
    assert!(!ends_with("input2", "/input2"));
    assert!(!ends_with("", "/input2"));
    assert!(!ends_with("/input2/", "/input2"));
    assert!(!ends_with("/input22", "/input2"));
    assert!(!ends_with("/inpvt2", "/input2"));
}
