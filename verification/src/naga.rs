//! Finding the mouse among the input device nodes.
//!
//! The search walks the entries of the input directory in the order the
//! operating system lists them. Every step of it is decided by [`locate`]
//! from what the previous step observed.

use vstd::prelude::*;
use crate::text::{same_text, starts_with, ends_with};

verus! {

/// Directory whose entries are searched.
pub const INPUT_DIRECTORY: &'static str = "/dev/input";

/// Prefix of the file names of event nodes (`event0`, `event1`, ...).
pub const EVENT_NODE_PREFIX: &'static str = "event";

/// Display name the mouse reports.
pub const TARGET_NAME: &'static str = "Razer Razer Naga 2014";

/// End of the physical address of the interface that carries the side buttons.
pub const TARGET_PORT_SUFFIX: &'static str = "/input2";

/// What an opened input device reports of itself. Either text may be missing.
#[derive(Clone, Debug)]
pub struct DeviceIdentity {
    pub name: Option<String>,
    pub phys: Option<String>,
}

/// Why no source device was acquired.
#[derive(Clone, Copy, Debug, PartialEq, Eq, Structural)]
pub enum LocateError {
    /// The input directory could not be listed.
    Unlisted,
    /// No entry of the input directory is the mouse.
    NotFound,
    /// The mouse was found, but exclusive access to it was denied.
    Grab,
}

/// What the last step of a search observed.
#[derive(Clone, Debug)]
pub enum LocateEvent {
    /// Nothing yet: the search begins.
    Started,
    /// The input directory was opened for listing.
    Listed,
    /// The input directory could not be opened for listing.
    ListFailed,
    /// The listing yielded an entry with this file name.
    Entry { file_name: String },
    /// The listing yielded an entry that could not be read.
    EntryUnreadable,
    /// The listing is exhausted.
    End,
    /// The current entry was opened as an input device.
    Opened { identity: DeviceIdentity },
    /// The current entry could not be opened as an input device.
    OpenFailed,
    /// Exclusive access to the opened device was granted.
    Grabbed,
    /// Exclusive access to the opened device was denied.
    GrabFailed,
    /// The handle of the opened device was switched to non-blocking mode.
    NonBlocking,
}

/// What the search does next.
#[derive(Clone, Copy, Debug, PartialEq, Eq, Structural)]
pub enum LocateAction {
    /// Open the input directory for listing.
    List,
    /// Drop the current entry, with its device if one was opened, and ask the
    /// listing for the next entry.
    NextEntry,
    /// Open the current entry as an input device.
    Open,
    /// Request exclusive access to the opened device.
    Grab,
    /// Switch the handle of the opened device to non-blocking mode.
    SetNonBlocking,
    /// The search is over: the opened device is the source device.
    Attach,
    /// The search is over without a source device.
    Fail(LocateError),
}

/// Whether a directory entry with this file name is an event node.
pub open spec fn is_event_node(file_name: Seq<char>) -> bool {
    EVENT_NODE_PREFIX@.is_prefix_of(file_name)
}

/// Whether a device that reports this name and this physical address is the
/// side-button interface of the mouse: the name is exactly [`TARGET_NAME`],
/// the address ends in [`TARGET_PORT_SUFFIX`]. A missing text matches nothing.
pub open spec fn is_target(name: Option<Seq<char>>, phys: Option<Seq<char>>) -> bool {
    &&& name matches Some(n) && n == TARGET_NAME@
    &&& phys matches Some(p) && TARGET_PORT_SUFFIX@.is_suffix_of(p)
}

impl DeviceIdentity {
    /// The reported name as a sequence of characters.
    pub open spec fn name_view(&self) -> Option<Seq<char>> {
        match self.name {
            Some(n) => Some(n@),
            None => None,
        }
    }

    /// The reported physical address as a sequence of characters.
    pub open spec fn phys_view(&self) -> Option<Seq<char>> {
        match self.phys {
            Some(p) => Some(p@),
            None => None,
        }
    }

    /// Decides [`is_target`] for this identity.
    pub fn is_target(&self) -> (hit: bool)
        ensures
            hit == is_target(self.name_view(), self.phys_view()),
    {
        match (&self.name, &self.phys) {
            (Some(name), Some(phys)) => {
                same_text(name.as_str(), TARGET_NAME) && ends_with(phys.as_str(), TARGET_PORT_SUFFIX)
            },
            _ => false,
        }
    }
}

/// Decides [`is_event_node`] for a file name.
pub fn names_event_node(file_name: &str) -> (hit: bool)
    ensures
        hit == is_event_node(file_name@),
{
    starts_with(file_name, EVENT_NODE_PREFIX)
}

/// The step that follows an observation.
///
/// Entries that are no event nodes, that cannot be read or opened, or whose
/// device is not the mouse are passed over. The first device that is the
/// mouse is grabbed; a refusal ends the search with [`LocateError::Grab`].
/// A grabbed device is switched to non-blocking mode and attached. A listing
/// that runs out ends the search with [`LocateError::NotFound`].
pub open spec fn next_locate_action(event: LocateEvent) -> LocateAction {
    match event {
        LocateEvent::Started => LocateAction::List,
        LocateEvent::Listed => LocateAction::NextEntry,
        LocateEvent::ListFailed => LocateAction::Fail(LocateError::Unlisted),
        LocateEvent::Entry { file_name } => if is_event_node(file_name@) {
            LocateAction::Open
        } else {
            LocateAction::NextEntry
        },
        LocateEvent::EntryUnreadable => LocateAction::NextEntry,
        LocateEvent::End => LocateAction::Fail(LocateError::NotFound),
        LocateEvent::Opened { identity } => if is_target(identity.name_view(), identity.phys_view()) {
            LocateAction::Grab
        } else {
            LocateAction::NextEntry
        },
        LocateEvent::OpenFailed => LocateAction::NextEntry,
        LocateEvent::Grabbed => LocateAction::SetNonBlocking,
        LocateEvent::GrabFailed => LocateAction::Fail(LocateError::Grab),
        LocateEvent::NonBlocking => LocateAction::Attach,
    }
}

/// What the operating system holds for one entry of the input directory.
#[derive(Clone, Debug)]
pub struct Node {
    /// Whether the listing can read the entry.
    pub readable: bool,
    /// The file name of the entry.
    pub file_name: String,
    /// What the entry reports of itself once opened as an input device; none
    /// if it cannot be opened as one.
    pub device: Option<DeviceIdentity>,
    /// Whether exclusive access to the device is granted.
    pub grabbable: bool,
}

/// Whether an entry is the side-button interface of the mouse: an event node
/// that opens as an input device and reports the name and the port looked for.
pub open spec fn is_mouse(node: Node) -> bool {
    &&& node.readable
    &&& is_event_node(node.file_name@)
    &&& node.device matches Some(identity) && is_target(identity.name_view(), identity.phys_view())
}

/// Whether `position` is the first entry of the listing that is the mouse.
pub open spec fn is_first_mouse(nodes: Seq<Node>, position: int) -> bool {
    &&& 0 <= position < nodes.len()
    &&& is_mouse(nodes[position])
    &&& forall|i: int| 0 <= i < position ==> !is_mouse(#[trigger] nodes[i])
}

/// What a search has to come to, given the entries of the input directory in
/// the order of the listing, or none if the directory cannot be listed: the
/// position of the first entry that is the mouse, provided that exclusive
/// access to it is granted.
pub open spec fn search_outcome(listing: Option<Seq<Node>>) -> Result<int, LocateError> {
    match listing {
        None => Err(LocateError::Unlisted),
        Some(nodes) => if exists|p: int| is_first_mouse(nodes, p) {
            let first = choose|p: int| is_first_mouse(nodes, p);
            if nodes[first].grabbable {
                Ok(first)
            } else {
                Err(LocateError::Grab)
            }
        } else {
            Err(LocateError::NotFound)
        },
    }
}

/// What the listing answers when asked for the entry `node`.
pub open spec fn entry_event(node: Node) -> LocateEvent {
    if node.readable {
        LocateEvent::Entry { file_name: node.file_name }
    } else {
        LocateEvent::EntryUnreadable
    }
}

/// What comes of opening the entry `node` as an input device.
pub open spec fn open_event(node: Node) -> LocateEvent {
    match node.device {
        Some(identity) => LocateEvent::Opened { identity },
        None => LocateEvent::OpenFailed,
    }
}

/// What comes of requesting exclusive access to the device of `node`.
pub open spec fn grab_event(node: Node) -> LocateEvent {
    if node.grabbable {
        LocateEvent::Grabbed
    } else {
        LocateEvent::GrabFailed
    }
}

/// An upper bound on the steps that can follow `action` before the search
/// ends or turns to the next entry.
pub open spec fn steps_left(action: LocateAction) -> nat {
    match action {
        LocateAction::List => 5,
        LocateAction::Open => 4,
        LocateAction::Grab => 3,
        LocateAction::SetNonBlocking => 2,
        LocateAction::NextEntry => 1,
        LocateAction::Attach => 0,
        LocateAction::Fail(_) => 0,
    }
}

/// How a search ends that is about to carry out `action` with its listing at
/// the entry `cursor`, when every step is decided by [`next_locate_action`]
/// and answered by the operating system as `listing` says: the position of
/// the entry whose device is attached, or the error.
pub open spec fn course_end(listing: Option<Seq<Node>>, cursor: int, action: LocateAction) -> Result<
    int,
    LocateError,
>
    decreases
        (match listing {
            Some(nodes) => nodes.len() - cursor,
            None => 0 - cursor,
        }),
        steps_left(action),
{
    match action {
        LocateAction::Attach => Ok(cursor),
        LocateAction::Fail(error) => Err(error),
        LocateAction::List => match listing {
            Some(_) => course_end(listing, cursor, next_locate_action(LocateEvent::Listed)),
            None => course_end(listing, cursor, next_locate_action(LocateEvent::ListFailed)),
        },
        LocateAction::NextEntry => match listing {
            Some(nodes) if 0 <= cursor + 1 < nodes.len() => course_end(
                listing,
                cursor + 1,
                next_locate_action(entry_event(nodes[cursor + 1])),
            ),
            _ => course_end(listing, cursor, next_locate_action(LocateEvent::End)),
        },
        LocateAction::Open => match listing {
            Some(nodes) => course_end(
                listing,
                cursor,
                next_locate_action(open_event(nodes[cursor])),
            ),
            None => course_end(listing, cursor, next_locate_action(LocateEvent::OpenFailed)),
        },
        LocateAction::Grab => match listing {
            Some(nodes) => course_end(
                listing,
                cursor,
                next_locate_action(grab_event(nodes[cursor])),
            ),
            None => course_end(listing, cursor, next_locate_action(LocateEvent::GrabFailed)),
        },
        LocateAction::SetNonBlocking => course_end(
            listing,
            cursor,
            next_locate_action(LocateEvent::NonBlocking),
        ),
    }
}

/// A search that has passed over the entries up to `cursor`, none of which
/// is the mouse, ends as [`search_outcome`] says.
proof fn rest_of_search_is_right(nodes: Seq<Node>, cursor: int)
    requires
        -1 <= cursor < nodes.len(),
        forall|i: int| 0 <= i <= cursor ==> !is_mouse(#[trigger] nodes[i]),
    ensures
        course_end(Some(nodes), cursor, LocateAction::NextEntry) == search_outcome(Some(nodes)),
    decreases nodes.len() - cursor,
{
    reveal_with_fuel(course_end, 6);
    let listing = Some(nodes);
    if cursor + 1 < nodes.len() {
        let node = nodes[cursor + 1];
        if is_mouse(node) {
            assert(is_first_mouse(nodes, cursor + 1));
            assert forall|p: int| is_first_mouse(nodes, p) implies p == cursor + 1 by {
                if p > cursor + 1 {
                    assert(!is_mouse(nodes[cursor + 1]));
                } else if p < cursor + 1 {
                    assert(!is_mouse(nodes[p]));
                }
            }
            assert(next_locate_action(entry_event(node)) == LocateAction::Open);
            assert(next_locate_action(open_event(node)) == LocateAction::Grab);
        } else {
            rest_of_search_is_right(nodes, cursor + 1);
            let first = next_locate_action(entry_event(node));
            if first == LocateAction::Open {
                assert(next_locate_action(open_event(node)) == LocateAction::NextEntry);
            } else {
                assert(first == LocateAction::NextEntry);
            }
        }
    } else {
        assert forall|p: int| !is_first_mouse(nodes, p) by {
            if 0 <= p < nodes.len() {
                assert(!is_mouse(nodes[p]));
            }
        }
    }
}

/// A search whose steps are decided by [`locate`] attaches the first entry
/// of the listing that is the mouse, fails with [`LocateError::Grab`] if
/// exclusive access to that entry is denied, with [`LocateError::NotFound`]
/// if no entry is the mouse, and with [`LocateError::Unlisted`] if the
/// directory cannot be listed.
pub proof fn search_attaches_the_first_mouse(listing: Option<Seq<Node>>)
    ensures
        course_end(listing, -1, next_locate_action(LocateEvent::Started)) == search_outcome(
            listing,
        ),
{
    reveal_with_fuel(course_end, 3);
    match listing {
        Some(nodes) => {
            rest_of_search_is_right(nodes, -1);
        },
        None => {},
    }
}

/// Decides the next step of a search from what the last step observed.
pub fn locate(event: &LocateEvent) -> (action: LocateAction)
    ensures
        action == next_locate_action(*event),
{
    match event {
        LocateEvent::Started => LocateAction::List,
        LocateEvent::Listed => LocateAction::NextEntry,
        LocateEvent::ListFailed => LocateAction::Fail(LocateError::Unlisted),
        LocateEvent::Entry { file_name } => {
            if names_event_node(file_name.as_str()) {
                LocateAction::Open
            } else {
                LocateAction::NextEntry
            }
        },
        LocateEvent::EntryUnreadable => LocateAction::NextEntry,
        LocateEvent::End => LocateAction::Fail(LocateError::NotFound),
        LocateEvent::Opened { identity } => {
            if identity.is_target() {
                LocateAction::Grab
            } else {
                LocateAction::NextEntry
            }
        },
        LocateEvent::OpenFailed => LocateAction::NextEntry,
        LocateEvent::Grabbed => LocateAction::SetNonBlocking,
        LocateEvent::GrabFailed => LocateAction::Fail(LocateError::Grab),
        LocateEvent::NonBlocking => LocateAction::Attach,
    }
}

} // verus!
