//! The key mapping table: twelve slots, one per side button.
//!
//! A table is built in, or described by a configuration that gives keys to
//! buttons by their labels. Keys are known by the names that the virtual
//! keyboard has for them.

use vstd::prelude::*;
use vstd::string::*;
use crate::text::same_text;

verus! {

/// Number of side buttons, and so of slots in a [`KeyMapper`].
pub const BUTTONS: usize = 12;

/// A keyboard key, identified by its Linux input key code.
#[derive(Clone, Copy, Debug, PartialEq, Eq, Hash, Structural)]
pub struct Key {
    pub code: u16,
}

/// One line of a configuration: the label of a button and the key it is to send.
#[derive(Clone, Debug)]
pub struct ConfigEntry {
    pub label: String,
    pub key: Key,
}

/// One line of a written configuration: the label of a button and the name
/// of the key it is to send.
#[derive(Clone, Debug)]
pub struct ConfigLine {
    pub label: String,
    pub key_name: String,
}

/// Why a configuration was turned down.
#[derive(Clone, Copy, Debug, PartialEq, Eq, Structural)]
pub enum ConfigError {
    /// The entry at this position carries a label that names no button.
    UnknownLabel { position: usize },
    /// The line at this position carries a name that no key has.
    UnknownKey { position: usize },
}

/// Upper bound on the rows of the key table that a search by name looks at.
pub const KEY_TABLE_LIMIT: usize = 1024;

/// Row `index` of the key table of the virtual keyboard: the name of a key
/// and its key code, or nothing where the table has no such row.
pub uninterp spec fn keyboard_key(index: int) -> Option<(Seq<char>, u16)>;

/// A row of the key table with its name as a sequence of characters.
pub open spec fn row_view(row: Option<(String, u16)>) -> Option<(Seq<char>, u16)> {
    match row {
        Some(r) => Some((r.0@, r.1)),
        None => None,
    }
}

/// Row `index` of the key table of the virtual keyboard.
///
/// Calls `uinput::event::keyboard::Key::iter_variants`, which yields the
/// keys of the main block of the keyboard in the order of their declaration,
/// and takes the key at `index`. The row holds the key's name, as its `Debug`
/// form prints it, and its code, as `uinput::event::Code::code` gives it.
/// Both depend on the index alone.
#[verifier::external_body]
fn keyboard_key_at(index: usize) -> (row: Option<(String, u16)>)
    ensures
        row_view(row) == keyboard_key(index as int),
{
    match uinput::event::keyboard::Key::iter_variants().nth(index) {
        Some(key) => Some((format!("{:?}", key), uinput::event::Code::code(&key) as u16)),
        None => None,
    }
}

/// The key that the rows of the key table from `start` on give to a name:
/// that of the first row so named. The search ends at the first missing row
/// and at [`KEY_TABLE_LIMIT`].
pub open spec fn key_named_from(name: Seq<char>, start: int) -> Option<Key>
    decreases KEY_TABLE_LIMIT - start,
{
    if start < 0 || start >= KEY_TABLE_LIMIT {
        None
    } else {
        match keyboard_key(start) {
            None => None,
            Some(row) => if row.0 == name {
                Some(Key { code: row.1 })
            } else {
                key_named_from(name, start + 1)
            },
        }
    }
}

/// The key with the given name, if the key table has one.
pub open spec fn key_named(name: Seq<char>) -> Option<Key> {
    key_named_from(name, 0)
}

impl Key {
    /// The key that a single row of the key table gives to `name`: the key
    /// of the row if the row carries that name, none otherwise.
    pub fn from_row(row: &(String, u16), name: &str) -> (key: Option<Key>)
        ensures
            key == (if row.0@ == name@ {
                Some(Key { code: row.1 })
            } else {
                None
            }),
    {
        if same_text(row.0.as_str(), name) {
            Some(Key { code: row.1 })
        } else {
            None
        }
    }

    /// The key with the given name, if the virtual keyboard has one.
    pub fn from_name(name: &str) -> (key: Option<Key>)
        ensures
            key == key_named(name@),
    {
        let mut index: usize = 0;
        while index < KEY_TABLE_LIMIT
            invariant
                index <= KEY_TABLE_LIMIT,
                key_named(name@) == key_named_from(name@, index as int),
            decreases KEY_TABLE_LIMIT - index,
        {
            match keyboard_key_at(index) {
                None => {
                    return None;
                },
                Some(row) => {
                    let found = Key::from_row(&row, name);
                    if found.is_some() {
                        return found;
                    }
                },
            }
            index += 1;
        }
        None
    }
}

/// Maps each side button, by its index 0..=11, to the key it stands for.
///
/// Slot `i` belongs to the physical button `i + 1`. A slot may be empty.
#[derive(Clone, Copy, Debug, PartialEq, Eq)]
pub struct KeyMapper {
    keys: [Option<Key>; 12],
}

impl View for KeyMapper {
    type V = Seq<Option<Key>>;

    closed spec fn view(&self) -> Seq<Option<Key>> {
        self.keys@
    }
}

/// The character printed on the button with the given index: the digits
/// `1` to `9`, then `0`, `-` and `=`, as on the top row of a keyboard.
pub open spec fn label_char(index: int) -> char {
    if index == 0 {
        '1'
    } else if index == 1 {
        '2'
    } else if index == 2 {
        '3'
    } else if index == 3 {
        '4'
    } else if index == 4 {
        '5'
    } else if index == 5 {
        '6'
    } else if index == 6 {
        '7'
    } else if index == 7 {
        '8'
    } else if index == 8 {
        '9'
    } else if index == 9 {
        '0'
    } else if index == 10 {
        '-'
    } else {
        '='
    }
}

/// The label of the button with the given index: its character alone.
pub open spec fn label_text(index: int) -> Seq<char> {
    seq![label_char(index)]
}

/// The index of the button that a label names, if it names one.
pub open spec fn label_index(label: Seq<char>) -> Option<int> {
    if exists|i: int| 0 <= i < BUTTONS as int && label == #[trigger] label_text(i) {
        Some(choose|i: int| 0 <= i < BUTTONS as int && label == #[trigger] label_text(i))
    } else {
        None
    }
}

/// The key that a configuration gives to the button with the given index:
/// that of the last entry that names the button, none if no entry does.
pub open spec fn configured(entries: Seq<ConfigEntry>, index: int) -> Option<Key>
    decreases entries.len(),
{
    if entries.len() == 0 {
        None
    } else if label_index(entries.last().label@) == Some(index) {
        Some(entries.last().key)
    } else {
        configured(entries.drop_last(), index)
    }
}

/// Whether every entry of a configuration names a button.
pub open spec fn all_labels_known(entries: Seq<ConfigEntry>) -> bool {
    forall|p: int| 0 <= p < entries.len() ==> (#[trigger] label_index(entries[p].label@)) is Some
}

/// Whether `position` is the first entry of a configuration that names no button.
pub open spec fn is_first_unknown(entries: Seq<ConfigEntry>, position: int) -> bool {
    &&& 0 <= position < entries.len()
    &&& label_index(entries[position].label@) is None
    &&& forall|p: int| 0 <= p < position ==> (#[trigger] label_index(entries[p].label@)) is Some
}

/// The table in which button `i` sends the key with code `i + 2`: the keys
/// `1` to `9`, `0`, minus and equals.
pub open spec fn default_keys() -> Seq<Option<Key>> {
    Seq::new(BUTTONS as nat, |i: int| Some(Key { code: (i + 2) as u16 }))
}

/// The labels of two different buttons differ, so a label names at most one button.
pub proof fn label_names_one_button(index: int)
    requires
        0 <= index < BUTTONS as int,
    ensures
        label_index(label_text(index)) == Some(index),
{
    let label = label_text(index);
    assert(label == label_text(index));
    let chosen = choose|i: int| 0 <= i < BUTTONS as int && label == #[trigger] label_text(i);
    assert(label_text(chosen)[0] == label[0]);
}

/// The table in which no button has a key.
pub open spec fn no_keys() -> Seq<Option<Key>> {
    Seq::new(BUTTONS as nat, |i: int| None)
}

/// What a configuration amounts to: the table it describes if every label
/// names a button, the first entry that names none otherwise.
pub open spec fn parsed(entries: Seq<ConfigEntry>) -> Result<Seq<Option<Key>>, ConfigError> {
    if all_labels_known(entries) {
        Ok(Seq::new(BUTTONS as nat, |i: int| configured(entries, i)))
    } else {
        Err(
            ConfigError::UnknownLabel {
                position: (choose|p: int| is_first_unknown(entries, p)) as usize,
            },
        )
    }
}

/// A configuration in which some label names no button has a first entry
/// whose label names none, at or before any such entry.
pub proof fn first_unknown_exists(entries: Seq<ConfigEntry>, position: int)
    requires
        0 <= position < entries.len(),
        label_index(entries[position].label@) is None,
    ensures
        exists|p: int| #[trigger] is_first_unknown(entries, p) && p <= position,
    decreases position,
{
    if exists|q: int| 0 <= q < position && (#[trigger] label_index(entries[q].label@)) is None {
        let q = choose|q: int|
            0 <= q < position && (#[trigger] label_index(entries[q].label@)) is None;
        first_unknown_exists(entries, q);
    } else {
        assert(is_first_unknown(entries, position));
    }
}

/// A configuration has at most one first entry that names no button, and if
/// it has one, not all of its labels are known.
pub proof fn first_unknown_is_unique(entries: Seq<ConfigEntry>, position: int)
    requires
        is_first_unknown(entries, position),
    ensures
        !all_labels_known(entries),
        forall|p: int| is_first_unknown(entries, p) ==> p == position,
{
    assert forall|p: int| is_first_unknown(entries, p) implies p == position by {
        if p < position {
            assert(label_index(entries[p].label@) is Some);
        } else if position < p {
            assert(label_index(entries[position].label@) is Some);
        }
    }
}

/// A configuration whose entries all name the same button maps that button
/// to the key of its last entry and leaves every other button empty.
pub proof fn lone_label_maps_its_button_alone(entries: Seq<ConfigEntry>, index: int)
    requires
        0 <= index < BUTTONS as int,
        entries.len() > 0,
        forall|p: int| 0 <= p < entries.len() ==> (#[trigger] entries[p]).label@ == label_text(index),
    ensures
        parsed(entries) == Ok::<Seq<Option<Key>>, ConfigError>(
            no_keys().update(index, Some(entries.last().key)),
        ),
    decreases entries.len(),
{
    label_names_one_button(index);
    assert(all_labels_known(entries)) by {
        assert forall|p: int| 0 <= p < entries.len() implies (#[trigger] label_index(
            entries[p].label@,
        )) is Some by {
            assert(entries[p].label@ == label_text(index));
        }
    }
    assert forall|i: int| 0 <= i < BUTTONS as int && i != index implies configured(entries, i)
        is None by {
        others_stay_empty(entries, index, i);
    }
    assert(entries.last().label@ == label_text(index));
    assert(Seq::new(BUTTONS as nat, |i: int| configured(entries, i)) =~= no_keys().update(
        index,
        Some(entries.last().key),
    ));
}

/// Entries that all name one button give no key to another.
proof fn others_stay_empty(entries: Seq<ConfigEntry>, index: int, other: int)
    requires
        0 <= index < BUTTONS as int,
        other != index,
        forall|p: int| 0 <= p < entries.len() ==> (#[trigger] entries[p]).label@ == label_text(index),
    ensures
        configured(entries, other) is None,
    decreases entries.len(),
{
    if entries.len() > 0 {
        label_names_one_button(index);
        assert(entries.last().label@ == label_text(index));
        others_stay_empty(entries.drop_last(), index, other);
    }
}

/// A configuration in which some label names no button is turned down, and
/// the error tells the first entry whose label names none.
pub proof fn unknown_label_is_turned_down(entries: Seq<ConfigEntry>, position: int)
    requires
        0 <= position < entries.len() <= usize::MAX,
        label_index(entries[position].label@) is None,
    ensures
        parsed(entries) matches Err(ConfigError::UnknownLabel { position: first })
            && is_first_unknown(entries, first as int) && first <= position,
{
    first_unknown_exists(entries, position);
    let first = choose|p: int| is_first_unknown(entries, p);
    assert(is_first_unknown(entries, first));
    first_unknown_is_unique(entries, first);
    assert(first as usize as int == first);
}

/// The empty configuration is in order and describes the table without keys.
pub proof fn empty_configuration_maps_nothing()
    ensures
        parsed(Seq::<ConfigEntry>::empty()) == Ok::<Seq<Option<Key>>, ConfigError>(no_keys()),
{
    let entries = Seq::<ConfigEntry>::empty();
    assert(Seq::new(BUTTONS as nat, |i: int| configured(entries, i)) =~= no_keys());
}

/// Whether every line of a written configuration names a key.
pub open spec fn all_keys_known(lines: Seq<ConfigLine>) -> bool {
    forall|p: int| 0 <= p < lines.len() ==> (#[trigger] key_named(lines[p].key_name@)) is Some
}

/// Whether `position` is the first line of a written configuration that
/// names no key.
pub open spec fn is_first_unknown_key(lines: Seq<ConfigLine>, position: int) -> bool {
    &&& 0 <= position < lines.len()
    &&& key_named(lines[position].key_name@) is None
    &&& forall|p: int| 0 <= p < position ==> (#[trigger] key_named(lines[p].key_name@)) is Some
}

/// The entries that the lines of a written configuration stand for, each
/// key name replaced by its key.
pub open spec fn resolved(lines: Seq<ConfigLine>) -> Seq<ConfigEntry> {
    Seq::new(
        lines.len(),
        |p: int| ConfigEntry { label: lines[p].label, key: key_named(lines[p].key_name@).unwrap() },
    )
}

/// What a written configuration amounts to: what its entries amount to if
/// every line names a key, the first line that names none otherwise.
pub open spec fn parsed_lines(lines: Seq<ConfigLine>) -> Result<Seq<Option<Key>>, ConfigError> {
    if all_keys_known(lines) {
        parsed(resolved(lines))
    } else {
        Err(
            ConfigError::UnknownKey {
                position: (choose|p: int| is_first_unknown_key(lines, p)) as usize,
            },
        )
    }
}

/// A written configuration in which some line names no key has a first line
/// that names none, at or before any such line.
pub proof fn first_unknown_key_exists(lines: Seq<ConfigLine>, position: int)
    requires
        0 <= position < lines.len(),
        key_named(lines[position].key_name@) is None,
    ensures
        exists|p: int| #[trigger] is_first_unknown_key(lines, p) && p <= position,
    decreases position,
{
    if exists|q: int| 0 <= q < position && (#[trigger] key_named(lines[q].key_name@)) is None {
        let q = choose|q: int| 0 <= q < position && (#[trigger] key_named(lines[q].key_name@)) is None;
        first_unknown_key_exists(lines, q);
    } else {
        assert(is_first_unknown_key(lines, position));
    }
}

/// A written configuration in which some line names no key is turned down,
/// and the error tells the first line that names none.
pub proof fn unknown_key_is_turned_down(lines: Seq<ConfigLine>, position: int)
    requires
        0 <= position < lines.len() <= usize::MAX,
        key_named(lines[position].key_name@) is None,
    ensures
        parsed_lines(lines) matches Err(ConfigError::UnknownKey { position: first })
            && is_first_unknown_key(lines, first as int) && first <= position,
{
    first_unknown_key_exists(lines, position);
    let first = choose|p: int| is_first_unknown_key(lines, p);
    assert(is_first_unknown_key(lines, first));
    first_unknown_key_is_unique(lines, first);
    assert(first as usize as int == first);
}

/// A written configuration has at most one first line that names no key,
/// and if it has one, not all of its key names are known.
pub proof fn first_unknown_key_is_unique(lines: Seq<ConfigLine>, position: int)
    requires
        is_first_unknown_key(lines, position),
    ensures
        !all_keys_known(lines),
        forall|p: int| is_first_unknown_key(lines, p) ==> p == position,
{
    assert forall|p: int| is_first_unknown_key(lines, p) implies p == position by {
        if p < position {
            assert(key_named(lines[p].key_name@) is Some);
        } else if position < p {
            assert(key_named(lines[position].key_name@) is Some);
        }
    }
}

/// A written configuration whose lines all carry the label of one button
/// and name keys maps that button to the key that its last line names, and
/// leaves every other button empty.
pub proof fn lone_label_line_maps_its_button_alone(lines: Seq<ConfigLine>, index: int)
    requires
        0 <= index < BUTTONS as int,
        lines.len() > 0,
        all_keys_known(lines),
        forall|p: int| 0 <= p < lines.len() ==> (#[trigger] lines[p]).label@ == label_text(index),
    ensures
        parsed_lines(lines) == Ok::<Seq<Option<Key>>, ConfigError>(
            no_keys().update(index, key_named(lines.last().key_name@)),
        ),
{
    let entries = resolved(lines);
    assert forall|p: int| 0 <= p < entries.len() implies (#[trigger] entries[p]).label@
        == label_text(index) by {
        assert(lines[p].label@ == label_text(index));
    }
    lone_label_maps_its_button_alone(entries, index);
    assert(key_named(lines.last().key_name@) is Some);
}

/// A written configuration in which some label names no button is turned
/// down, whatever keys its lines name.
pub proof fn unknown_label_line_is_turned_down(lines: Seq<ConfigLine>, position: int)
    requires
        0 <= position < lines.len() <= usize::MAX,
        label_index(lines[position].label@) is None,
    ensures
        parsed_lines(lines) is Err,
{
    if all_keys_known(lines) {
        unknown_label_is_turned_down(resolved(lines), position);
    }
}

/// The empty written configuration is in order and describes the table
/// without keys.
pub proof fn empty_written_configuration_maps_nothing()
    ensures
        parsed_lines(Seq::<ConfigLine>::empty()) == Ok::<Seq<Option<Key>>, ConfigError>(no_keys()),
{
    empty_configuration_maps_nothing();
    assert(resolved(Seq::<ConfigLine>::empty()) =~= Seq::<ConfigEntry>::empty());
}

/// Decides [`label_index`] for a label.
pub fn button_of_label(label: &str) -> (index: Option<usize>)
    ensures
        match index {
            Some(i) => label_index(label@) == Some(i as int),
            None => label_index(label@) is None,
        },
{
    if label.unicode_len() != 1 {
        assert forall|i: int| 0 <= i < BUTTONS as int implies label@ != #[trigger] label_text(i) by {
            assert(label_text(i).len() == 1);
        }
        return None;
    }
    let c = label.get_char(0);
    let found: Option<usize> = if c == '1' {
        Some(0)
    } else if c == '2' {
        Some(1)
    } else if c == '3' {
        Some(2)
    } else if c == '4' {
        Some(3)
    } else if c == '5' {
        Some(4)
    } else if c == '6' {
        Some(5)
    } else if c == '7' {
        Some(6)
    } else if c == '8' {
        Some(7)
    } else if c == '9' {
        Some(8)
    } else if c == '0' {
        Some(9)
    } else if c == '-' {
        Some(10)
    } else if c == '=' {
        Some(11)
    } else {
        None
    };
    proof {
        match found {
            Some(i) => {
                assert(label@ =~= label_text(i as int));
                label_names_one_button(i as int);
            },
            None => {
                assert forall|i: int| 0 <= i < BUTTONS as int implies label@ != #[trigger] label_text(i) by {
                    assert(label_text(i)[0] == label_char(i));
                }
            },
        }
    }
    found
}

impl KeyMapper {
    /// What the table answers for `index`: the slot's content inside the
    /// table, no mapping outside it.
    pub open spec fn spec_lookup(&self, index: int) -> Option<Key> {
        if 0 <= index < BUTTONS as int {
            self@[index]
        } else {
            None
        }
    }

    /// A table has exactly twelve slots.
    pub proof fn has_twelve_slots(&self)
        ensures
            self@.len() == BUTTONS,
    {
    }

    /// The key mapped to the button with the given index, if any. An index
    /// outside the table has no mapping.
    pub fn lookup(&self, index: usize) -> (key: Option<Key>)
        ensures
            key == self.spec_lookup(index as int),
    {
        if index < BUTTONS {
            self.keys[index]
        } else {
            None
        }
    }

    /// The table that maps no button.
    pub fn empty() -> (mapper: KeyMapper)
        ensures
            mapper@ == no_keys(),
    {
        let mapper = KeyMapper {
            keys: [None, None, None, None, None, None, None, None, None, None, None, None],
        };
        assert(mapper@ =~= no_keys());
        mapper
    }

    /// Builds the table that a configuration describes.
    ///
    /// Each entry gives its key to the button that its label names; of two
    /// entries for one button the later one counts. Buttons that no entry
    /// names stay empty. The configuration is turned down as a whole if one
    /// of its labels names no button; the error tells the first such entry.
    pub fn from_entries(entries: &Vec<ConfigEntry>) -> (result: Result<KeyMapper, ConfigError>)
        ensures
            match result {
                Ok(mapper) => parsed(entries@) == Ok::<Seq<Option<Key>>, ConfigError>(mapper@),
                Err(error) => parsed(entries@) == Err::<Seq<Option<Key>>, ConfigError>(error),
            },
    {
        let mut mapper = KeyMapper::empty();
        let mut position: usize = 0;
        while position < entries.len()
            invariant
                position <= entries.len(),
                mapper@.len() == BUTTONS,
                forall|p: int| 0 <= p < position ==> (#[trigger] label_index(entries@[p].label@)) is Some,
                forall|i: int| 0 <= i < BUTTONS as int ==> mapper@[i] == configured(entries@.take(position as int), i),
            decreases entries.len() - position,
        {
            let entry = &entries[position];
            match button_of_label(entry.label.as_str()) {
                None => {
                    proof {
                        first_unknown_is_unique(entries@, position as int);
                        let first = choose|p: int| is_first_unknown(entries@, p);
                        assert(is_first_unknown(entries@, first));
                        assert(first == position);
                    }
                    return Err(ConfigError::UnknownLabel { position });
                },
                Some(index) => {
                    proof {
                        let before = entries@.take(position as int);
                        let after = entries@.take(position + 1);
                        assert(after.drop_last() =~= before);
                        assert(after.last() == entries@[position as int]);
                    }
                    mapper.keys[index] = Some(entry.key);
                },
            }
            position += 1;
        }
        assert(entries@.take(position as int) =~= entries@);
        assert(mapper@ =~= Seq::new(BUTTONS as nat, |i: int| configured(entries@, i)));
        Ok(mapper)
    }

    /// Builds the table that a written configuration describes.
    ///
    /// Every key name is replaced by its key, and the table is then built as
    /// [`KeyMapper::from_entries`] builds it. The configuration is turned
    /// down as a whole if one of its lines names no key, and the error tells
    /// the first such line; a label that names no button is found only after
    /// that.
    pub fn from_lines(lines: &Vec<ConfigLine>) -> (result: Result<KeyMapper, ConfigError>)
        ensures
            match result {
                Ok(mapper) => parsed_lines(lines@) == Ok::<Seq<Option<Key>>, ConfigError>(mapper@),
                Err(error) => parsed_lines(lines@) == Err::<Seq<Option<Key>>, ConfigError>(error),
            },
    {
        let mut entries: Vec<ConfigEntry> = Vec::new();
        let mut position: usize = 0;
        while position < lines.len()
            invariant
                position <= lines.len(),
                entries@.len() == position,
                forall|p: int| 0 <= p < position ==> (#[trigger] key_named(lines@[p].key_name@)) is Some,
                forall|p: int| 0 <= p < position ==> (#[trigger] entries@[p]) == resolved(lines@)[p],
            decreases lines.len() - position,
        {
            let line = &lines[position];
            match Key::from_name(line.key_name.as_str()) {
                None => {
                    proof {
                        first_unknown_key_is_unique(lines@, position as int);
                        let first = choose|p: int| is_first_unknown_key(lines@, p);
                        assert(is_first_unknown_key(lines@, first));
                        assert(first == position);
                    }
                    return Err(ConfigError::UnknownKey { position });
                },
                Some(key) => {
                    entries.push(ConfigEntry { label: line.label.clone(), key });
                },
            }
            position += 1;
        }
        assert(entries@ =~= resolved(lines@));
        KeyMapper::from_entries(&entries)
    }
}

impl Default for KeyMapper {
    /// The built-in table: the buttons send the keys printed on them.
    fn default() -> (mapper: KeyMapper)
        ensures
            mapper@ == default_keys(),
    {
        let mapper = KeyMapper {
            keys: [
                Some(Key { code: 2 }),
                Some(Key { code: 3 }),
                Some(Key { code: 4 }),
                Some(Key { code: 5 }),
                Some(Key { code: 6 }),
                Some(Key { code: 7 }),
                Some(Key { code: 8 }),
                Some(Key { code: 9 }),
                Some(Key { code: 10 }),
                Some(Key { code: 11 }),
                Some(Key { code: 12 }),
                Some(Key { code: 13 }),
            ],
        };
        assert(mapper@ =~= default_keys());
        mapper
    }
}

} // verus!
