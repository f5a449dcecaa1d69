//! The mode dispatcher: a table from keys to action names, and the two mode
//! slots that a bound key arms.

use crate::text::same_text;
use std::collections::HashMap;
use vstd::prelude::*;

verus! {

broadcast use vstd::std_specs::hash::group_hash_axioms;

/// A key press as the terminal reports it.
#[derive(Clone, Copy, Debug, PartialEq, Eq, Structural, Hash)]
pub enum Key {
    Backspace,
    Left,
    Right,
    Up,
    Down,
    Home,
    End,
    PageUp,
    PageDown,
    BackTab,
    Delete,
    Insert,
    /// A function key, by its number.
    F(u8),
    /// A character typed as it is.
    Char(char),
    /// A character typed with Alt held down.
    Alt(char),
    /// A character typed with Ctrl held down.
    Ctrl(char),
    Null,
    Esc,
}

/// What the editor as a whole is asked to do.
#[derive(Clone, Copy, Debug, PartialEq, Eq, Structural, Hash)]
pub enum EditorMode {
    Read,
    Edit,
    Write,
    Quit,
    /// No editor mode: the last bound key asked for a cursor movement.
    Unset,
}

/// Where the cursor is asked to go.
#[derive(Clone, Copy, Debug, PartialEq, Eq, Structural, Hash)]
pub enum CursorMode {
    MoveLeft,
    MoveRight,
    HeadLine,
    TailLine,
    MoveDown,
    MoveForward,
    PageUp,
    PageDown,
    /// No cursor mode: no movement was asked for, or the last bound key
    /// asked for an editor mode.
    Unset,
}

/// The editor mode that an action name stands for, if it is one of the four.
pub open spec fn editor_mode_named(name: Seq<char>) -> Option<EditorMode> {
    if name == "Edit"@ {
        Some(EditorMode::Edit)
    } else if name == "Read"@ {
        Some(EditorMode::Read)
    } else if name == "Write"@ {
        Some(EditorMode::Write)
    } else if name == "Quit"@ {
        Some(EditorMode::Quit)
    } else {
        None
    }
}

/// The cursor mode that an action name stands for, if it is one of the eight.
pub open spec fn cursor_mode_named(name: Seq<char>) -> Option<CursorMode> {
    if name == "Move-Left"@ {
        Some(CursorMode::MoveLeft)
    } else if name == "Move-Right"@ {
        Some(CursorMode::MoveRight)
    } else if name == "Head-Line"@ {
        Some(CursorMode::HeadLine)
    } else if name == "Tail-Line"@ {
        Some(CursorMode::TailLine)
    } else if name == "Move-Down"@ {
        Some(CursorMode::MoveDown)
    } else if name == "Move-Forward"@ {
        Some(CursorMode::MoveForward)
    } else if name == "Page-Up"@ {
        Some(CursorMode::PageUp)
    } else if name == "Page-Down"@ {
        Some(CursorMode::PageDown)
    } else {
        None
    }
}

impl EditorMode {
    /// Reads an action name of the editor-mode vocabulary.
    pub fn from_name(name: &str) -> (mode: Option<EditorMode>)
        ensures
            mode == editor_mode_named(name@),
    {
        if same_text(name, "Edit") {
            Some(EditorMode::Edit)
        } else if same_text(name, "Read") {
            Some(EditorMode::Read)
        } else if same_text(name, "Write") {
            Some(EditorMode::Write)
        } else if same_text(name, "Quit") {
            Some(EditorMode::Quit)
        } else {
            None
        }
    }
}

impl CursorMode {
    /// Reads an action name of the cursor-mode vocabulary.
    pub fn from_name(name: &str) -> (mode: Option<CursorMode>)
        ensures
            mode == cursor_mode_named(name@),
    {
        if same_text(name, "Move-Left") {
            Some(CursorMode::MoveLeft)
        } else if same_text(name, "Move-Right") {
            Some(CursorMode::MoveRight)
        } else if same_text(name, "Head-Line") {
            Some(CursorMode::HeadLine)
        } else if same_text(name, "Tail-Line") {
            Some(CursorMode::TailLine)
        } else if same_text(name, "Move-Down") {
            Some(CursorMode::MoveDown)
        } else if same_text(name, "Move-Forward") {
            Some(CursorMode::MoveForward)
        } else if same_text(name, "Page-Up") {
            Some(CursorMode::PageUp)
        } else if same_text(name, "Page-Down") {
            Some(CursorMode::PageDown)
        } else {
            None
        }
    }
}

impl Key {
    /// A number that stands for the key: the kind of key in the upper half,
    /// the character or function key number in the lower half.
    closed spec fn spec_code(self) -> u64 {
        match self {
            Key::Backspace => 0x0_0000_0000u64,
            Key::Left => 0x1_0000_0000u64,
            Key::Right => 0x2_0000_0000u64,
            Key::Up => 0x3_0000_0000u64,
            Key::Down => 0x4_0000_0000u64,
            Key::Home => 0x5_0000_0000u64,
            Key::End => 0x6_0000_0000u64,
            Key::PageUp => 0x7_0000_0000u64,
            Key::PageDown => 0x8_0000_0000u64,
            Key::BackTab => 0x9_0000_0000u64,
            Key::Delete => 0xa_0000_0000u64,
            Key::Insert => 0xb_0000_0000u64,
            Key::F(n) => (0xc_0000_0000u64 + n) as u64,
            Key::Char(c) => (0xd_0000_0000u64 + c as u32) as u64,
            Key::Alt(c) => (0xe_0000_0000u64 + c as u32) as u64,
            Key::Ctrl(c) => (0xf_0000_0000u64 + c as u32) as u64,
            Key::Null => 0x10_0000_0000u64,
            Key::Esc => 0x11_0000_0000u64,
        }
    }

    fn code(&self) -> (code: u64)
        ensures
            code == self.spec_code(),
    {
        match *self {
            Key::Backspace => 0x0_0000_0000u64,
            Key::Left => 0x1_0000_0000u64,
            Key::Right => 0x2_0000_0000u64,
            Key::Up => 0x3_0000_0000u64,
            Key::Down => 0x4_0000_0000u64,
            Key::Home => 0x5_0000_0000u64,
            Key::End => 0x6_0000_0000u64,
            Key::PageUp => 0x7_0000_0000u64,
            Key::PageDown => 0x8_0000_0000u64,
            Key::BackTab => 0x9_0000_0000u64,
            Key::Delete => 0xa_0000_0000u64,
            Key::Insert => 0xb_0000_0000u64,
            Key::F(n) => 0xc_0000_0000u64 + n as u64,
            Key::Char(c) => 0xd_0000_0000u64 + c as u64,
            Key::Alt(c) => 0xe_0000_0000u64 + c as u64,
            Key::Ctrl(c) => 0xf_0000_0000u64 + c as u64,
            Key::Null => 0x10_0000_0000u64,
            Key::Esc => 0x11_0000_0000u64,
        }
    }

    /// Two keys with one code are one key.
    proof fn lemma_code_tells_keys_apart(self, other: Key)
        ensures
            self.spec_code() == other.spec_code() ==> self == other,
    {
    }
}

/// A table from keys to action names. Every key has at most one name.
pub struct KeyMap {
    names: HashMap<u64, String>,
}

impl View for KeyMap {
    type V = Map<Key, Seq<char>>;

    /// The action name of each key that is bound.
    closed spec fn view(&self) -> Map<Key, Seq<char>> {
        Map::new(
            |key: Key| self.names@.contains_key(key.spec_code()),
            |key: Key| self.names@[key.spec_code()]@,
        )
    }
}

impl Clone for KeyMap {
    /// A table with the same bindings.
    fn clone(&self) -> (table: Self)
        ensures
            table@ == self@,
    {
        let table = KeyMap { names: self.names.clone() };
        assert(table@ =~= self@);
        table
    }
}

impl KeyMap {
    /// The table that binds no key.
    pub fn new() -> (table: Self)
        ensures
            table@ == Map::<Key, Seq<char>>::empty(),
    {
        let table = KeyMap { names: HashMap::new() };
        assert(table@ =~= Map::<Key, Seq<char>>::empty());
        table
    }

    /// Binds `key` to `name`, in place of what it was bound to.
    pub fn insert(&mut self, key: Key, name: String)
        ensures
            final(self)@ == old(self)@.insert(key, name@),
    {
        self.names.insert(key.code(), name);
        proof {
            assert forall|other: Key| #[trigger]
                other.spec_code() == key.spec_code() implies other == key by {
                other.lemma_code_tells_keys_apart(key);
            }
            assert(self@ =~= old(self)@.insert(key, name@));
        }
    }

    /// Whether `key` is bound.
    pub fn contains_key(&self, key: &Key) -> (bound: bool)
        ensures
            bound == self@.contains_key(*key),
    {
        let code = key.code();
        self.names.contains_key(&code)
    }

    /// The action name that `key` is bound to.
    pub fn get(&self, key: &Key) -> (name: Option<&String>)
        ensures
            name.is_some() == self@.contains_key(*key),
            name.is_some() ==> name.unwrap()@ == self@[*key],
    {
        let code = key.code();
        self.names.get(&code)
    }
}

/// The bindings that a session starts with.
pub open spec fn default_bindings() -> Map<Key, Seq<char>> {
    Map::<Key, Seq<char>>::empty().insert(Key::Ctrl('e'), "Edit"@).insert(
        Key::Ctrl('r'),
        "Read"@,
    ).insert(Key::Ctrl('w'), "Write"@).insert(Key::Ctrl('q'), "Quit"@).insert(
        Key::Alt('j'),
        "Move-Left"@,
    ).insert(Key::Alt('k'), "Move-Right"@).insert(Key::Alt('h'), "Head-Line"@).insert(
        Key::Alt('l'),
        "Tail-Line"@,
    ).insert(Key::Alt('d'), "Move-Down"@).insert(Key::Alt('f'), "Move-Forward"@).insert(
        Key::Alt('v'),
        "Page-Up"@,
    ).insert(Key::Alt('n'), "Page-Down"@)
}

/// The editor slot after `key` was pressed: armed with the editor mode that
/// the key is bound to, cleared where the key is bound to a cursor mode, and
/// as it was for any other key.
pub open spec fn editor_slot_after(
    bindings: Map<Key, Seq<char>>,
    slot: (EditorMode, bool),
    key: Key,
) -> (EditorMode, bool) {
    if !bindings.contains_key(key) {
        slot
    } else if let Some(mode) = editor_mode_named(bindings[key]) {
        (mode, true)
    } else if cursor_mode_named(bindings[key]).is_some() {
        (EditorMode::Unset, false)
    } else {
        slot
    }
}

/// The cursor slot after `key` was pressed: cleared where the key is bound
/// to an editor mode, armed with the cursor mode that the key is bound to,
/// and as it was for any other key.
pub open spec fn cursor_slot_after(
    bindings: Map<Key, Seq<char>>,
    slot: (CursorMode, bool),
    key: Key,
) -> (CursorMode, bool) {
    if !bindings.contains_key(key) {
        slot
    } else if editor_mode_named(bindings[key]).is_some() {
        (CursorMode::Unset, false)
    } else if let Some(mode) = cursor_mode_named(bindings[key]) {
        (mode, true)
    } else {
        slot
    }
}

/// The two mode slots, each with its armed flag, and the key table.
///
/// A slot is armed by the key press that sets it; whoever acts on an armed
/// slot disarms it before the next key is read.
pub struct Modes {
    pub editor_mode: (EditorMode, bool),
    pub cursor_mode: (CursorMode, bool),
    pub editor_key_maps: KeyMap,
}

impl Clone for Modes {
    /// The same slots and a table with the same bindings.
    fn clone(&self) -> (modes: Self)
        ensures
            modes.editor_mode == self.editor_mode,
            modes.cursor_mode == self.cursor_mode,
            modes.editor_key_maps@ == self.editor_key_maps@,
    {
        Modes {
            editor_mode: self.editor_mode,
            cursor_mode: self.cursor_mode,
            editor_key_maps: self.editor_key_maps.clone(),
        }
    }
}

impl Modes {
    /// At most one of the two slots is armed.
    pub open spec fn exclusive(&self) -> bool {
        !(self.editor_mode.1 && self.cursor_mode.1)
    }

    /// The state that a session starts in: reading, no movement asked for,
    /// nothing armed, and the default bindings.
    pub fn default() -> (modes: Self)
        ensures
            modes.editor_mode == (EditorMode::Read, false),
            modes.cursor_mode == (CursorMode::Unset, false),
            modes.editor_key_maps@ == default_bindings(),
    {
        let mut initial_key_map = KeyMap::new();

        initial_key_map.insert(Key::Ctrl('e'), String::from_str("Edit"));
        initial_key_map.insert(Key::Ctrl('r'), String::from_str("Read"));
        initial_key_map.insert(Key::Ctrl('w'), String::from_str("Write"));
        initial_key_map.insert(Key::Ctrl('q'), String::from_str("Quit"));

        initial_key_map.insert(Key::Alt('j'), String::from_str("Move-Left"));
        initial_key_map.insert(Key::Alt('k'), String::from_str("Move-Right"));
        initial_key_map.insert(Key::Alt('h'), String::from_str("Head-Line"));
        initial_key_map.insert(Key::Alt('l'), String::from_str("Tail-Line"));

        initial_key_map.insert(Key::Alt('d'), String::from_str("Move-Down"));
        initial_key_map.insert(Key::Alt('f'), String::from_str("Move-Forward"));

        initial_key_map.insert(Key::Alt('v'), String::from_str("Page-Up"));
        initial_key_map.insert(Key::Alt('n'), String::from_str("Page-Down"));

        Modes {
            editor_mode: (EditorMode::Read, false),
            cursor_mode: (CursorMode::Unset, false),
            editor_key_maps: initial_key_map,
        }
    }

    /// Whether `key` is bound to an action name.
    pub fn check_key_in_map(&self, key: &Key) -> (bound: bool)
        ensures
            bound == self.editor_key_maps@.contains_key(*key),
    {
        self.editor_key_maps.contains_key(key)
    }

    /// The action name that `key` is bound to.
    pub fn get_value_from_map(&self, key: &Key) -> (name: Option<&String>)
        ensures
            name.is_some() == self.editor_key_maps@.contains_key(*key),
            name.is_some() ==> name.unwrap()@ == self.editor_key_maps@[*key],
    {
        if self.check_key_in_map(key) {
            self.editor_key_maps.get(key)
        } else {
            None
        }
    }

    /// The editor slot: the mode and whether it is armed.
    pub fn get_editor_mode(&self) -> (slot: (EditorMode, bool))
        ensures
            slot == self.editor_mode,
    {
        self.editor_mode
    }

    /// The cursor slot: the mode and whether it is armed.
    pub fn get_cursor_mode(&self) -> (slot: (CursorMode, bool))
        ensures
            slot == self.cursor_mode,
    {
        self.cursor_mode
    }

    /// Sets the editor slot and leaves the rest as it is.
    pub fn set_editor_mode(&mut self, mode: EditorMode, flag: bool)
        ensures
            final(self).editor_mode == (mode, flag),
            final(self).cursor_mode == old(self).cursor_mode,
            final(self).editor_key_maps == old(self).editor_key_maps,
    {
        self.editor_mode = (mode, flag);
    }

    /// Sets the cursor slot and leaves the rest as it is.
    pub fn set_cursor_mode(&mut self, mode: CursorMode, flag: bool)
        ensures
            final(self).cursor_mode == (mode, flag),
            final(self).editor_mode == old(self).editor_mode,
            final(self).editor_key_maps == old(self).editor_key_maps,
    {
        self.cursor_mode = (mode, flag);
    }

    /// Takes a key press. A key bound to an editor mode arms the editor slot
    /// with it and clears the cursor slot; a key bound to a cursor mode arms
    /// the cursor slot with it and clears the editor slot. Any other key
    /// changes nothing: it is left for the caller to take as text.
    pub fn process_hashmap_key_press(&mut self, key: &Key)
        ensures
            final(self).editor_mode == editor_slot_after(
                old(self).editor_key_maps@,
                old(self).editor_mode,
                *key,
            ),
            final(self).cursor_mode == cursor_slot_after(
                old(self).editor_key_maps@,
                old(self).cursor_mode,
                *key,
            ),
            final(self).editor_key_maps == old(self).editor_key_maps,
            old(self).exclusive() ==> final(self).exclusive(),
            old(self).editor_key_maps@.contains_key(*key) && (editor_mode_named(
                old(self).editor_key_maps@[*key],
            ).is_some() || cursor_mode_named(old(self).editor_key_maps@[*key]).is_some())
                ==> final(self).exclusive(),
    {
        let mut editor_mode: Option<EditorMode> = None;
        let mut cursor_mode: Option<CursorMode> = None;
        match self.get_value_from_map(key) {
            Some(name) => {
                editor_mode = EditorMode::from_name(name.as_str());
                cursor_mode = CursorMode::from_name(name.as_str());
            },
            None => {},
        }
        if let Some(mode) = editor_mode {
            self.set_editor_mode(mode, true);
            self.set_cursor_mode(CursorMode::Unset, false);
        } else if let Some(mode) = cursor_mode {
            self.set_cursor_mode(mode, true);
            self.set_editor_mode(EditorMode::Unset, false);
        }
    }
}

} // verus!
