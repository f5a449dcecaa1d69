use text_editor::modes::{CursorMode, EditorMode, Key, KeyMap, Modes};

#[test]
fn default_modes_start_reading_with_nothing_armed() {
    let modes = Modes::default();
    assert_eq!(modes.get_editor_mode(), (EditorMode::Read, false));
    assert_eq!(modes.get_cursor_mode(), (CursorMode::Unset, false));
}

#[test]
fn default_bindings_are_the_twelve_keys() {
    let modes = Modes::default();
    let expected = [
        (Key::Ctrl('e'), "Edit"),
        (Key::Ctrl('r'), "Read"),
        (Key::Ctrl('w'), "Write"),
        (Key::Ctrl('q'), "Quit"),
        (Key::Alt('j'), "Move-Left"),
        (Key::Alt('k'), "Move-Right"),
        (Key::Alt('h'), "Head-Line"),
        (Key::Alt('l'), "Tail-Line"),
        (Key::Alt('d'), "Move-Down"),
        (Key::Alt('f'), "Move-Forward"),
        (Key::Alt('v'), "Page-Up"),
        (Key::Alt('n'), "Page-Down"),
    ];
    for (key, name) in expected {
        assert!(modes.check_key_in_map(&key));
        assert_eq!(modes.get_value_from_map(&key), Some(&String::from(name)));
    }
}

#[test]
fn keys_that_are_not_bound_have_no_value() {
    let modes = Modes::default();
    for key in [
        Key::Char('e'),
        Key::Alt('e'),
        Key::Ctrl('j'),
        Key::Ctrl('E'),
        Key::Backspace,
        Key::Esc,
        Key::F(1),
        Key::Null,
        Key::Left,
    ] {
        assert!(!modes.check_key_in_map(&key));
        assert_eq!(modes.get_value_from_map(&key), None);
    }
}

#[test]
fn edit_then_move_left_arms_only_the_cursor_mode() {
    let mut modes = Modes::default();
    modes.process_hashmap_key_press(&Key::Ctrl('e'));
    assert_eq!(modes.get_editor_mode(), (EditorMode::Edit, true));
    assert_eq!(modes.get_cursor_mode(), (CursorMode::Unset, false));
    modes.process_hashmap_key_press(&Key::Alt('j'));
    assert_eq!(modes.get_cursor_mode(), (CursorMode::MoveLeft, true));
    assert_eq!(modes.get_editor_mode(), (EditorMode::Unset, false));
}

#[test]
fn every_bound_key_arms_exactly_one_slot() {
    let editor_keys = [
        (Key::Ctrl('e'), EditorMode::Edit),
        (Key::Ctrl('r'), EditorMode::Read),
        (Key::Ctrl('w'), EditorMode::Write),
        (Key::Ctrl('q'), EditorMode::Quit),
    ];
    let cursor_keys = [
        (Key::Alt('j'), CursorMode::MoveLeft),
        (Key::Alt('k'), CursorMode::MoveRight),
        (Key::Alt('h'), CursorMode::HeadLine),
        (Key::Alt('l'), CursorMode::TailLine),
        (Key::Alt('d'), CursorMode::MoveDown),
        (Key::Alt('f'), CursorMode::MoveForward),
        (Key::Alt('v'), CursorMode::PageUp),
        (Key::Alt('n'), CursorMode::PageDown),
    ];
    let mut modes = Modes::default();
    for (cursor_key, cursor_mode) in cursor_keys {
        for (editor_key, editor_mode) in editor_keys {
            modes.process_hashmap_key_press(&editor_key);
            assert_eq!(modes.get_editor_mode(), (editor_mode, true));
            assert_eq!(modes.get_cursor_mode(), (CursorMode::Unset, false));
            modes.process_hashmap_key_press(&cursor_key);
            assert_eq!(modes.get_cursor_mode(), (cursor_mode, true));
            assert_eq!(modes.get_editor_mode(), (EditorMode::Unset, false));
        }
    }
}

#[test]
fn unbound_key_changes_nothing() {
    let mut modes = Modes::default();
    modes.process_hashmap_key_press(&Key::Char('x'));
    assert_eq!(modes.get_editor_mode(), (EditorMode::Read, false));
    assert_eq!(modes.get_cursor_mode(), (CursorMode::Unset, false));
    modes.process_hashmap_key_press(&Key::Ctrl('w'));
    modes.process_hashmap_key_press(&Key::Char('x'));
    modes.process_hashmap_key_press(&Key::Backspace);
    assert_eq!(modes.get_editor_mode(), (EditorMode::Write, true));
    assert_eq!(modes.get_cursor_mode(), (CursorMode::Unset, false));
}

#[test]
fn key_bound_to_an_unknown_name_changes_nothing() {
    let mut modes = Modes::default();
    modes.editor_key_maps.insert(Key::F(5), String::from("Reload"));
    modes.editor_key_maps.insert(Key::F(6), String::from("None"));
    modes.editor_key_maps.insert(Key::F(7), String::from("edit"));
    modes.process_hashmap_key_press(&Key::Alt('n'));
    for key in [Key::F(5), Key::F(6), Key::F(7)] {
        assert!(modes.check_key_in_map(&key));
        modes.process_hashmap_key_press(&key);
        assert_eq!(modes.get_cursor_mode(), (CursorMode::PageDown, true));
        assert_eq!(modes.get_editor_mode(), (EditorMode::Unset, false));
    }
}

#[test]
fn setters_set_their_own_slot_only() {
    let mut modes = Modes::default();
    modes.set_editor_mode(EditorMode::Quit, true);
    assert_eq!(modes.get_editor_mode(), (EditorMode::Quit, true));
    assert_eq!(modes.get_cursor_mode(), (CursorMode::Unset, false));
    modes.set_cursor_mode(CursorMode::PageUp, false);
    assert_eq!(modes.get_editor_mode(), (EditorMode::Quit, true));
    assert_eq!(modes.get_cursor_mode(), (CursorMode::PageUp, false));
    assert!(modes.check_key_in_map(&Key::Ctrl('e')));
}

#[test]
fn mode_names_are_read_exactly() {
    assert_eq!(EditorMode::from_name("Edit"), Some(EditorMode::Edit));
    assert_eq!(EditorMode::from_name("Read"), Some(EditorMode::Read));
    assert_eq!(EditorMode::from_name("Write"), Some(EditorMode::Write));
    assert_eq!(EditorMode::from_name("Quit"), Some(EditorMode::Quit));
    assert_eq!(EditorMode::from_name("quit"), None);
    assert_eq!(EditorMode::from_name("None"), None);
    assert_eq!(EditorMode::from_name(""), None);
    assert_eq!(EditorMode::from_name("Move-Left"), None);
    assert_eq!(CursorMode::from_name("Move-Left"), Some(CursorMode::MoveLeft));
    assert_eq!(CursorMode::from_name("Move-Right"), Some(CursorMode::MoveRight));
    assert_eq!(CursorMode::from_name("Head-Line"), Some(CursorMode::HeadLine));
    assert_eq!(CursorMode::from_name("Tail-Line"), Some(CursorMode::TailLine));
    assert_eq!(CursorMode::from_name("Move-Down"), Some(CursorMode::MoveDown));
    assert_eq!(CursorMode::from_name("Move-Forward"), Some(CursorMode::MoveForward));
    assert_eq!(CursorMode::from_name("Page-Up"), Some(CursorMode::PageUp));
    assert_eq!(CursorMode::from_name("Page-Down"), Some(CursorMode::PageDown));
    assert_eq!(CursorMode::from_name("MoveLeft"), None);
    assert_eq!(CursorMode::from_name("Edit"), None);
    assert_eq!(CursorMode::from_name(""), None);
}

#[test]
fn key_map_binds_and_rebinds() {
    let mut table = KeyMap::new();
    assert!(!table.contains_key(&Key::Char('a')));
    assert_eq!(table.get(&Key::Char('a')), None);
    table.insert(Key::Char('a'), String::from("Edit"));
    table.insert(Key::Alt('a'), String::from("Quit"));
    assert_eq!(table.get(&Key::Char('a')), Some(&String::from("Edit")));
    assert_eq!(table.get(&Key::Alt('a')), Some(&String::from("Quit")));
    assert!(!table.contains_key(&Key::Ctrl('a')));
    table.insert(Key::Char('a'), String::from("Read"));
    assert_eq!(table.get(&Key::Char('a')), Some(&String::from("Read")));
    assert_eq!(table.get(&Key::Alt('a')), Some(&String::from("Quit")));
}

#[test]
fn key_map_tells_all_keys_apart() {
    let keys = [
        Key::Backspace,
        Key::Left,
        Key::Right,
        Key::Up,
        Key::Down,
        Key::Home,
        Key::End,
        Key::PageUp,
        Key::PageDown,
        Key::BackTab,
        Key::Delete,
        Key::Insert,
        Key::F(0),
        Key::F(1),
        Key::F(255),
        Key::Char('\0'),
        Key::Char('a'),
        Key::Char('\u{10ffff}'),
        Key::Alt('\0'),
        Key::Alt('a'),
        Key::Alt('\u{10ffff}'),
        Key::Ctrl('\0'),
        Key::Ctrl('a'),
        Key::Ctrl('\u{10ffff}'),
        Key::Null,
        Key::Esc,
    ];
    let mut table = KeyMap::new();
    for (index, key) in keys.iter().enumerate() {
        assert!(!table.contains_key(key));
        table.insert(*key, format!("{}", index));
    }
    for (index, key) in keys.iter().enumerate() {
        assert_eq!(table.get(key), Some(&format!("{}", index)));
    }
}

#[test]
fn clone_keeps_slots_and_bindings() {
    let mut modes = Modes::default();
    modes.process_hashmap_key_press(&Key::Alt('n'));
    modes.editor_key_maps.insert(Key::F(2), String::from("Quit"));
    let mut copy = modes.clone();
    assert_eq!(copy.get_editor_mode(), (EditorMode::Unset, false));
    assert_eq!(copy.get_cursor_mode(), (CursorMode::PageDown, true));
    assert_eq!(copy.get_value_from_map(&Key::F(2)), Some(&String::from("Quit")));
    assert_eq!(copy.get_value_from_map(&Key::Ctrl('e')), Some(&String::from("Edit")));
    copy.process_hashmap_key_press(&Key::F(2));
    assert_eq!(copy.get_editor_mode(), (EditorMode::Quit, true));
    assert_eq!(modes.get_cursor_mode(), (CursorMode::PageDown, true));
}
