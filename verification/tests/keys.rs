use simplesql::keys::{
    help_text, key_name, shortcuts, AlternativeShortcut, Key, KeyPress, Modifiers, Shortcut,
    SHORTCUT_COUNT,
};

fn mods(shift: bool, control: bool, alt: bool) -> Modifiers {
    Modifiers { shift, control, alt, super_key: false, hyper: false, meta: false }
}

#[test]
fn key_names() {
    assert_eq!(key_name(Key::F(1)), "F1");
    assert_eq!(key_name(Key::F(12)), "F12");
    assert_eq!(key_name(Key::F(255)), "F255");
    assert_eq!(key_name(Key::Char('c')), "c");
    assert_eq!(key_name(Key::Char('\u{e4}')), "\u{e4}");
    assert_eq!(key_name(Key::Enter), "Enter");
    assert_eq!(key_name(Key::Esc), "Esc");
    assert_eq!(key_name(Key::Tab), "Tab");
    assert_eq!(key_name(Key::Backspace), "Backspace");
    assert_eq!(key_name(Key::Left), "Left");
    assert_eq!(key_name(Key::Right), "Right");
    assert_eq!(key_name(Key::Up), "Up");
    assert_eq!(key_name(Key::Down), "Down");
    assert_eq!(key_name(Key::Other), "Other");
    for key in [Key::Delete, Key::Home, Key::End, Key::PageUp, Key::PageDown] {
        assert_eq!(key_name(key), "Other");
    }
}

#[test]
fn alternative_shortcut_strings() {
    let a = AlternativeShortcut { key: Key::Char('c'), modifiers: Some(Modifiers::control()) };
    assert_eq!(a.to_string(), "Ctrl+c");
    assert_eq!(a.as_str(), "Ctrl+c");
    let b = AlternativeShortcut { key: Key::F(5), modifiers: None };
    assert_eq!(b.to_string(), "F5");
    let c = AlternativeShortcut { key: Key::Enter, modifiers: Some(mods(true, true, true)) };
    assert_eq!(c.to_string(), "Ctrl+Alt+Shift+Enter");
    let d = AlternativeShortcut { key: Key::Tab, modifiers: Some(mods(true, false, true)) };
    assert_eq!(d.to_string(), "Alt+Shift+Tab");
    let e = AlternativeShortcut { key: Key::Up, modifiers: Some(Modifiers::none()) };
    assert_eq!(e.to_string(), "Up");
    let f = AlternativeShortcut {
        key: Key::Down,
        modifiers: Some(Modifiers {
            shift: false,
            control: false,
            alt: false,
            super_key: true,
            hyper: true,
            meta: true,
        }),
    };
    assert_eq!(f.to_string(), "Down");
}

#[test]
fn shortcut_strings() {
    let plain = Shortcut {
        key: Key::F(1),
        modifiers: None,
        description: "Toggle Help Popup",
        alternative_shortcut: None,
    };
    assert_eq!(plain.to_string(), "F1 - Toggle Help Popup");
    assert_eq!(plain.as_str(), "F1 - Toggle Help Popup");
    let quit = Shortcut {
        key: Key::F(12),
        modifiers: None,
        description: "Quit",
        alternative_shortcut: Some(vec![
            AlternativeShortcut { key: Key::Char('c'), modifiers: Some(Modifiers::control()) },
            AlternativeShortcut { key: Key::Char('d'), modifiers: Some(Modifiers::control()) },
        ]),
    };
    assert_eq!(quit.to_string(), "F12 (Ctrl+c / Ctrl+d) - Quit");
    let modified = Shortcut {
        key: Key::Char('s'),
        modifiers: Some(mods(true, true, false)),
        description: "Save",
        alternative_shortcut: Some(vec![]),
    };
    assert_eq!(modified.to_string(), "Ctrl+Shift+s () - Save");
}

#[test]
fn shortcut_table_contents() {
    let table = shortcuts();
    assert_eq!(table.len(), SHORTCUT_COUNT);
    assert_eq!(table.len(), 8);
    let lines: Vec<String> = table.iter().map(|s| s.to_string()).collect();
    assert_eq!(
        lines,
        vec![
            "F1 - Toggle Help Popup",
            "F2 - Select Tab",
            "F3 - Input the Databasename for the Connection to the Database",
            "F4 - Select User for the Connection to the Database",
            "F5 - Query the Database",
            "F8 - Export the SQL Statement to a File",
            "F9 - Import a SQL Statement from a File",
            "F12 (Ctrl+c / Ctrl+d) - Quit",
        ]
    );
}

#[test]
fn help_text_has_one_line_per_shortcut() {
    let table = shortcuts();
    let text = help_text(&table);
    assert_eq!(text.lines().count(), 8);
    assert!(text.starts_with("F1 - Toggle Help Popup\nF2 - Select Tab\n"));
    assert!(text.ends_with("F12 (Ctrl+c / Ctrl+d) - Quit\n"));
    assert_eq!(help_text(&Vec::new()), "");
}

#[test]
fn quit_chord_needs_control_alone() {
    assert!(KeyPress::with_control(Key::Char('c')).quit_chord());
    assert!(KeyPress::with_control(Key::Char('d')).quit_chord());
    assert!(!KeyPress::with_control(Key::Char('x')).quit_chord());
    assert!(!KeyPress::plain(Key::Char('c')).quit_chord());
    assert!(!KeyPress { key: Key::Char('c'), modifiers: mods(true, true, false) }.quit_chord());
    assert!(!KeyPress { key: Key::Char('c'), modifiers: mods(false, true, true) }.quit_chord());
    assert!(!KeyPress::with_control(Key::F(12)).quit_chord());
    assert!(KeyPress::with_control(Key::F(12)).quit_key());
    assert!(KeyPress::plain(Key::F(12)).quit_key());
    assert!(!KeyPress::plain(Key::F(11)).quit_key());
}
