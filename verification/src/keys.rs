//! Keys, modifier keys and the table of keyboard shortcuts that the help
//! overlay lists.

use vstd::prelude::*;
use vstd::string::*;
use crate::text::{decimal, decimal_string, join, join_strings, leak_string, push_char};

verus! {

/// A key of the keyboard, as far as the workbench tells keys apart.
#[derive(Clone, Copy, Debug, PartialEq, Eq, Structural)]
pub enum Key {
    /// A function key, `F(1)` for F1.
    F(u8),
    /// A key that types a character.
    Char(char),
    Enter,
    Esc,
    Tab,
    Backspace,
    Left,
    Right,
    Up,
    Down,
    Delete,
    Home,
    End,
    PageUp,
    PageDown,
    /// Any other key.
    Other,
}

/// The modifier keys held down together with a key.
#[derive(Clone, Copy, Debug, PartialEq, Eq, Structural)]
pub struct Modifiers {
    pub shift: bool,
    pub control: bool,
    pub alt: bool,
    pub super_key: bool,
    pub hyper: bool,
    pub meta: bool,
}

impl Modifiers {
    /// No modifier key is held.
    pub open spec fn none_held() -> Modifiers {
        Modifiers {
            shift: false,
            control: false,
            alt: false,
            super_key: false,
            hyper: false,
            meta: false,
        }
    }

    /// No modifier key is held.
    pub fn none() -> (r: Modifiers)
        ensures
            r == Modifiers::none_held(),
    {
        Modifiers {
            shift: false,
            control: false,
            alt: false,
            super_key: false,
            hyper: false,
            meta: false,
        }
    }

    /// Control is held, and nothing else.
    pub fn control() -> (r: Modifiers)
        ensures
            r == ctrl(),
            r.is_control_only(),
    {
        Modifiers {
            shift: false,
            control: true,
            alt: false,
            super_key: false,
            hyper: false,
            meta: false,
        }
    }

    /// Whether Control is the one modifier held.
    pub open spec fn is_control_only(self) -> bool {
        self.control && !self.shift && !self.alt && !self.super_key && !self.hyper && !self.meta
    }

    /// Whether Control is the one modifier held.
    pub fn control_only(&self) -> (r: bool)
        ensures
            r == self.is_control_only(),
    {
        self.control && !self.shift && !self.alt && !self.super_key && !self.hyper && !self.meta
    }
}

/// A key pressed together with the modifiers that were held.
#[derive(Clone, Copy, Debug, PartialEq, Eq, Structural)]
pub struct KeyPress {
    pub key: Key,
    pub modifiers: Modifiers,
}

/// What the terminal reported in one tick of the loop.
#[derive(Clone, Copy, Debug, PartialEq, Eq, Structural)]
pub enum InputEvent {
    /// A key was pressed.
    Key(KeyPress),
    /// The mouse was moved, clicked or scrolled.
    Mouse,
    /// Anything else, such as a change of the terminal's size.
    Other,
}

/// Whether a key press is the interrupt chord: Ctrl+c or Ctrl+d, with no
/// other modifier held.
pub open spec fn is_quit_chord(press: KeyPress) -> bool {
    press.modifiers.is_control_only() && (press.key == Key::Char('c') || press.key == Key::Char(
        'd',
    ))
}

/// Whether a key press is the quit key, F12, whatever modifiers are held.
pub open spec fn is_quit_key(press: KeyPress) -> bool {
    press.key == Key::F(12)
}

/// Whether a key moves the cursor of a text input and types nothing.
pub open spec fn is_cursor_key(key: Key) -> bool {
    is_arrow(key) || key == Key::Home || key == Key::End || key == Key::PageUp || key
        == Key::PageDown
}

/// Whether a key is one of the four arrow keys.
pub open spec fn is_arrow(key: Key) -> bool {
    key == Key::Up || key == Key::Down || key == Key::Left || key == Key::Right
}

impl KeyPress {
    /// A key pressed with no modifier held.
    pub fn plain(key: Key) -> (r: KeyPress)
        ensures
            r.key == key,
            r.modifiers == Modifiers::none_held(),
    {
        KeyPress { key, modifiers: Modifiers::none() }
    }

    /// A key pressed with Control held, and nothing else.
    pub fn with_control(key: Key) -> (r: KeyPress)
        ensures
            r.key == key,
            r.modifiers == ctrl(),
    {
        KeyPress { key, modifiers: Modifiers::control() }
    }

    /// Whether the key press is the interrupt chord.
    pub fn quit_chord(&self) -> (r: bool)
        ensures
            r == is_quit_chord(*self),
    {
        self.modifiers.control_only() && (self.key == Key::Char('c') || self.key == Key::Char('d'))
    }

    /// Whether the key press is the quit key.
    pub fn quit_key(&self) -> (r: bool)
        ensures
            r == is_quit_key(*self),
    {
        self.key == Key::F(12)
    }
}

/// The name under which the help overlay shows a key. Keys that the help
/// overlay has no name for are shown as `Other`.
pub open spec fn key_label(key: Key) -> Seq<char> {
    match key {
        Key::F(n) => "F"@ + decimal(n as nat),
        Key::Char(c) => seq![c],
        Key::Enter => "Enter"@,
        Key::Esc => "Esc"@,
        Key::Tab => "Tab"@,
        Key::Backspace => "Backspace"@,
        Key::Left => "Left"@,
        Key::Right => "Right"@,
        Key::Up => "Up"@,
        Key::Down => "Down"@,
        _ => "Other"@,
    }
}

/// The names of the modifiers that a shortcut shows, in the order Ctrl, Alt,
/// Shift. Other modifiers are not shown.
pub open spec fn modifier_labels(m: Modifiers) -> Seq<Seq<char>> {
    let ctrl = if m.control {
        seq!["Ctrl"@]
    } else {
        Seq::<Seq<char>>::empty()
    };
    let alt = if m.alt {
        seq!["Alt"@]
    } else {
        Seq::<Seq<char>>::empty()
    };
    let shift = if m.shift {
        seq!["Shift"@]
    } else {
        Seq::<Seq<char>>::empty()
    };
    ctrl + alt + shift
}

/// A key with its modifiers, written as `Ctrl+Alt+Shift+key`.
pub open spec fn chord_label(key: Key, modifiers: Option<Modifiers>) -> Seq<char> {
    match modifiers {
        Some(m) => join(modifier_labels(m).push(key_label(key)), "+"@),
        None => key_label(key),
    }
}

/// Writes the name of a key.
pub fn key_name(key: Key) -> (r: String)
    ensures
        r@ == key_label(key),
{
    match key {
        Key::F(n) => {
            let mut s = "F".to_owned();
            let digits = decimal_string(n as u64);
            s.append(digits.as_str());
            s
        },
        Key::Char(c) => {
            let mut s = String::new();
            push_char(&mut s, c);
            s
        },
        Key::Enter => "Enter".to_owned(),
        Key::Esc => "Esc".to_owned(),
        Key::Tab => "Tab".to_owned(),
        Key::Backspace => "Backspace".to_owned(),
        Key::Left => "Left".to_owned(),
        Key::Right => "Right".to_owned(),
        Key::Up => "Up".to_owned(),
        Key::Down => "Down".to_owned(),
        _ => "Other".to_owned(),
    }
}

/// Writes the names of the modifiers that a shortcut shows.
fn modifier_names(m: Modifiers) -> (r: Vec<String>)
    ensures
        r.deep_view() == modifier_labels(m),
{
    let mut parts: Vec<String> = Vec::new();
    if m.control {
        parts.push("Ctrl".to_owned());
    }
    if m.alt {
        parts.push("Alt".to_owned());
    }
    if m.shift {
        parts.push("Shift".to_owned());
    }
    parts
}

/// Writes a key with its modifiers.
fn chord_name(key: Key, modifiers: Option<Modifiers>) -> (r: String)
    ensures
        r@ == chord_label(key, modifiers),
{
    match modifiers {
        Some(m) => {
            let mut parts = modifier_names(m);
            let ghost before = parts.deep_view();
            parts.push(key_name(key));
            assert(parts.deep_view() =~= before.push(key_label(key)));
            join_strings(&parts, "+")
        },
        None => key_name(key),
    }
}

/// A second key combination that does what a shortcut does.
#[derive(Clone, Copy, Debug)]
pub struct AlternativeShortcut {
    pub key: Key,
    pub modifiers: Option<Modifiers>,
}

impl AlternativeShortcut {
    /// The combination as the help overlay shows it.
    pub open spec fn label(&self) -> Seq<char> {
        chord_label(self.key, self.modifiers)
    }

    /// Writes the combination as the help overlay shows it, such as `Ctrl+c`.
    pub fn to_string(&self) -> (r: String)
        ensures
            r@ == self.label(),
    {
        chord_name(self.key, self.modifiers)
    }

    /// The same text with the static lifetime.
    pub fn as_str(&self) -> (r: &'static str)
        ensures
            r@ == self.label(),
    {
        leak_string(self.to_string())
    }
}

/// The labels of a list of alternative combinations.
pub open spec fn alternative_labels(alts: Seq<AlternativeShortcut>) -> Seq<Seq<char>> {
    Seq::new(alts.len(), |i: int| alts[i].label())
}

/// A keyboard shortcut with the description that the help overlay shows.
#[derive(Debug)]
pub struct Shortcut {
    pub key: Key,
    pub modifiers: Option<Modifiers>,
    pub description: &'static str,
    pub alternative_shortcut: Option<Vec<AlternativeShortcut>>,
}

impl Shortcut {
    /// The key combinations of the shortcut: the main one, then the
    /// alternatives in brackets, separated by ` / `.
    pub open spec fn combinations(&self) -> Seq<char> {
        match self.alternative_shortcut {
            Some(alts) => chord_label(self.key, self.modifiers) + " ("@ + join(
                alternative_labels(alts@),
                " / "@,
            ) + ")"@,
            None => chord_label(self.key, self.modifiers),
        }
    }

    /// The line of the help overlay for this shortcut.
    pub open spec fn label(&self) -> Seq<char> {
        self.combinations() + " - "@ + self.description@
    }

    /// Writes the line of the help overlay for this shortcut, such as
    /// `F12 (Ctrl+c / Ctrl+d) - Quit`.
    pub fn to_string(&self) -> (r: String)
        ensures
            r@ == self.label(),
    {
        let mut shortcut = chord_name(self.key, self.modifiers);
        match &self.alternative_shortcut {
            Some(alts) => {
                let mut names: Vec<String> = Vec::new();
                let mut i: usize = 0;
                while i < alts.len()
                    invariant
                        i <= alts.len(),
                        names.deep_view() =~= alternative_labels(alts@).take(i as int),
                    decreases alts.len() - i,
                {
                    let ghost before = names.deep_view();
                    names.push(alts[i].to_string());
                    assert(names.deep_view() =~= before.push(alts[i as int].label()));
                    i = i + 1;
                }
                assert(alternative_labels(alts@).take(alts.len() as int) =~= alternative_labels(
                    alts@,
                ));
                let joined = join_strings(&names, " / ");
                shortcut.append(" (");
                shortcut.append(joined.as_str());
                shortcut.append(")");
            },
            None => {},
        }
        shortcut.append(" - ");
        shortcut.append(self.description);
        shortcut
    }

    /// The same text with the static lifetime.
    pub fn as_str(&self) -> (r: &'static str)
        ensures
            r@ == self.label(),
    {
        leak_string(self.to_string())
    }
}

/// The number of shortcuts that the workbench declares.
pub const SHORTCUT_COUNT: usize = 8;

/// Whether `table` is the list of shortcuts of the workbench, in the order
/// in which the help overlay shows them.
pub open spec fn is_shortcut_table(table: Seq<Shortcut>) -> bool {
    &&& table.len() == SHORTCUT_COUNT
    &&& forall|i: int| 0 <= i < table.len() ==> (#[trigger] table[i]).modifiers is None
    &&& forall|i: int|
        0 <= i < 7 ==> (#[trigger] table[i]).alternative_shortcut is None
    &&& table[0].key == Key::F(1)
    &&& table[0].description@ == "Toggle Help Popup"@
    &&& table[1].key == Key::F(2)
    &&& table[1].description@ == "Select Tab"@
    &&& table[2].key == Key::F(3)
    &&& table[2].description@ == "Input the Databasename for the Connection to the Database"@
    &&& table[3].key == Key::F(4)
    &&& table[3].description@ == "Select User for the Connection to the Database"@
    &&& table[4].key == Key::F(5)
    &&& table[4].description@ == "Query the Database"@
    &&& table[5].key == Key::F(8)
    &&& table[5].description@ == "Export the SQL Statement to a File"@
    &&& table[6].key == Key::F(9)
    &&& table[6].description@ == "Import a SQL Statement from a File"@
    &&& table[7].key == Key::F(12)
    &&& table[7].description@ == "Quit"@
    &&& table[7].alternative_shortcut matches Some(alts) && alts@ == seq![
        AlternativeShortcut { key: Key::Char('c'), modifiers: Some(ctrl()) },
        AlternativeShortcut { key: Key::Char('d'), modifiers: Some(ctrl()) },
    ]
}

/// Control held alone.
pub open spec fn ctrl() -> Modifiers {
    Modifiers {
        shift: false,
        control: true,
        alt: false,
        super_key: false,
        hyper: false,
        meta: false,
    }
}

/// A shortcut of one unmodified key without alternatives.
fn plain_shortcut(key: Key, description: &'static str) -> (r: Shortcut)
    ensures
        r.key == key,
        r.modifiers is None,
        r.description@ == description@,
        r.alternative_shortcut is None,
{
    Shortcut { key, modifiers: None, description, alternative_shortcut: None }
}

/// The shortcuts of the workbench, in the order in which the help overlay
/// shows them.
pub fn shortcuts() -> (r: Vec<Shortcut>)
    ensures
        is_shortcut_table(r@),
{
    let mut alts: Vec<AlternativeShortcut> = Vec::new();
    alts.push(AlternativeShortcut { key: Key::Char('c'), modifiers: Some(Modifiers::control()) });
    alts.push(AlternativeShortcut { key: Key::Char('d'), modifiers: Some(Modifiers::control()) });
    assert(alts@ =~= seq![
        AlternativeShortcut { key: Key::Char('c'), modifiers: Some(ctrl()) },
        AlternativeShortcut { key: Key::Char('d'), modifiers: Some(ctrl()) },
    ]);
    let mut table: Vec<Shortcut> = Vec::new();
    table.push(plain_shortcut(Key::F(1), "Toggle Help Popup"));
    table.push(plain_shortcut(Key::F(2), "Select Tab"));
    table.push(
        plain_shortcut(Key::F(3), "Input the Databasename for the Connection to the Database"),
    );
    table.push(plain_shortcut(Key::F(4), "Select User for the Connection to the Database"));
    table.push(plain_shortcut(Key::F(5), "Query the Database"));
    table.push(plain_shortcut(Key::F(8), "Export the SQL Statement to a File"));
    table.push(plain_shortcut(Key::F(9), "Import a SQL Statement from a File"));
    table.push(
        Shortcut {
            key: Key::F(12),
            modifiers: None,
            description: "Quit",
            alternative_shortcut: Some(alts),
        },
    );
    table
}

/// The lines of `table`, each followed by a line break.
pub open spec fn help_lines(table: Seq<Shortcut>) -> Seq<char>
    decreases table.len(),
{
    if table.len() == 0 {
        Seq::empty()
    } else {
        help_lines(table.drop_last()) + table.last().label() + "\n"@
    }
}

/// Writes the text of the help overlay: one line for each shortcut of
/// `table`, in order.
pub fn help_text(table: &Vec<Shortcut>) -> (r: String)
    ensures
        r@ == help_lines(table@),
{
    let mut out = String::new();
    let mut i: usize = 0;
    while i < table.len()
        invariant
            i <= table.len(),
            out@ == help_lines(table@.take(i as int)),
        decreases table.len() - i,
    {
        proof {
            assert(table@.take(i + 1).drop_last() =~= table@.take(i as int));
        }
        let line = table[i].to_string();
        out.append(line.as_str());
        out.append("\n");
        i = i + 1;
    }
    proof {
        assert(table@.take(table.len() as int) =~= table@);
    }
    out
}

} // verus!
