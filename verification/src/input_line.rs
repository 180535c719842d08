//! The text inputs of the workbench: the input line of the database name
//! and the input line of the file dialog.

use vstd::prelude::*;
use vstd::string::*;
use crate::keys::{is_cursor_key, Key, KeyPress};
use crate::text::{join, join_strings};

verus! {

/// A text input: lines of text and a cursor in them.
///
/// Trusted: the text and the cursor are kept by a `tui_textarea::TextArea`,
/// which also does the editing.
#[verifier::external_body]
#[derive(Debug)]
pub struct InputLine {
    area: tui_textarea::TextArea<'static>,
}

/// The lines of text that an input holds.
pub uninterp spec fn input_lines(input: InputLine) -> Seq<Seq<char>>;

/// The cursor of an input: the line it is on, and the number of characters
/// of that line in front of it, both counted from 0.
pub uninterp spec fn input_cursor(input: InputLine) -> (nat, nat);

/// Whether a selection is under way in an input: whether part of its text is
/// marked, from where the selection began to the cursor.
pub uninterp spec fn input_selecting(input: InputLine) -> bool;

/// What an input holds: its lines and its cursor.
pub struct InputLineView {
    pub lines: Seq<Seq<char>>,
    pub cursor: (nat, nat),
}

impl InputLineView {
    /// The text of the input: its lines with a line break between each two.
    pub open spec fn text(self) -> Seq<char> {
        join(self.lines, "\n"@)
    }

    /// The input that holds `text` as its one line, the cursor at `column`.
    pub open spec fn of_line(text: Seq<char>, column: nat) -> InputLineView {
        InputLineView { lines: seq![text], cursor: (0, column) }
    }

    /// The cursor stands on a line of the input, in that line or behind its
    /// last character.
    pub open spec fn cursor_in_text(self) -> bool {
        self.cursor.0 < self.lines.len() && self.cursor.1 <= self.lines[self.cursor.0 as int].len()
    }

    /// The input after `c` was typed at the cursor: the character stands in
    /// the line of the cursor where the cursor stood, and the cursor stands
    /// behind it.
    pub open spec fn with_typed(self, c: char) -> InputLineView {
        InputLineView {
            lines: self.lines.update(
                self.cursor.0 as int,
                self.lines[self.cursor.0 as int].insert(self.cursor.1 as int, c),
            ),
            cursor: (self.cursor.0, self.cursor.1 + 1),
        }
    }
}

/// The character that a key press types: that of a character key pressed
/// without Ctrl and without Alt, unless it is a line break or a carriage
/// return.
pub open spec fn typed_character(press: KeyPress) -> Option<char> {
    match press.key {
        Key::Char(c) => if !press.modifiers.control && !press.modifiers.alt && c != '\n' && c
            != '\r' {
            Some(c)
        } else {
            None
        },
        _ => None,
    }
}

/// Whether an input takes a typed character as it comes: no selection is
/// under way, and the cursor stands in the text.
pub open spec fn takes_characters(input: InputLine) -> bool {
    !input_selecting(input) && input@.cursor_in_text()
}

/// Whether a key means nothing to an input: the F keys, Esc, and the keys
/// without a name of their own.
pub open spec fn is_unbound_key(key: Key) -> bool {
    key is F || key == Key::Esc || key == Key::Other
}

impl View for InputLine {
    type V = InputLineView;

    open spec fn view(&self) -> InputLineView {
        InputLineView { lines: input_lines(*self), cursor: input_cursor(*self) }
    }
}

/// Makes an input that holds one line.
///
/// Trusted: calls `TextArea::new` with the one line, which keeps the lines
/// it is given as they are, puts the cursor at the start of the first, and
/// starts without a selection.
#[verifier::external_body]
fn area_of_line(line: String) -> (input: InputLine)
    ensures
        input_lines(input) == seq![line@],
        input_cursor(input) == (0nat, 0nat),
        !input_selecting(input),
{
    InputLine { area: tui_textarea::TextArea::new(vec![line]) }
}

/// Copies the lines of an input.
///
/// Trusted: calls `TextArea::lines`, which hands out the lines that the
/// text area holds.
#[verifier::external_body]
fn area_lines(input: &InputLine) -> (lines: Vec<String>)
    ensures
        lines.deep_view() == input_lines(*input),
{
    input.area.lines().to_vec()
}

/// Reads the cursor of an input.
///
/// Trusted: calls `TextArea::cursor`, which gives the line of the cursor and
/// its column in characters, both from 0.
#[verifier::external_body]
fn area_cursor(input: &InputLine) -> (cursor: (usize, usize))
    ensures
        (cursor.0 as nat, cursor.1 as nat) == input_cursor(*input),
{
    input.area.cursor()
}

/// Moves the cursor of an input behind the last character of its line.
///
/// Trusted: calls `TextArea::move_cursor` with `CursorMove::End`, which
/// leaves the text as it is and puts the cursor on the same line behind as
/// many characters as the line has. A selection that is under way goes on,
/// and none begins.
#[verifier::external_body]
fn area_to_end(input: &mut InputLine)
    ensures
        input_lines(*final(input)) == input_lines(*old(input)),
        input_selecting(*final(input)) == input_selecting(*old(input)),
        input_cursor(*final(input)) == (
            input_cursor(*old(input)).0,
            input_lines(*old(input))[input_cursor(*old(input)).0 as int].len(),
        ),
{
    input.area.move_cursor(tui_textarea::CursorMove::End)
}

/// Hands a key that edits to an input.
///
/// Trusted: calls `TextArea::input` with the key and the Ctrl, Alt and Shift
/// modifiers. Two things are claimed of it. A character key without Ctrl
/// and Alt, but for the line break and the carriage return, goes to
/// `TextArea::insert_char`: where no selection is under way, the character
/// is put into the line of the cursor at the cursor's column, the cursor
/// moves one column on, and still no selection is under way. The F keys, Esc
/// and the null key match no key binding of the text area, which then
/// changes nothing. What every other key does is the text area's matter;
/// nothing is claimed of it.
#[verifier::external_body]
fn area_edit(input: &mut InputLine, press: KeyPress)
    ensures
        typed_character(press) matches Some(c) ==> (takes_characters(*old(input))
            ==> final(input)@ == old(input)@.with_typed(c)
            && !input_selecting(*final(input))),
        is_unbound_key(press.key) ==> final(input)@ == old(input)@ && input_selecting(*final(input))
            == input_selecting(*old(input)),
{
    let key = match press.key {
        Key::Char(c) => tui_textarea::Key::Char(c),
        Key::F(n) => tui_textarea::Key::F(n),
        Key::Backspace => tui_textarea::Key::Backspace,
        Key::Delete => tui_textarea::Key::Delete,
        Key::Enter => tui_textarea::Key::Enter,
        Key::Tab => tui_textarea::Key::Tab,
        Key::Esc => tui_textarea::Key::Esc,
        _ => tui_textarea::Key::Null,
    };
    let held = press.modifiers;
    input.area.input(tui_textarea::Input { key, ctrl: held.control, alt: held.alt, shift: held.shift });
}

/// Hands a key that moves the cursor to an input.
///
/// Trusted: calls `TextArea::input` with the key and the Ctrl, Alt and Shift
/// modifiers. For the arrow keys, Home, End, PageUp and PageDown the text
/// area moves its cursor, its selection or its scroll position, whatever
/// modifiers are held, and leaves its lines as they are. Where the cursor
/// goes is the text area's matter; nothing is claimed of it.
#[verifier::external_body]
fn area_move(input: &mut InputLine, press: KeyPress)
    ensures
        input_lines(*final(input)) == input_lines(*old(input)),
{
    let key = match press.key {
        Key::Left => tui_textarea::Key::Left,
        Key::Right => tui_textarea::Key::Right,
        Key::Up => tui_textarea::Key::Up,
        Key::Down => tui_textarea::Key::Down,
        Key::Home => tui_textarea::Key::Home,
        Key::End => tui_textarea::Key::End,
        Key::PageUp => tui_textarea::Key::PageUp,
        Key::PageDown => tui_textarea::Key::PageDown,
        _ => tui_textarea::Key::Null,
    };
    let held = press.modifiers;
    input.area.input(tui_textarea::Input { key, ctrl: held.control, alt: held.alt, shift: held.shift });
}

impl InputLine {
    /// Whether a selection is under way in the input.
    pub open spec fn selecting(&self) -> bool {
        input_selecting(*self)
    }

    /// An input that holds `text` as its one line, the cursor in front of
    /// it, and nothing selected.
    pub fn new(text: String) -> (input: InputLine)
        ensures
            input@ == InputLineView::of_line(text@, 0),
            input@.text() == text@,
            takes_characters(input),
    {
        area_of_line(text)
    }

    /// An input that holds `text` as its one line, the cursor behind it,
    /// and nothing selected.
    pub fn with_cursor_at_end(text: String) -> (input: InputLine)
        ensures
            input@ == InputLineView::of_line(text@, text@.len()),
            input@.text() == text@,
            takes_characters(input),
    {
        let mut input = area_of_line(text);
        area_to_end(&mut input);
        input
    }

    /// The lines of the input.
    pub fn lines(&self) -> (lines: Vec<String>)
        ensures
            lines.deep_view() == self@.lines,
    {
        area_lines(self)
    }

    /// The cursor of the input: its line and its column, from 0.
    pub fn cursor(&self) -> (cursor: (usize, usize))
        ensures
            (cursor.0 as nat, cursor.1 as nat) == self@.cursor,
    {
        area_cursor(self)
    }

    /// The text of the input: its lines with a line break between each two.
    pub fn text(&self) -> (text: String)
        ensures
            text@ == self@.text(),
    {
        let lines = area_lines(self);
        join_strings(&lines, "\n")
    }

    /// Hands a key to the input, which edits its text or moves its cursor as
    /// the key says.
    ///
    /// A character typed where nothing is selected goes into the text at the
    /// cursor, and the cursor moves behind it. The keys that move the cursor
    /// leave the text as it is. The F keys, Esc and the keys without a name
    /// change nothing. What the other keys do, and what a character does to
    /// a selection, is left to the text area behind the input.
    pub fn type_key(&mut self, press: KeyPress)
        ensures
            typed_character(press) matches Some(c) ==> (takes_characters(*old(self))
                ==> final(self)@ == old(self)@.with_typed(c)
                && takes_characters(*final(self))),
            is_cursor_key(press.key) ==> final(self)@.lines == old(self)@.lines,
            is_unbound_key(press.key) ==> final(self)@ == old(self)@ && final(self).selecting()
                == old(self).selecting(),
    {
        match press.key {
            Key::Left | Key::Right | Key::Up | Key::Down | Key::Home | Key::End | Key::PageUp
            | Key::PageDown => area_move(self, press),
            _ => area_edit(self, press),
        }
    }
}

} // verus!
