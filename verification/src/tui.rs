//! The interaction state machine of the terminal front end.
//!
//! One event of the terminal goes in, the state moves, and what the caller
//! has to do about it comes out: leave the loop, hand the event to the
//! editor, run a query, write or read a file. The caller does that work and
//! reports back through the other methods of the state.

use vstd::prelude::*;
use vstd::string::*;
use crate::file_action::{save_path, suggested_save_path, FileAction, MAX_TIMESTAMP_SECONDS};
use crate::input_line::{InputLine, InputLineView};
use crate::keys::{
    alternative_labels,
    ctrl,
    is_arrow,
    is_cursor_key,
    is_quit_chord,
    is_quit_key,
    is_shortcut_table,
    key_label,
    modifier_labels,
    InputEvent,
    Key,
    KeyPress,
    Shortcut,
};
use crate::query::QueryFailure;
use crate::state::{lemma_rotated_wf, AppState, AppStateView};
use crate::tab::Tab;
use crate::table::{RawData, RawRow};
use crate::text::{decimal, decimal_string, join, join_strings};
use crate::viewport::Viewport;

verus! {

/// The size of the terminal, in character cells.
#[derive(Clone, Copy, Debug, PartialEq, Eq, Structural)]
pub struct TerminalSize {
    pub width: u16,
    pub height: u16,
}

/// The least width in which the workbench is drawn.
pub const MIN_WIDTH: u16 = 115;

/// The rows that the workbench needs besides one for each shortcut.
pub const CHROME_HEIGHT: u16 = 5;

/// The least height in which the workbench is drawn: a row for each shortcut
/// of the help overlay, and the rows of `CHROME_HEIGHT`.
pub const MIN_HEIGHT: u16 = 13;

/// Whether a terminal is too small for the workbench.
pub open spec fn too_small(size: TerminalSize) -> bool {
    size.width < MIN_WIDTH || size.height < MIN_HEIGHT
}

/// The least height is a row for each shortcut and the fixed rows.
pub proof fn lemma_min_height_counts_shortcuts()
    ensures
        MIN_HEIGHT == crate::keys::SHORTCUT_COUNT + CHROME_HEIGHT,
{
}

/// The interaction mode: which handler the next event goes to. Browsing the
/// table is no mode of its own: it is what the arrow keys do in `Editing`
/// while the table view is shown.
#[derive(Clone, Copy, Debug, PartialEq, Eq, Structural)]
pub enum Mode {
    /// Keys edit the query and F keys give commands.
    Editing,
    /// Keys edit the name of the database.
    DbNameInput,
    /// Keys edit the path of the file dialog.
    FilePopup(FileAction),
    /// The help overlay is shown and takes all keys.
    HelpOverlay,
}

/// The text widget that an event goes to.
#[derive(Clone, Copy, Debug, PartialEq, Eq, Structural)]
pub enum Forward {
    Nothing,
    /// The query editor, which the caller keeps: the caller hands the event
    /// to it and reports its lines.
    Editor,
    /// The input line of the database name: the key was typed into it.
    DbInput,
    /// The input line of the file dialog: the key was typed into it.
    FileInput,
}

/// The work that an event leaves to the caller.
#[derive(Debug)]
pub enum Effect {
    Nothing,
    /// Run the query of the shared state, and report its outcome under this
    /// ticket.
    RunQuery { ticket: u64 },
    /// Drop the query that is under way: its outcome is no longer wanted.
    AbandonQuery,
    /// Write `content` to the file at `path`.
    SaveFile { path: String, content: String },
    /// Read the file at `path`, and report what it holds.
    LoadFile { path: String },
}

/// An `Effect` over sequences of characters.
pub enum EffectView {
    Nothing,
    RunQuery { ticket: u64 },
    AbandonQuery,
    SaveFile { path: Seq<char>, content: Seq<char> },
    LoadFile { path: Seq<char> },
}

impl View for Effect {
    type V = EffectView;

    open spec fn view(&self) -> EffectView {
        match self {
            Effect::Nothing => EffectView::Nothing,
            Effect::RunQuery { ticket } => EffectView::RunQuery { ticket: *ticket },
            Effect::AbandonQuery => EffectView::AbandonQuery,
            Effect::SaveFile { path, content } => EffectView::SaveFile {
                path: path@,
                content: content@,
            },
            Effect::LoadFile { path } => EffectView::LoadFile { path: path@ },
        }
    }
}

/// What an event asks of the caller.
#[derive(Debug)]
pub struct Outcome {
    /// Leave the loop: the session is over.
    pub exit: bool,
    /// The widget that the event goes to.
    pub forward: Forward,
    /// Then do this.
    pub effect: Effect,
}

/// An `Outcome` over sequences of characters.
pub struct OutcomeView {
    pub exit: bool,
    pub forward: Forward,
    pub effect: EffectView,
}

impl View for Outcome {
    type V = OutcomeView;

    open spec fn view(&self) -> OutcomeView {
        OutcomeView { exit: self.exit, forward: self.forward, effect: self.effect@ }
    }
}

/// The outcome that asks nothing of the caller.
pub open spec fn quiet() -> OutcomeView {
    OutcomeView { exit: false, forward: Forward::Nothing, effect: EffectView::Nothing }
}

/// The outcome that ends the session.
pub open spec fn leave() -> OutcomeView {
    OutcomeView { exit: true, forward: Forward::Nothing, effect: EffectView::Nothing }
}

/// The outcome of an event that goes to a widget and does nothing else.
pub open spec fn hand_to(widget: Forward) -> OutcomeView {
    OutcomeView { exit: false, forward: widget, effect: EffectView::Nothing }
}

/// What became of the outcome of a query.
#[derive(Debug)]
pub enum QueryReport {
    /// The result is the table now.
    Applied,
    /// The query failed; the table is what it was.
    Failed(QueryFailure),
    /// The outcome belongs to no query that is still wanted; nothing changed.
    Ignored,
}

/// The state of the terminal front end.
#[derive(Debug)]
pub struct ExtendedAppState {
    pub shared: AppState,
    pub mode: Mode,
    /// The input line of the database name; its text becomes the name that
    /// queries go to when the input is left.
    pub db_input: InputLine,
    /// The path that the file dialog was last confirmed with.
    pub file_path: String,
    /// The input line of the file dialog.
    pub file_input: InputLine,
    /// Where the user is in the result table.
    pub viewport: Viewport,
    /// The ticket of the query that is under way, if one is.
    pub in_flight: Option<u64>,
    /// The number of tickets handed out so far.
    pub issued: u64,
    /// Whether paths are written with a backslash between their parts.
    pub windows_paths: bool,
}

/// An `ExtendedAppState` over sequences.
pub struct ExtendedAppStateView {
    pub shared: AppStateView,
    pub mode: Mode,
    pub db_input: InputLineView,
    pub file_path: Seq<char>,
    pub file_input: InputLineView,
    pub viewport: Viewport,
    pub in_flight: Option<u64>,
    pub issued: u64,
    pub windows_paths: bool,
}

impl View for ExtendedAppState {
    type V = ExtendedAppStateView;

    open spec fn view(&self) -> ExtendedAppStateView {
        ExtendedAppStateView {
            shared: self.shared@,
            mode: self.mode,
            db_input: self.db_input@,
            file_path: self.file_path@,
            file_input: self.file_input@,
            viewport: self.viewport,
            in_flight: self.in_flight,
            issued: self.issued,
            windows_paths: self.windows_paths,
        }
    }
}

impl ExtendedAppStateView {
    /// The state is one that a session can be in: the shared state is, the
    /// inputs that are closed hold what was last confirmed, and the ticket
    /// of a query under way is one that was handed out.
    pub open spec fn wf(self) -> bool {
        &&& self.shared.wf()
        &&& self.mode != Mode::DbNameInput ==> self.db_input.text() == self.shared.db
        &&& !(self.mode is FilePopup) ==> self.file_input.text() == self.file_path
        &&& self.in_flight matches Some(ticket) ==> ticket < self.issued
    }

    /// Whether this state is `planned` but for what the key of `event` did
    /// to the input line that it was typed into, if it was typed into one.
    /// What a typed key does is the matter of the text area behind the
    /// input; a key that moves the cursor leaves the lines as they are.
    pub open spec fn follows(
        self,
        planned: ExtendedAppStateView,
        forward: Forward,
        event: InputEvent,
    ) -> bool {
        &&& self == (ExtendedAppStateView {
            db_input: if forward == Forward::DbInput {
                self.db_input
            } else {
                planned.db_input
            },
            file_input: if forward == Forward::FileInput {
                self.file_input
            } else {
                planned.file_input
            },
            ..planned
        })
        &&& event matches InputEvent::Key(press) ==> (is_cursor_key(press.key)
            ==> self.db_input.lines == planned.db_input.lines && self.file_input.lines
            == planned.file_input.lines)
    }

    /// In a terminal that is too small nothing is accepted but the
    /// interrupt chord.
    pub open spec fn step_undersized(self, event: InputEvent) -> (ExtendedAppStateView, OutcomeView) {
        match event {
            InputEvent::Key(press) => if is_quit_chord(press) {
                (self, leave())
            } else {
                (self, quiet())
            },
            _ => (self, quiet()),
        }
    }

    /// The help overlay closes on Esc and on F1, and swallows every other key.
    pub open spec fn step_help(self, key: Key) -> (ExtendedAppStateView, OutcomeView) {
        if key == Key::Esc || key == Key::F(1) {
            (ExtendedAppStateView { mode: Mode::Editing, ..self }, quiet())
        } else {
            (self, quiet())
        }
    }

    /// Esc and Enter leave the input of the database name, and both make the
    /// text of the input line the name that queries go to. Every other key
    /// is typed into the input line; what it does there is not said here.
    pub open spec fn step_db_name(self, key: Key) -> (ExtendedAppStateView, OutcomeView) {
        if key == Key::Esc || key == Key::Enter {
            (
                ExtendedAppStateView {
                    mode: Mode::Editing,
                    shared: AppStateView { db: self.db_input.text(), ..self.shared },
                    ..self
                },
                quiet(),
            )
        } else {
            (self, hand_to(Forward::DbInput))
        }
    }

    /// Esc closes the file dialog and drops what was typed into it: the
    /// input line holds the last confirmed path again. Enter closes it, keeps
    /// the text of the input line as the path, and asks for the file to be
    /// written or read. Every other key is typed into the input line; what
    /// it does there is not said here.
    pub open spec fn step_file(self, action: FileAction, key: Key) -> (
        ExtendedAppStateView,
        OutcomeView,
    ) {
        if key == Key::Esc {
            (
                ExtendedAppStateView {
                    mode: Mode::Editing,
                    file_input: InputLineView::of_line(self.file_path, self.file_path.len()),
                    ..self
                },
                quiet(),
            )
        } else if key == Key::Enter {
            (
                ExtendedAppStateView {
                    mode: Mode::Editing,
                    file_path: self.file_input.text(),
                    ..self
                },
                OutcomeView {
                    exit: false,
                    forward: Forward::Nothing,
                    effect: match action {
                        FileAction::Save => EffectView::SaveFile {
                            path: self.file_input.text(),
                            content: self.shared.sql_query,
                        },
                        FileAction::Load => EffectView::LoadFile { path: self.file_input.text() },
                    },
                },
            )
        } else {
            (self, hand_to(Forward::FileInput))
        }
    }

    /// Whether the arrow keys move through the table: the table view is
    /// shown and no overlay or input is open.
    pub open spec fn browsing_table(self) -> bool {
        self.mode == Mode::Editing && self.shared.current_tab == Tab::TableView
    }

    /// The widget that gets a key in `Editing`: the editor, but for the
    /// arrow keys while they move through the table.
    pub open spec fn editing_forward(self, key: Key) -> Forward {
        if self.browsing_table() && is_arrow(key) {
            Forward::Nothing
        } else {
            Forward::Editor
        }
    }

    /// The path that the file dialog opens on for saving.
    pub open spec fn proposed_save_path(self, now_seconds: u64) -> Seq<char> {
        save_path(self.file_path, now_seconds, self.windows_paths)
    }

    /// The state after a key in `Editing`.
    pub open spec fn editing_state(self, key: Key, now_seconds: u64) -> ExtendedAppStateView {
        match key {
            Key::F(1) => ExtendedAppStateView { mode: Mode::HelpOverlay, ..self },
            Key::F(2) => ExtendedAppStateView {
                shared: AppStateView {
                    current_tab: self.shared.current_tab.successor(),
                    ..self.shared
                },
                in_flight: if self.shared.current_tab == Tab::TableView {
                    None
                } else {
                    self.in_flight
                },
                ..self
            },
            Key::F(3) => ExtendedAppStateView { mode: Mode::DbNameInput, ..self },
            Key::F(4) => ExtendedAppStateView { shared: self.shared.rotated(), ..self },
            Key::F(5) => if self.in_flight is None && self.issued < u64::MAX {
                ExtendedAppStateView {
                    in_flight: Some(self.issued),
                    issued: (self.issued + 1) as u64,
                    ..self
                }
            } else {
                self
            },
            Key::F(8) => ExtendedAppStateView {
                mode: Mode::FilePopup(FileAction::Save),
                file_input: InputLineView::of_line(
                    self.proposed_save_path(now_seconds),
                    self.proposed_save_path(now_seconds).len(),
                ),
                ..self
            },
            Key::F(9) => ExtendedAppStateView {
                mode: Mode::FilePopup(FileAction::Load),
                file_input: InputLineView::of_line(self.file_path, self.file_path.len()),
                ..self
            },
            Key::Up => if self.browsing_table() {
                ExtendedAppStateView { viewport: self.viewport.moved_up(), ..self }
            } else {
                self
            },
            Key::Down => if self.browsing_table() {
                ExtendedAppStateView {
                    viewport: self.viewport.moved_down(self.shared.table.rows.len() as int),
                    ..self
                }
            } else {
                self
            },
            Key::Left => if self.browsing_table() {
                ExtendedAppStateView { viewport: self.viewport.moved_left(), ..self }
            } else {
                self
            },
            Key::Right => if self.browsing_table() {
                ExtendedAppStateView {
                    viewport: self.viewport.moved_right(self.shared.table.headers.len() as int),
                    ..self
                }
            } else {
                self
            },
            _ => self,
        }
    }

    /// The work that a key in `Editing` leaves to the caller.
    pub open spec fn editing_effect(self, key: Key, now_seconds: u64) -> EffectView {
        match key {
            Key::F(2) => if self.shared.current_tab == Tab::TableView && self.in_flight is Some {
                EffectView::AbandonQuery
            } else {
                EffectView::Nothing
            },
            Key::F(5) => if self.in_flight is None && self.issued < u64::MAX {
                EffectView::RunQuery { ticket: self.issued }
            } else {
                EffectView::Nothing
            },
            _ => EffectView::Nothing,
        }
    }

    /// In `Editing` the F keys give commands, the arrow keys move through
    /// the table while it is shown, and every key but those arrows goes to
    /// the editor. F8 and F9 open the file dialog on the last confirmed
    /// path, for saving with a default file name behind it where it lacks
    /// the extension, the cursor behind the path.
    pub open spec fn step_editing(self, key: Key, now_seconds: u64) -> (
        ExtendedAppStateView,
        OutcomeView,
    ) {
        (
            self.editing_state(key, now_seconds),
            OutcomeView {
                exit: false,
                forward: self.editing_forward(key),
                effect: self.editing_effect(key, now_seconds),
            },
        )
    }

    /// What a key press does in a terminal that is large enough: the
    /// interrupt chord and the quit key end the session in every mode, every
    /// other key goes to the handler of the mode.
    pub open spec fn step_key(self, press: KeyPress, now_seconds: u64) -> (
        ExtendedAppStateView,
        OutcomeView,
    ) {
        if is_quit_chord(press) || is_quit_key(press) {
            (self, leave())
        } else {
            match self.mode {
                Mode::HelpOverlay => self.step_help(press.key),
                Mode::DbNameInput => self.step_db_name(press.key),
                Mode::FilePopup(action) => self.step_file(action, press.key),
                Mode::Editing => self.step_editing(press.key, now_seconds),
            }
        }
    }

    /// What one event does: the state after it, and what it asks of the
    /// caller.
    pub open spec fn step(self, event: InputEvent, size: TerminalSize, now_seconds: u64) -> (
        ExtendedAppStateView,
        OutcomeView,
    ) {
        if too_small(size) {
            self.step_undersized(event)
        } else {
            match event {
                InputEvent::Key(press) => self.step_key(press, now_seconds),
                _ => if self.mode == Mode::Editing {
                    (self, hand_to(Forward::Editor))
                } else {
                    (self, quiet())
                },
            }
        }
    }

    /// The state after the editor has reported its text: the text is the
    /// query while the editor is shown and is the widget that keys go to.
    pub open spec fn with_editor_text(self, text: Seq<char>) -> ExtendedAppStateView {
        if self.mode == Mode::Editing && self.shared.current_tab == Tab::SqlEditor {
            ExtendedAppStateView {
                shared: AppStateView { sql_query: text, ..self.shared },
                ..self
            }
        } else {
            self
        }
    }

    /// The state after a file has been read for loading: what it held is the
    /// query.
    pub open spec fn with_loaded(self, content: Seq<char>) -> ExtendedAppStateView {
        ExtendedAppStateView {
            shared: AppStateView { sql_query: content, ..self.shared },
            ..self
        }
    }
}

/// Whatever the event, a well-formed state stays well formed.
pub proof fn lemma_step_preserves_wf(
    s: ExtendedAppStateView,
    event: InputEvent,
    size: TerminalSize,
    now_seconds: u64,
)
    requires
        s.wf(),
    ensures
        s.step(event, size, now_seconds).0.wf(),
{
    lemma_rotated_wf(s.shared);
}

/// What a typed key does to the input line that it goes to cannot make a
/// well-formed state ill formed: only the input of the mode that is active
/// is typed into.
pub proof fn lemma_typing_preserves_wf(
    s: ExtendedAppStateView,
    event: InputEvent,
    size: TerminalSize,
    now_seconds: u64,
    after: ExtendedAppStateView,
)
    requires
        s.wf(),
        after.follows(
            s.step(event, size, now_seconds).0,
            s.step(event, size, now_seconds).1.forward,
            event,
        ),
    ensures
        after.wf(),
{
    lemma_step_preserves_wf(s, event, size, now_seconds);
}

/// In a terminal that is too small every event leaves the state as it is and
/// asks nothing of the caller, but for the interrupt chord, which ends the
/// session.
pub proof fn lemma_undersized_accepts_only_quit_chord(
    s: ExtendedAppStateView,
    event: InputEvent,
    size: TerminalSize,
    now_seconds: u64,
)
    requires
        too_small(size),
    ensures
        s.step(event, size, now_seconds).0 == s,
        s.step(event, size, now_seconds).1.forward == Forward::Nothing,
        s.step(event, size, now_seconds).1.effect == EffectView::Nothing,
        s.step(event, size, now_seconds).1.exit <==> (event matches InputEvent::Key(press)
            && is_quit_chord(press)),
{
}

/// The interrupt chord ends the session in every mode and in a terminal of
/// any size; the quit key does so wherever the terminal is large enough.
/// Neither changes the state.
pub proof fn lemma_quit_is_always_honoured(
    s: ExtendedAppStateView,
    press: KeyPress,
    size: TerminalSize,
    now_seconds: u64,
)
    requires
        is_quit_chord(press) || (is_quit_key(press) && !too_small(size)),
    ensures
        s.step(InputEvent::Key(press), size, now_seconds) == (s, leave()),
{
}

/// No event but a quit ends the session.
pub proof fn lemma_only_quit_ends_session(
    s: ExtendedAppStateView,
    event: InputEvent,
    size: TerminalSize,
    now_seconds: u64,
)
    requires
        s.step(event, size, now_seconds).1.exit,
    ensures
        event matches InputEvent::Key(press) && (is_quit_chord(press) || is_quit_key(press)),
{
}

/// The mode after a key that is no quit, in a terminal that is large
/// enough: the transitions between the modes, all of them.
pub open spec fn next_mode(mode: Mode, key: Key) -> Mode {
    match mode {
        Mode::Editing => match key {
            Key::F(1) => Mode::HelpOverlay,
            Key::F(3) => Mode::DbNameInput,
            Key::F(8) => Mode::FilePopup(FileAction::Save),
            Key::F(9) => Mode::FilePopup(FileAction::Load),
            _ => Mode::Editing,
        },
        Mode::DbNameInput => if key == Key::Esc || key == Key::Enter {
            Mode::Editing
        } else {
            Mode::DbNameInput
        },
        Mode::FilePopup(action) => if key == Key::Esc || key == Key::Enter {
            Mode::Editing
        } else {
            Mode::FilePopup(action)
        },
        Mode::HelpOverlay => if key == Key::Esc || key == Key::F(1) {
            Mode::Editing
        } else {
            Mode::HelpOverlay
        },
    }
}

/// The mode changes by the key alone, as `next_mode` says, and never on an
/// event that is no key.
pub proof fn lemma_mode_transitions(
    s: ExtendedAppStateView,
    event: InputEvent,
    size: TerminalSize,
    now_seconds: u64,
)
    ensures
        s.step(event, size, now_seconds).0.mode == match event {
            InputEvent::Key(press) => if too_small(size) || is_quit_chord(press) || is_quit_key(
                press,
            ) {
                s.mode
            } else {
                next_mode(s.mode, press.key)
            },
            _ => s.mode,
        },
{
}

/// The help overlay takes every key: while it is shown no key reaches a
/// widget or leaves work to the caller, and nothing changes but the mode.
pub proof fn lemma_help_overlay_is_modal(
    s: ExtendedAppStateView,
    event: InputEvent,
    size: TerminalSize,
    now_seconds: u64,
)
    requires
        s.mode == Mode::HelpOverlay,
    ensures
        s.step(event, size, now_seconds).0 == (ExtendedAppStateView {
            mode: s.step(event, size, now_seconds).0.mode,
            ..s
        }),
        s.step(event, size, now_seconds).1.forward == Forward::Nothing,
        s.step(event, size, now_seconds).1.effect == EffectView::Nothing,
{
}

/// Going to the next view changes which view is shown and nothing of what
/// the views hold: the query, the table, the scroll position and the inputs
/// are what they were. Only a query under way is dropped when the table view
/// is left.
pub proof fn lemma_tab_switch_keeps_tab_state(
    s: ExtendedAppStateView,
    press: KeyPress,
    size: TerminalSize,
    now_seconds: u64,
)
    requires
        s.mode == Mode::Editing,
        !too_small(size),
        press.key == Key::F(2),
    ensures
        s.step(InputEvent::Key(press), size, now_seconds).0 == (ExtendedAppStateView {
            shared: AppStateView {
                current_tab: s.shared.current_tab.successor(),
                ..s.shared
            },
            in_flight: if s.shared.current_tab == Tab::TableView {
                None
            } else {
                s.in_flight
            },
            ..s
        }),
{
}

/// No event changes the table or the configuration; only the outcome of a
/// query changes the table.
pub proof fn lemma_step_keeps_table(
    s: ExtendedAppStateView,
    event: InputEvent,
    size: TerminalSize,
    now_seconds: u64,
)
    ensures
        s.step(event, size, now_seconds).0.shared.table == s.shared.table,
        s.step(event, size, now_seconds).0.shared.config == s.shared.config,
{
}

/// Leaving the input of the database name, by Esc as by Enter, makes the
/// text of the input line the name that queries go to.
pub proof fn lemma_db_name_is_committed(
    s: ExtendedAppStateView,
    press: KeyPress,
    size: TerminalSize,
    now_seconds: u64,
)
    requires
        s.mode == Mode::DbNameInput,
        !too_small(size),
        !is_quit_chord(press),
        press.key == Key::Esc || press.key == Key::Enter,
    ensures
        s.step(InputEvent::Key(press), size, now_seconds).0.shared.db == s.db_input.text(),
        s.step(InputEvent::Key(press), size, now_seconds).0.mode == Mode::Editing,
{
}

/// Esc in the file dialog drops what was typed and asks for no file to be
/// touched; Enter keeps what was typed as the path and asks for the file at
/// that path to be written with the query, or to be read. Either way the
/// input line then holds the path that stays.
pub proof fn lemma_file_dialog_closes(
    s: ExtendedAppStateView,
    action: FileAction,
    press: KeyPress,
    size: TerminalSize,
    now_seconds: u64,
)
    requires
        s.mode == Mode::FilePopup(action),
        !too_small(size),
        !is_quit_chord(press),
        press.key == Key::Esc || press.key == Key::Enter,
    ensures
        ({
            let (after, outcome) = s.step(InputEvent::Key(press), size, now_seconds);
            &&& after.mode == Mode::Editing
            &&& after.shared == s.shared
            &&& after.file_input.text() == after.file_path
            &&& press.key == Key::Esc ==> after.file_path == s.file_path && outcome.effect
                == EffectView::Nothing
            &&& press.key == Key::Enter ==> after.file_path == s.file_input.text()
                && outcome.effect == match action {
                FileAction::Save => EffectView::SaveFile {
                    path: s.file_input.text(),
                    content: s.shared.sql_query,
                },
                FileAction::Load => EffectView::LoadFile { path: s.file_input.text() },
            }
        }),
{
}

/// The file dialog opens for saving on a path that has the extension of a
/// query file: the path that was last confirmed if it has the extension,
/// else that path with a default file name behind it. Confirming the dialog
/// as it opened asks for the file at that path to be written.
pub proof fn lemma_save_dialog_proposes_sql_path(
    s: ExtendedAppStateView,
    press: KeyPress,
    size: TerminalSize,
    now_seconds: u64,
)
    requires
        s.mode == Mode::Editing,
        !too_small(size),
        press.key == Key::F(8),
    ensures
        ({
            let opened = s.step(InputEvent::Key(press), size, now_seconds).0;
            let confirmed = opened.step(
                InputEvent::Key(KeyPress { key: Key::Enter, modifiers: press.modifiers }),
                size,
                now_seconds,
            );
            &&& opened.mode == Mode::FilePopup(FileAction::Save)
            &&& crate::file_action::has_sql_extension(opened.file_input.text())
            &&& crate::file_action::has_sql_extension(s.file_path) ==> opened.file_input.text()
                == s.file_path
            &&& confirmed.1.effect == (EffectView::SaveFile {
                path: opened.file_input.text(),
                content: s.shared.sql_query,
            })
        }),
{
    crate::file_action::lemma_save_path_has_extension(s.file_path, now_seconds, s.windows_paths);
}

/// A query is asked for only while none is under way, and under a ticket
/// that no earlier query had; from then on that query is under way.
pub proof fn lemma_one_query_in_flight(
    s: ExtendedAppStateView,
    event: InputEvent,
    size: TerminalSize,
    now_seconds: u64,
)
    requires
        s.step(event, size, now_seconds).1.effect is RunQuery,
    ensures
        s.in_flight is None,
        s.step(event, size, now_seconds).1.effect == (EffectView::RunQuery { ticket: s.issued }),
        s.step(event, size, now_seconds).0.in_flight == Some(s.issued),
        s.step(event, size, now_seconds).0.issued == s.issued + 1,
{
}

/// Every line of the help overlay fits between the borders of a terminal of
/// the least width, and the overlay has as many lines as the least height
/// leaves beside the fixed rows.
pub proof fn lemma_help_fits_least_terminal(table: Seq<Shortcut>)
    requires
        is_shortcut_table(table),
    ensures
        forall|i: int| 0 <= i < table.len() ==> (#[trigger] table[i]).label().len() + 2 <= MIN_WIDTH,
        table.len() + CHROME_HEIGHT == MIN_HEIGHT,
{
    reveal_strlit("F");
    reveal_strlit(" - ");
    reveal_strlit(" (");
    reveal_strlit(")");
    reveal_strlit(" / ");
    reveal_strlit("+");
    reveal_strlit("Ctrl");
    reveal_strlit("Toggle Help Popup");
    reveal_strlit("Select Tab");
    reveal_strlit("Input the Databasename for the Connection to the Database");
    reveal_strlit("Select User for the Connection to the Database");
    reveal_strlit("Query the Database");
    reveal_strlit("Export the SQL Statement to a File");
    reveal_strlit("Import a SQL Statement from a File");
    reveal_strlit("Quit");
    reveal_with_fuel(decimal, 2);
    assert forall|i: int| 0 <= i < table.len() implies (#[trigger] table[i]).label().len() + 2
        <= MIN_WIDTH by {
        if i == 7 {
            let labels = alternative_labels(table[i].alternative_shortcut->0@);
            assert(labels[0] == join(seq!["Ctrl"@, seq!['c']], "+"@)) by {
                assert(modifier_labels(ctrl()).push(key_label(Key::Char('c'))) =~= seq![
                    "Ctrl"@,
                    seq!['c'],
                ]);
            }
            assert(labels[1] == join(seq!["Ctrl"@, seq!['d']], "+"@)) by {
                assert(modifier_labels(ctrl()).push(key_label(Key::Char('d'))) =~= seq![
                    "Ctrl"@,
                    seq!['d'],
                ]);
            }
            assert(labels[0].len() == 6) by {
                reveal_with_fuel(join, 3);
            }
            assert(labels[1].len() == 6) by {
                reveal_with_fuel(join, 3);
            }
            assert(join(labels, " / "@).len() == 15) by {
                reveal_with_fuel(join, 3);
            }
        }
    }
}

/// Why a file could not be written or read, in the words of the system.
#[derive(Debug)]
pub struct FileFailure {
    pub message: String,
}

/// What a frame shows.
#[derive(Clone, Copy, Debug, PartialEq, Eq, Structural)]
pub enum Screen {
    /// Only the panel that says that the terminal is too small.
    SizeError,
    /// The workbench.
    Workbench,
}

/// A rectangle of character cells.
#[derive(Clone, Copy, Debug, PartialEq, Eq, Structural)]
pub struct Area {
    pub x: u16,
    pub y: u16,
    pub width: u16,
    pub height: u16,
}

/// The text of the panel that says that the terminal is too small.
pub open spec fn size_error_text(size: TerminalSize) -> Seq<char> {
    "Terminal too small!\nAt least "@ + decimal(MIN_WIDTH as nat) + "x"@ + decimal(
        MIN_HEIGHT as nat,
    ) + " required\nCurrent: "@ + decimal(size.width as nat) + "x"@ + decimal(size.height as nat)
}

/// What a frame shows in a terminal of the given size.
pub fn screen_for(size: TerminalSize) -> (r: Screen)
    ensures
        r == if too_small(size) {
            Screen::SizeError
        } else {
            Screen::Workbench
        },
{
    if size.width < MIN_WIDTH || size.height < MIN_HEIGHT {
        Screen::SizeError
    } else {
        Screen::Workbench
    }
}

/// Writes the text of the panel that says that the terminal is too small.
pub fn size_error_message(size: TerminalSize) -> (r: String)
    ensures
        r@ == size_error_text(size),
{
    let min_width = decimal_string(MIN_WIDTH as u64);
    let min_height = decimal_string(MIN_HEIGHT as u64);
    let width = decimal_string(size.width as u64);
    let height = decimal_string(size.height as u64);
    let mut text = "Terminal too small!\nAt least ".to_owned();
    text.append(min_width.as_str());
    text.append("x");
    text.append(min_height.as_str());
    text.append(" required\nCurrent: ");
    text.append(width.as_str());
    text.append("x");
    text.append(height.as_str());
    text
}

/// Where the file dialog is drawn: three rows high, a quarter of the height
/// down, over the middle four fifths of the width.
pub fn popup_area(size: TerminalSize) -> (r: Area)
    ensures
        r.x == size.width * 10 / 100,
        r.y == size.height / 4,
        r.width == size.width * 80 / 100,
        r.height == 3,
        r.x + r.width <= size.width,
{
    let width = size.width as u32;
    Area {
        x: (width * 10 / 100) as u16,
        y: size.height / 4,
        width: (width * 80 / 100) as u16,
        height: 3,
    }
}

/// Writes the text of an editor from its lines, a line break between each
/// two.
pub fn get_editor_lines_as_string(lines: &Vec<String>) -> (r: String)
    ensures
        r@ == join(lines.deep_view(), "\n"@),
{
    join_strings(lines, "\n")
}

impl ExtendedAppState {
    /// The state is one that a session can be in.
    pub open spec fn wf(&self) -> bool {
        self@.wf()
    }

    /// The state that the terminal front end starts in: `Editing`, no query
    /// under way, the file dialog holding `working_directory`. Where
    /// `file_content` is not empty it is the query that the editor opens
    /// with.
    pub fn new(
        shared: AppState,
        file_content: String,
        working_directory: String,
        windows_paths: bool,
    ) -> (s: ExtendedAppState)
        ensures
            s@.shared == (AppStateView {
                sql_query: if file_content@.len() == 0 {
                    shared@.sql_query
                } else {
                    file_content@
                },
                ..shared@
            }),
            s@.mode == Mode::Editing,
            s@.db_input == InputLineView::of_line(shared@.db, 0),
            s@.file_path == working_directory@,
            s@.file_input == InputLineView::of_line(working_directory@, working_directory@.len()),
            s@.viewport == (Viewport { selected: 0, row_offset: 0, col_offset: 0 }),
            s@.in_flight is None,
            s@.issued == 0,
            s@.windows_paths == windows_paths,
            shared.wf() ==> s.wf(),
    {
        let mut shared = shared;
        if !file_content.as_str().is_empty() {
            shared.sql_query = file_content;
        }
        let db_input = InputLine::new(shared.db.clone());
        let file_input = InputLine::with_cursor_at_end(working_directory.clone());
        ExtendedAppState {
            shared,
            mode: Mode::Editing,
            db_input,
            file_path: working_directory,
            file_input,
            viewport: Viewport::new(),
            in_flight: None,
            issued: 0,
            windows_paths,
        }
    }

    /// Handles a key while the help overlay is shown.
    fn on_key_help(&mut self, key: Key) -> (outcome: Outcome)
        ensures
            (final(self)@, outcome@) == old(self)@.step_help(key),
    {
        if key == Key::Esc || key == Key::F(1) {
            self.mode = Mode::Editing;
        }
        Outcome { exit: false, forward: Forward::Nothing, effect: Effect::Nothing }
    }

    /// Handles a key while the name of the database is edited.
    fn on_key_db_name(&mut self, press: KeyPress) -> (outcome: Outcome)
        ensures
            outcome@ == old(self)@.step_db_name(press.key).1,
            final(self)@.follows(
                old(self)@.step_db_name(press.key).0,
                outcome.forward,
                InputEvent::Key(press),
            ),
    {
        if press.key == Key::Esc || press.key == Key::Enter {
            self.shared.db = self.db_input.text();
            self.mode = Mode::Editing;
            Outcome { exit: false, forward: Forward::Nothing, effect: Effect::Nothing }
        } else {
            self.db_input.type_key(press);
            Outcome { exit: false, forward: Forward::DbInput, effect: Effect::Nothing }
        }
    }

    /// Handles a key while the file dialog is open.
    fn on_key_file(&mut self, action: FileAction, press: KeyPress) -> (outcome: Outcome)
        ensures
            outcome@ == old(self)@.step_file(action, press.key).1,
            final(self)@.follows(
                old(self)@.step_file(action, press.key).0,
                outcome.forward,
                InputEvent::Key(press),
            ),
    {
        if press.key == Key::Esc {
            self.file_input = InputLine::with_cursor_at_end(self.file_path.clone());
            self.mode = Mode::Editing;
            Outcome { exit: false, forward: Forward::Nothing, effect: Effect::Nothing }
        } else if press.key == Key::Enter {
            self.file_path = self.file_input.text();
            self.mode = Mode::Editing;
            let effect = match action {
                FileAction::Save => Effect::SaveFile {
                    path: self.file_path.clone(),
                    content: self.shared.sql_query.clone(),
                },
                FileAction::Load => Effect::LoadFile { path: self.file_path.clone() },
            };
            Outcome { exit: false, forward: Forward::Nothing, effect }
        } else {
            self.file_input.type_key(press);
            Outcome { exit: false, forward: Forward::FileInput, effect: Effect::Nothing }
        }
    }

    /// Handles a key in `Editing`.
    fn on_key_editing(&mut self, key: Key, now_seconds: u64) -> (outcome: Outcome)
        requires
            old(self)@.shared.config.credentials.len() > 0,
            now_seconds <= MAX_TIMESTAMP_SECONDS,
        ensures
            (final(self)@, outcome@) == old(self)@.step_editing(key, now_seconds),
    {
        let browsing = self.mode == Mode::Editing && self.shared.current_tab == Tab::TableView;
        let arrow = key == Key::Up || key == Key::Down || key == Key::Left || key == Key::Right;
        let forward = if browsing && arrow {
            Forward::Nothing
        } else {
            Forward::Editor
        };
        let mut effect = Effect::Nothing;
        match key {
            Key::F(n) => {
                if n == 1 {
                    self.mode = Mode::HelpOverlay;
                } else if n == 2 {
                    if self.shared.current_tab == Tab::TableView {
                        if self.in_flight.is_some() {
                            effect = Effect::AbandonQuery;
                        }
                        self.in_flight = None;
                    }
                    self.shared.current_tab = self.shared.current_tab.next();
                } else if n == 3 {
                    self.mode = Mode::DbNameInput;
                } else if n == 4 {
                    self.shared.set_next_user();
                } else if n == 5 {
                    if self.in_flight.is_none() && self.issued < u64::MAX {
                        let ticket = self.issued;
                        self.in_flight = Some(ticket);
                        self.issued = ticket + 1;
                        effect = Effect::RunQuery { ticket };
                    }
                } else if n == 8 {
                    let proposed = suggested_save_path(
                        self.file_path.as_str(),
                        now_seconds,
                        self.windows_paths,
                    );
                    self.file_input = InputLine::with_cursor_at_end(proposed);
                    self.mode = Mode::FilePopup(FileAction::Save);
                } else if n == 9 {
                    self.file_input = InputLine::with_cursor_at_end(self.file_path.clone());
                    self.mode = Mode::FilePopup(FileAction::Load);
                }
            },
            Key::Up => {
                if browsing {
                    self.viewport.select_previous();
                }
            },
            Key::Down => {
                if browsing {
                    self.viewport.select_next(self.shared.table.rows.len());
                }
            },
            Key::Left => {
                if browsing {
                    self.viewport.scroll_left();
                }
            },
            Key::Right => {
                if browsing {
                    self.viewport.scroll_right(self.shared.table.headers.len());
                }
            },
            _ => {},
        }
        Outcome { exit: false, forward, effect }
    }

    /// Takes in one event of the terminal.
    ///
    /// In a terminal that is too small only the interrupt chord is accepted
    /// and nothing else has any effect. Otherwise the interrupt chord and
    /// the quit key end the session in every mode, and every other key goes
    /// to the handler of the mode that is active. A key that is typed into
    /// an input line changes that input as the text area behind it sees fit,
    /// and nothing else. What the caller has to do stands in the outcome:
    /// first hand the event to the editor where `forward` says so and report
    /// the editor's lines, then do what `effect` says.
    pub fn on_event(&mut self, event: InputEvent, size: TerminalSize, now_seconds: u64) -> (outcome:
        Outcome)
        requires
            old(self)@.shared.config.credentials.len() > 0,
            now_seconds <= MAX_TIMESTAMP_SECONDS,
        ensures
            outcome@ == old(self)@.step(event, size, now_seconds).1,
            final(self)@.follows(
                old(self)@.step(event, size, now_seconds).0,
                outcome.forward,
                event,
            ),
            old(self).wf() ==> final(self).wf(),
    {
        let outcome = self.dispatch(event, size, now_seconds);
        proof {
            if old(self).wf() {
                lemma_typing_preserves_wf(old(self)@, event, size, now_seconds, self@);
            }
        }
        outcome
    }

    /// Sends an event to the handler that it is for.
    fn dispatch(&mut self, event: InputEvent, size: TerminalSize, now_seconds: u64) -> (outcome:
        Outcome)
        requires
            old(self)@.shared.config.credentials.len() > 0,
            now_seconds <= MAX_TIMESTAMP_SECONDS,
        ensures
            outcome@ == old(self)@.step(event, size, now_seconds).1,
            final(self)@.follows(
                old(self)@.step(event, size, now_seconds).0,
                outcome.forward,
                event,
            ),
    {
        if size.width < MIN_WIDTH || size.height < MIN_HEIGHT {
            let exit = match event {
                InputEvent::Key(press) => press.quit_chord(),
                _ => false,
            };
            return Outcome { exit, forward: Forward::Nothing, effect: Effect::Nothing };
        }
        match event {
            InputEvent::Key(press) => {
                if press.quit_chord() || press.quit_key() {
                    Outcome { exit: true, forward: Forward::Nothing, effect: Effect::Nothing }
                } else {
                    match self.mode {
                        Mode::HelpOverlay => self.on_key_help(press.key),
                        Mode::DbNameInput => self.on_key_db_name(press),
                        Mode::FilePopup(action) => self.on_key_file(action, press),
                        Mode::Editing => self.on_key_editing(press.key, now_seconds),
                    }
                }
            },
            _ => {
                let forward = if self.mode == Mode::Editing {
                    Forward::Editor
                } else {
                    Forward::Nothing
                };
                Outcome { exit: false, forward, effect: Effect::Nothing }
            },
        }
    }

    /// Takes in the lines of the editor after an event was handed to it.
    /// The text of the editor is its lines with a line break between each
    /// two.
    pub fn editor_changed(&mut self, lines: &Vec<String>)
        ensures
            final(self)@ == old(self)@.with_editor_text(join(lines.deep_view(), "\n"@)),
            old(self).wf() ==> final(self).wf(),
    {
        if self.mode == Mode::Editing && self.shared.current_tab == Tab::SqlEditor {
            self.shared.sql_query = get_editor_lines_as_string(lines);
        }
    }

    /// Takes in the outcome of the query that was asked for under `ticket`.
    ///
    /// The outcome counts only if that query is the one under way. Then no
    /// query is under way any more; a result replaces the table, and a
    /// failure changes nothing else: the shared state, and so the table, is
    /// what it was. An outcome under any other ticket changes nothing at
    /// all.
    pub fn finish_query(
        &mut self,
        ticket: u64,
        outcome: Result<(RawRow, RawData), QueryFailure>,
    ) -> (report: QueryReport)
        ensures
            old(self).in_flight != Some(ticket) ==> report is Ignored && *final(self) == *old(self),
            old(self).in_flight == Some(ticket) ==> match outcome {
                Ok((raw_row, raw_data)) => report is Applied && final(self)@ == (
                ExtendedAppStateView {
                    in_flight: None,
                    shared: old(self)@.shared.with_result(raw_row, raw_data),
                    ..old(self)@
                }),
                Err(failure) => report == QueryReport::Failed(failure) && final(self).shared == old(
                    self,
                ).shared && final(self)@ == (ExtendedAppStateView { in_flight: None, ..old(self)@ }),
            },
            old(self).wf() ==> final(self).wf(),
    {
        let wanted = match self.in_flight {
            Some(t) => t == ticket,
            None => false,
        };
        if !wanted {
            return QueryReport::Ignored;
        }
        self.in_flight = None;
        match self.shared.apply_query_outcome(outcome) {
            Ok(()) => QueryReport::Applied,
            Err(failure) => QueryReport::Failed(failure),
        }
    }

    /// Takes in what reading the file for loading gave. The content of the
    /// file becomes the query; a failure changes nothing and is handed back
    /// to be reported.
    pub fn finish_load(&mut self, outcome: Result<String, FileFailure>) -> (r: Result<
        (),
        FileFailure,
    >)
        ensures
            match outcome {
                Ok(content) => r is Ok && final(self)@ == old(self)@.with_loaded(content@),
                Err(failure) => r == Err::<(), FileFailure>(failure) && *final(self) == *old(self),
            },
            old(self).wf() ==> final(self).wf(),
    {
        match outcome {
            Ok(content) => {
                self.shared.sql_query = content;
                Ok(())
            },
            Err(failure) => Err(failure),
        }
    }

    /// Brings the viewport back into the table before a frame is drawn with
    /// room for `row_capacity` rows.
    pub fn prepare_frame(&mut self, row_capacity: usize)
        ensures
            final(self)@ == (ExtendedAppStateView {
                viewport: old(self)@.viewport.restored(
                    old(self)@.shared.table.rows.len() as int,
                    row_capacity as int,
                    old(self)@.shared.table.headers.len() as int,
                ),
                ..old(self)@
            }),
            final(self)@.viewport.fits(
                old(self)@.shared.table.rows.len() as int,
                row_capacity as int,
                old(self)@.shared.table.headers.len() as int,
            ),
            old(self).wf() ==> final(self).wf(),
    {
        self.viewport.restore(
            self.shared.table.rows.len(),
            row_capacity,
            self.shared.table.headers.len(),
        );
    }

    /// Whether the help overlay is shown.
    pub fn help_visible(&self) -> (r: bool)
        ensures
            r == (self.mode == Mode::HelpOverlay),
    {
        self.mode == Mode::HelpOverlay
    }

    /// Whether keys edit the name of the database.
    pub fn db_input_active(&self) -> (r: bool)
        ensures
            r == (self.mode == Mode::DbNameInput),
    {
        self.mode == Mode::DbNameInput
    }

    /// What the file dialog is open for, if it is open.
    pub fn file_dialog(&self) -> (r: Option<FileAction>)
        ensures
            r == match self.mode {
                Mode::FilePopup(action) => Some(action),
                _ => None,
            },
    {
        match self.mode {
            Mode::FilePopup(action) => Some(action),
            _ => None,
        }
    }
}

} // verus!
