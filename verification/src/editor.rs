//! The editing session: where the cursor is, what part of the document is
//! visible, and how a key press changes both.
//!
//! Nothing here reads a key, writes a file or paints the screen. The caller
//! does that, hands in what it read, and is told what to write.

use crate::document::{lines_after_delete, lines_after_insert, valid_cursor, Document};
use crate::graphemes::grapheme_clusters;
use crate::lines::text_lines;
use crate::modes::{
    cursor_slot_after, default_bindings, editor_slot_after, CursorMode, EditorMode, Key, Modes,
};
use crate::row::{rendered, Row};
use crate::text::{
    byte_len, control, decimal, is_control, pop_char, push_char, push_decimal, push_spaces, spaces,
    truncate, truncated,
};
use crate::viewport::{in_window, scroll, scrolled};
use vstd::prelude::*;
use vstd::utf8::encode_utf8;

verus! {

/// How often a quit must be asked for again before a document with unsaved
/// changes is given up.
pub const QUIT_TIMES: u8 = 3;

/// A place in the document: `x` counts grapheme clusters within a line, `y`
/// counts lines, both from zero.
#[derive(Clone, Copy, Debug, PartialEq, Eq, Structural)]
pub struct Position {
    pub x: usize,
    pub y: usize,
}

/// The size of the terminal, in character cells.
#[derive(Clone, Copy, Debug, PartialEq, Eq, Structural)]
pub struct Size {
    pub width: u16,
    pub height: u16,
}

impl Default for Position {
    /// The top left corner.
    fn default() -> (position: Self)
        ensures
            position.x == 0,
            position.y == 0,
    {
        Position { x: 0, y: 0 }
    }
}

/// A message for the user and the time it was made at, in milliseconds on
/// the caller's clock.
pub struct StatusMessage {
    pub text: String,
    pub time: u64,
}

impl StatusMessage {
    /// The message `message`, made at `time`.
    pub fn create(message: String, time: u64) -> (status: Self)
        ensures
            status.text == message,
            status.time == time,
    {
        StatusMessage { text: message, time }
    }
}

/// The number of clusters of line `y`; zero where there is no such line.
pub open spec fn line_width(lines: Seq<Seq<Seq<char>>>, y: int) -> int {
    if 0 <= y < lines.len() {
        lines[y].len() as int
    } else {
        0
    }
}

/// Where the cursor goes from `cursor` in a document of the given lines,
/// shown on a terminal of the given size.
///
/// Left and right step over the ends of lines. `MoveForward` goes one line
/// further into the document and `MoveDown` one line back towards its start.
/// The head, tail and page movements go by one terminal width or height and
/// stop at the ends of the line or the document.
pub open spec fn moved(
    cursor: Position,
    mode: CursorMode,
    lines: Seq<Seq<Seq<char>>>,
    terminal: Size,
) -> Position {
    let x = cursor.x as int;
    let y = cursor.y as int;
    let height = lines.len() as int;
    let width = line_width(lines, y);
    match mode {
        CursorMode::MoveForward => if y < height {
            Position { x: cursor.x, y: (y + 1) as usize }
        } else {
            cursor
        },
        CursorMode::MoveDown => if y > 0 {
            Position { x: cursor.x, y: (y - 1) as usize }
        } else {
            cursor
        },
        CursorMode::MoveRight => if x < width {
            Position { x: (x + 1) as usize, y: cursor.y }
        } else if y < height {
            Position { x: 0, y: (y + 1) as usize }
        } else {
            cursor
        },
        CursorMode::MoveLeft => if x > 0 {
            Position { x: (x - 1) as usize, y: cursor.y }
        } else if y > 0 {
            Position { x: line_width(lines, y - 1) as usize, y: (y - 1) as usize }
        } else {
            cursor
        },
        CursorMode::TailLine => if x + terminal.width < width {
            Position { x: (x + terminal.width) as usize, y: cursor.y }
        } else {
            Position { x: width as usize, y: cursor.y }
        },
        CursorMode::HeadLine => if x > terminal.width {
            Position { x: (x - terminal.width) as usize, y: cursor.y }
        } else {
            Position { x: 0, y: cursor.y }
        },
        CursorMode::PageDown => if y + terminal.height < height {
            Position { x: cursor.x, y: (y + terminal.height) as usize }
        } else {
            Position { x: cursor.x, y: height as usize }
        },
        CursorMode::PageUp => if y > terminal.height {
            Position { x: cursor.x, y: (y - terminal.height) as usize }
        } else {
            Position { x: cursor.x, y: 0 }
        },
        CursorMode::Unset => cursor,
    }
}

/// The warning shown when a quit is asked for and the document has unsaved
/// changes.
pub open spec fn quit_warning(quit_times: u8) -> Seq<char> {
    "WARNING! File has unsaved changes. Press Alt-Q "@ + decimal(quit_times as nat)
        + " more times to quit."@
}

/// How long a message stays on the message bar, in milliseconds.
pub const MESSAGE_TIME: u64 = 5000;

/// What has been typed at a prompt once `key` was pressed: backspace takes
/// the last character away, escape takes all of them, and a character that
/// is no control character is added.
pub open spec fn typed_after(typed: Seq<char>, key: Key) -> Seq<char> {
    match key {
        Key::Backspace => if typed.len() > 0 {
            typed.drop_last()
        } else {
            typed
        },
        Key::Char(c) => if control(c) {
            typed
        } else {
            typed.push(c)
        },
        Key::Esc => Seq::empty(),
        _ => typed,
    }
}

/// Whether `key` ends a prompt: the enter key and escape do.
pub open spec fn ends_prompt(key: Key) -> bool {
    key == Key::Char('\n') || key == Key::Esc
}

/// How a prompt goes on after a key.
pub enum PromptStep {
    /// The prompt goes on, with what has been typed so far.
    More(String),
    /// The prompt is over, with what was entered, if anything was.
    Done(Option<String>),
}

/// The line that greets the user in an empty document: a tilde, then the
/// program's name and version in the middle of the terminal, cut to its width.
pub open spec fn welcome_text(version: Seq<char>, width: int) -> Seq<char> {
    let message = "Text Editor -- version "@ + version;
    let len = encode_utf8(message).len() as int;
    let padding = if width > len {
        (width - len) / 2
    } else {
        0
    };
    let indent = if padding > 0 {
        padding - 1
    } else {
        0
    };
    truncated("~"@ + spaces(indent as nat) + message, width)
}

/// The state of a session.
pub struct Editor {
    pub should_quit: bool,
    pub terminal: Size,
    pub cursor_position: Position,
    pub offset: Position,
    pub status_message: StatusMessage,
    pub document: Document,
    pub quit_times: u8,
    pub modes: Modes,
    pub should_edit: bool,
}

/// What a session's state holds, as plain values.
pub struct EditorView {
    pub should_quit: bool,
    pub terminal: Size,
    pub cursor: Position,
    pub offset: Position,
    pub message: Seq<char>,
    pub message_time: u64,
    pub lines: Seq<Seq<Seq<char>>>,
    pub unsaved: bool,
    pub file_name: Option<Seq<char>>,
    pub quit_times: u8,
    pub editor_mode: (EditorMode, bool),
    pub cursor_mode: (CursorMode, bool),
    pub bindings: Map<Key, Seq<char>>,
    pub should_edit: bool,
}

impl View for Editor {
    type V = EditorView;

    open spec fn view(&self) -> EditorView {
        EditorView {
            should_quit: self.should_quit,
            terminal: self.terminal,
            cursor: self.cursor_position,
            offset: self.offset,
            message: self.status_message.text@,
            message_time: self.status_message.time,
            lines: self.document.lines(),
            unsaved: self.document.unsaved(),
            file_name: self.document.name(),
            quit_times: self.quit_times,
            editor_mode: self.modes.editor_mode,
            cursor_mode: self.modes.cursor_mode,
            bindings: self.modes.editor_key_maps@,
            should_edit: self.should_edit,
        }
    }
}

impl EditorView {
    /// The state with the window moved to where it shows the cursor.
    pub open spec fn scroll(self) -> EditorView {
        EditorView {
            offset: Position {
                x: scrolled(self.offset.x, self.cursor.x, self.terminal.width as usize),
                y: scrolled(self.offset.y, self.cursor.y, self.terminal.height as usize),
            },
            ..self
        }
    }

    /// The state with the cursor moved as `mode` asks.
    pub open spec fn move_cursor(self, mode: CursorMode) -> EditorView {
        EditorView { cursor: moved(self.cursor, mode, self.lines, self.terminal), ..self }
    }

    /// The state after a quit was asked for at time `now`: while the
    /// document has unsaved changes and the count is not used up, a warning
    /// and one less on the count; else the session is over.
    pub open spec fn quit(self, now: u64) -> EditorView {
        if self.quit_times > 0 && self.unsaved {
            EditorView {
                message: quit_warning(self.quit_times),
                message_time: now,
                quit_times: (self.quit_times - 1) as u8,
                ..self
            }
        } else {
            EditorView { should_quit: true, ..self }
        }
    }

    /// The state with the count of quit requests made full again. Where it
    /// was not full, the message goes too.
    pub open spec fn reset_quit(self, now: u64) -> EditorView {
        if self.quit_times < QUIT_TIMES {
            EditorView {
                quit_times: QUIT_TIMES,
                message: Seq::empty(),
                message_time: now,
                ..self
            }
        } else {
            self
        }
    }

    /// The state after `c` was typed at the cursor.
    pub open spec fn insert(self, c: char) -> EditorView {
        EditorView {
            lines: lines_after_insert(self.lines, self.cursor.x as int, self.cursor.y as int, c),
            unsaved: self.unsaved || self.cursor.y <= self.lines.len(),
            ..self
        }
    }

    /// The state after a delete at the cursor.
    pub open spec fn delete(self) -> EditorView {
        EditorView {
            lines: lines_after_delete(self.lines, self.cursor.x as int, self.cursor.y as int),
            unsaved: self.unsaved || self.cursor.y < self.lines.len(),
            ..self
        }
    }

    /// The state with `message` on the message bar, made at time `now`.
    pub open spec fn say(self, message: Seq<char>, now: u64) -> EditorView {
        EditorView { message, message_time: now, ..self }
    }

    /// The state after the outcome of writing the document to its file was
    /// taken note of at time `now`.
    pub open spec fn save(self, written: bool, now: u64) -> EditorView {
        EditorView {
            unsaved: self.unsaved && !(written && self.file_name.is_some()),
            ..self.say(
                if written {
                    "File saved successfully"@
                } else {
                    "Error writing file!"@
                },
                now,
            )
        }
    }

    /// The line at the bottom of the screen that tells of the document: on
    /// the left its name, cut to twenty bytes, its number of lines and
    /// whether it has unsaved changes; on the right the cursor's line and
    /// the number of lines; all of it cut to the terminal's width.
    pub open spec fn status_bar(self) -> Seq<char> {
        let width = self.terminal.width as int;
        let modified_indicator = if self.unsaved {
            "(modified)"@
        } else {
            "(up to date)"@
        };
        let line = if self.cursor.y < usize::MAX {
            self.cursor.y + 1
        } else {
            usize::MAX as int
        };
        let line_indicator = decimal(line as nat) + "/"@ + decimal(self.lines.len());
        let file_name = match self.file_name {
            Some(name) => truncated(name, 20),
            None => "[No Name]"@,
        };
        let status = file_name + " - "@ + decimal(self.lines.len()) + " lines "@
            + modified_indicator;
        let len = encode_utf8(status).len() + encode_utf8(line_indicator).len();
        let padded = if width > len {
            status + spaces((width - len) as nat)
        } else {
            status
        };
        truncated(padded + line_indicator, width)
    }

    /// What the message bar shows at time `now`: the message, cut to the
    /// terminal's width, until it is `MESSAGE_TIME` old; nothing after that.
    pub open spec fn message_bar(self, now: u64) -> Seq<char> {
        if now - self.message_time < MESSAGE_TIME {
            truncated(self.message, self.terminal.width as int)
        } else {
            Seq::empty()
        }
    }

    /// What row `terminal_row` of the screen shows: the part of the
    /// document's line there that is in the window; a third down the screen
    /// of an empty document the welcome line; a tilde below the document.
    pub open spec fn screen_row(self, terminal_row: u16, version: Seq<char>) -> Seq<char> {
        let index = terminal_row + self.offset.y;
        if index < self.lines.len() {
            rendered(self.lines[index], self.offset.x as int, self.offset.x + self.terminal.width)
        } else if self.lines.len() == 0 && terminal_row == self.terminal.height / 3 {
            welcome_text(version, self.terminal.width as int)
        } else {
            "~"@
        }
    }

    /// The state with the mode slots as `key` leaves them.
    pub open spec fn dispatch(self, key: Key) -> EditorView {
        EditorView {
            editor_mode: editor_slot_after(self.bindings, self.editor_mode, key),
            cursor_mode: cursor_slot_after(self.bindings, self.cursor_mode, key),
            ..self
        }
    }

    /// The state after what an armed editor slot asks for was done, but for
    /// the writing of the file, which is the caller's to do.
    pub open spec fn act(self, now: u64) -> EditorView {
        match self.editor_mode.0 {
            EditorMode::Edit => EditorView { should_edit: true, ..self },
            EditorMode::Read => EditorView { should_edit: false, ..self },
            EditorMode::Quit => self.quit(now),
            _ => self,
        }
    }

    /// The state after `key` was taken as text: a character is typed at the
    /// cursor, which then goes right; backspace, anywhere but at the very
    /// start, moves the cursor right and deletes there; delete deletes at
    /// the cursor.
    pub open spec fn edit(self, key: Key) -> EditorView {
        match key {
            Key::Char(c) => self.insert(c).move_cursor(CursorMode::MoveRight),
            Key::Backspace => if self.cursor.y > 0 || self.cursor.x > 0 {
                self.move_cursor(CursorMode::MoveRight).delete()
            } else {
                self
            },
            Key::Delete => self.delete(),
            _ => self,
        }
    }

    /// Whether `key` asks for the document to be saved.
    pub open spec fn save_asked(self, key: Key) -> bool {
        self.dispatch(key).editor_mode == (EditorMode::Write, true)
    }

    /// The state after `key` was pressed at time `now`. An armed editor slot
    /// is acted on and the cursor goes left; an armed cursor slot moves the
    /// cursor; with neither armed the key is text, if the session is in
    /// editing mode.
    pub open spec fn process_keypress(self, key: Key, now: u64) -> EditorView {
        let dispatched = self.dispatch(key);
        if dispatched.editor_mode.1 {
            dispatched.act(now).move_cursor(CursorMode::MoveLeft)
        } else if dispatched.cursor_mode.1 {
            dispatched.move_cursor(dispatched.cursor_mode.0)
        } else if dispatched.should_edit {
            dispatched.edit(key)
        } else {
            dispatched
        }
    }

    /// The state with both mode slots disarmed.
    pub open spec fn disarm(self) -> EditorView {
        EditorView {
            editor_mode: (self.editor_mode.0, false),
            cursor_mode: (self.cursor_mode.0, false),
            ..self
        }
    }

    /// The state at the end of the turn of one key: the window shows the
    /// cursor, the count of quit requests is full again unless the key
    /// asked to quit, and nothing is armed.
    pub open spec fn finish_keypress(self, now: u64) -> EditorView {
        if self.editor_mode == (EditorMode::Quit, true) {
            self.scroll().disarm()
        } else {
            self.scroll().reset_quit(now).disarm()
        }
    }
}

impl Editor {
    /// Moves the window to where it shows the cursor.
    pub fn scroll(&mut self)
        ensures
            final(self)@ == old(self)@.scroll(),
    {
        self.offset = scroll(&self.offset, &self.cursor_position, &self.terminal);
    }

    /// Moves the cursor as `mode` asks. The cursor stays on a line of the
    /// document or on the empty line past its end.
    pub fn move_cursor(&mut self, mode: CursorMode)
        ensures
            final(self)@ == old(self)@.move_cursor(mode),
            old(self)@.cursor.y <= old(self)@.lines.len()
                ==> final(self)@.cursor.y <= final(self)@.lines.len(),
    {
        let mut x: usize = self.cursor_position.x;
        let mut y: usize = self.cursor_position.y;
        let terminal_height: usize = self.terminal.height as usize;
        let terminal_width: usize = self.terminal.width as usize;
        let height: usize = self.document.len();
        let width: usize = match self.document.row(y) {
            Some(row) => row.get_len(),
            None => 0,
        };
        match mode {
            CursorMode::MoveForward => {
                if y < height {
                    y = y + 1;
                }
            },
            CursorMode::MoveDown => {
                y = y.saturating_sub(1);
            },
            CursorMode::MoveRight => {
                if x < width {
                    x = x + 1;
                } else if y < height {
                    y = y + 1;
                    x = 0;
                }
            },
            CursorMode::MoveLeft => {
                if x > 0 {
                    x = x - 1;
                } else if y > 0 {
                    y = y - 1;
                    x = match self.document.row(y) {
                        Some(row) => row.get_len(),
                        None => 0,
                    };
                }
            },
            CursorMode::TailLine => {
                x = if x.saturating_add(terminal_width) < width {
                    x + terminal_width
                } else {
                    width
                };
            },
            CursorMode::HeadLine => {
                x = if x > terminal_width {
                    x - terminal_width
                } else {
                    0
                };
            },
            CursorMode::PageDown => {
                y = if y.saturating_add(terminal_height) < height {
                    y + terminal_height
                } else {
                    height
                };
            },
            CursorMode::PageUp => {
                y = if y > terminal_height {
                    y - terminal_height
                } else {
                    0
                };
            },
            CursorMode::Unset => {},
        }
        self.cursor_position = Position { x, y };
    }

    /// Takes a request to quit at time `now`. A document with unsaved changes
    /// is not given up at once: the request has to be made again, as often
    /// as the count says.
    pub fn quit(&mut self, now: u64)
        ensures
            final(self)@ == old(self)@.quit(now),
    {
        if self.quit_times > 0 && self.document.is_dirty() {
            let mut warning = String::from_str("WARNING! File has unsaved changes. Press Alt-Q ");
            push_decimal(&mut warning, self.quit_times as usize);
            warning.append(" more times to quit.");
            self.status_message = StatusMessage::create(warning, now);
            self.quit_times = self.quit_times - 1;
            return ;
        }
        self.should_quit = true;
    }

    /// Makes the count of quit requests full again.
    pub fn reset_quit(&mut self, now: u64)
        ensures
            final(self)@ == old(self)@.reset_quit(now),
    {
        if self.quit_times < QUIT_TIMES {
            self.quit_times = QUIT_TIMES;
            self.status_message = StatusMessage::create(String::new(), now);
        }
    }

    /// Takes the key that was read at time `now`: lets the mode dispatcher
    /// see it, then acts on the slot that is armed, or takes the key as text.
    ///
    /// Returns whether the key asks for the document to be saved. Saving is
    /// the caller's to do, with `save_as` and `save`. In either case the turn
    /// of the key ends with `finish_keypress`.
    pub fn process_keypress(&mut self, pressed_key: Key, now: u64) -> (save: bool)
        ensures
            final(self)@ == old(self)@.process_keypress(pressed_key, now),
            save == old(self)@.save_asked(pressed_key),
    {
        self.modes.process_hashmap_key_press(&pressed_key);
        let editor_mode = self.modes.get_editor_mode();
        let cursor_mode = self.modes.get_cursor_mode();
        let mut save = false;
        if editor_mode.1 {
            match editor_mode.0 {
                EditorMode::Edit => {
                    self.should_edit = true;
                },
                EditorMode::Read => {
                    self.should_edit = false;
                },
                EditorMode::Write => {
                    save = true;
                },
                EditorMode::Quit => {
                    self.quit(now);
                },
                EditorMode::Unset => {},
            }
            self.move_cursor(CursorMode::MoveLeft);
        } else if cursor_mode.1 {
            self.move_cursor(cursor_mode.0);
        } else if self.should_edit {
            match pressed_key {
                Key::Char(c) => {
                    let at = self.cursor_position;
                    self.document.insert(&at, c);
                    self.move_cursor(CursorMode::MoveRight);
                },
                Key::Backspace => {
                    if self.cursor_position.y > 0 || self.cursor_position.x > 0 {
                        self.move_cursor(CursorMode::MoveRight);
                        let at = self.cursor_position;
                        self.document.delete(&at);
                    }
                },
                Key::Delete => {
                    let at = self.cursor_position;
                    self.document.delete(&at);
                },
                _ => {},
            }
        }
        save
    }

    /// Ends the turn of one key, at time `now`: scrolls to the cursor, makes
    /// the count of quit requests full again unless the key asked to quit,
    /// and disarms both mode slots.
    pub fn finish_keypress(&mut self, now: u64)
        ensures
            final(self)@ == old(self)@.finish_keypress(now),
            !final(self)@.editor_mode.1,
            !final(self)@.cursor_mode.1,
            final(self)@.terminal.width > 0 ==> in_window(
                final(self)@.offset.x,
                final(self)@.cursor.x,
                final(self)@.terminal.width as usize,
            ),
            final(self)@.terminal.height > 0 ==> in_window(
                final(self)@.offset.y,
                final(self)@.cursor.y,
                final(self)@.terminal.height as usize,
            ),
    {
        self.scroll();
        let editor_mode = self.modes.get_editor_mode();
        let cursor_mode = self.modes.get_cursor_mode();
        let quit_asked = editor_mode.1 && match editor_mode.0 {
            EditorMode::Quit => true,
            _ => false,
        };
        if !quit_asked {
            self.reset_quit(now);
        }
        self.modes.set_editor_mode(editor_mode.0, false);
        self.modes.set_cursor_mode(cursor_mode.0, false);
    }

    /// The session on a terminal of the given size, begun at time `now`.
    ///
    /// `file_name` is the file that the user named, if any, and `contents`
    /// its text, if it could be read. A file that could not be read gives an
    /// empty document without a name and a message that says so.
    pub fn default(
        file_name: Option<&str>,
        contents: Option<&str>,
        terminal: Size,
        now: u64,
    ) -> (editor: Self)
        ensures
            editor@ == (EditorView {
                should_quit: false,
                terminal,
                cursor: Position { x: 0, y: 0 },
                offset: Position { x: 0, y: 0 },
                message: match (file_name, contents) {
                    (Some(name), None) => "ERR: could not open file: "@ + name@,
                    _ => "HELP: Ctrl-W = write | HELP: Alt-Q = quit"@,
                },
                message_time: now,
                lines: match (file_name, contents) {
                    (Some(name), Some(text)) => text_lines(text@).map_values(
                        |line: Seq<char>| grapheme_clusters(line),
                    ),
                    _ => Seq::empty(),
                },
                unsaved: false,
                file_name: match (file_name, contents) {
                    (Some(name), Some(text)) => Some(name@),
                    _ => None,
                },
                quit_times: QUIT_TIMES,
                editor_mode: (EditorMode::Read, false),
                cursor_mode: (CursorMode::Unset, false),
                bindings: default_bindings(),
                should_edit: false,
            }),
    {
        let mut initial_status = String::from_str("HELP: Ctrl-W = write | HELP: Alt-Q = quit");
        let document = match file_name {
            Some(name) => match contents {
                Some(text) => Document::open(name, text),
                None => {
                    initial_status = String::from_str("ERR: could not open file: ");
                    initial_status.append(name);
                    Document::default()
                },
            },
            None => Document::default(),
        };
        Editor {
            should_quit: false,
            terminal,
            cursor_position: Position::default(),
            offset: Position::default(),
            status_message: StatusMessage::create(initial_status, now),
            document,
            quit_times: QUIT_TIMES,
            modes: Modes::default(),
            should_edit: false,
        }
    }

    /// Puts a prompt on the message bar, with what has been typed so far.
    pub fn prompt(&mut self, prompt: &str, typed: &str, now: u64)
        ensures
            final(self)@ == old(self)@.say(prompt@ + typed@, now),
    {
        let mut message = String::from_str(prompt);
        message.append(typed);
        self.status_message = StatusMessage::create(message, now);
    }

    /// Takes a key that was read at a prompt, where `typed` has been typed so
    /// far. Enter and escape end the prompt and clear the message bar;
    /// escape throws away what was typed. Any other key goes on with it.
    pub fn prompt_keypress(&mut self, typed: String, key: Key, now: u64) -> (step: PromptStep)
        ensures
            ends_prompt(key) == (step is Done),
            step matches PromptStep::More(text) ==> text@ == typed_after(typed@, key),
            step matches PromptStep::Done(Some(text)) ==> text@ == typed_after(typed@, key),
            step matches PromptStep::Done(entered) ==> entered.is_none() == (typed_after(
                typed@,
                key,
            ).len() == 0),
            final(self)@ == if ends_prompt(key) {
                old(self)@.say(Seq::empty(), now)
            } else {
                old(self)@
            },
    {
        let mut result = typed;
        let over = match key {
            Key::Backspace => {
                pop_char(&mut result);
                false
            },
            Key::Char(c) => {
                if c == '\n' {
                    true
                } else {
                    if !is_control(c) {
                        push_char(&mut result, c);
                    }
                    false
                }
            },
            Key::Esc => {
                result = String::new();
                true
            },
            _ => false,
        };
        if !over {
            return PromptStep::More(result);
        }
        self.status_message = StatusMessage::create(String::new(), now);
        if result.as_str().is_empty() {
            PromptStep::Done(None)
        } else {
            PromptStep::Done(Some(result))
        }
    }

    /// Takes the name entered at the prompt for a document that has none.
    /// With a name the document is named and can be written; without one
    /// the save is given up, and the message bar says so.
    pub fn save_as(&mut self, new_name: Option<String>, now: u64) -> (named: bool)
        ensures
            named == new_name.is_some(),
            final(self)@ == (match new_name {
                Some(name) => EditorView { file_name: Some(name@), ..old(self)@ },
                None => old(self)@.say("Save aborted."@, now),
            }),
    {
        match new_name {
            Some(name) => {
                self.document.set_file_name(Some(name));
                true
            },
            None => {
                self.status_message = StatusMessage::create(
                    String::from_str("Save aborted."),
                    now,
                );
                false
            },
        }
    }

    /// Takes note of how writing the document to its file went, at time
    /// `now`, and tells the user.
    pub fn save<E>(&mut self, written: Result<(), E>, now: u64)
        ensures
            final(self)@ == old(self)@.save(written.is_ok(), now),
    {
        if self.document.save(written).is_ok() {
            self.status_message = StatusMessage::create(
                String::from_str("File saved successfully"),
                now,
            );
        } else {
            self.status_message = StatusMessage::create(
                String::from_str("Error writing file!"),
                now,
            );
        }
    }

    /// The welcome line for this terminal.
    pub fn welcome_message(&self, version: &str) -> (text: String)
        ensures
            text@ == welcome_text(version@, self@.terminal.width as int),
    {
        let mut welcome_message = String::from_str("Text Editor -- version ");
        welcome_message.append(version);
        let width: usize = self.terminal.width as usize;
        let len: usize = byte_len(welcome_message.as_str());
        let padding: usize = width.saturating_sub(len) / 2;
        let mut line = String::from_str("~");
        push_spaces(&mut line, padding.saturating_sub(1));
        line.append(welcome_message.as_str());
        truncate(line.as_str(), width)
    }

    /// The part of `row` that is in the window.
    pub fn row_text(&self, row: &Row) -> (text: String)
        ensures
            text@ == rendered(row@, self@.offset.x as int, self@.offset.x + self@.terminal.width),
    {
        let width: usize = self.terminal.width as usize;
        let start: usize = self.offset.x;
        let end: usize = self.offset.x.saturating_add(width);
        proof {
            row.lemma_len_fits();
        }
        row.render(start, end)
    }

    /// What row `terminal_row` of the screen shows.
    pub fn screen_row(&self, terminal_row: u16, version: &str) -> (text: String)
        ensures
            text@ == self@.screen_row(terminal_row, version@),
    {
        let index = (terminal_row as usize).checked_add(self.offset.y);
        proof {
            self.document.lemma_lines_fit();
        }
        let row = match index {
            Some(index) => self.document.row(index),
            None => None,
        };
        if let Some(row) = row {
            self.row_text(row)
        } else if self.document.is_empty() && terminal_row == self.terminal.height / 3 {
            self.welcome_message(version)
        } else {
            String::from_str("~")
        }
    }

    /// The status bar for this state.
    pub fn status_bar(&self) -> (text: String)
        ensures
            text@ == self@.status_bar(),
    {
        let width: usize = self.terminal.width as usize;
        let lines = self.document.len();
        let mut line_indicator = String::new();
        push_decimal(&mut line_indicator, self.cursor_position.y.saturating_add(1));
        line_indicator.append("/");
        push_decimal(&mut line_indicator, lines);
        let mut status = match self.document.file_name() {
            Some(name) => truncate(name.as_str(), 20),
            None => String::from_str("[No Name]"),
        };
        status.append(" - ");
        push_decimal(&mut status, lines);
        status.append(" lines ");
        status.append(if self.document.is_dirty() {
            "(modified)"
        } else {
            "(up to date)"
        });
        let status_len = byte_len(status.as_str());
        let indicator_len = byte_len(line_indicator.as_str());
        if status_len < width && indicator_len < width - status_len {
            push_spaces(&mut status, width - status_len - indicator_len);
        }
        status.append(line_indicator.as_str());
        truncate(status.as_str(), width)
    }

    /// What the message bar shows at time `now`.
    pub fn message_bar(&self, now: u64) -> (text: String)
        ensures
            text@ == self@.message_bar(now),
    {
        if now.saturating_sub(self.status_message.time) < MESSAGE_TIME {
            truncate(self.status_message.text.as_str(), self.terminal.width as usize)
        } else {
            String::new()
        }
    }

    /// Where on the screen the cursor is: its place in the document, taken
    /// from the top left of the window.
    pub fn screen_cursor(&self) -> (position: Position)
        ensures
            position.x == self@.cursor.x.saturating_sub(self@.offset.x),
            position.y == self@.cursor.y.saturating_sub(self@.offset.y),
    {
        Position {
            x: self.cursor_position.x.saturating_sub(self.offset.x),
            y: self.cursor_position.y.saturating_sub(self.offset.y),
        }
    }
}

/// Whether `mode` moves the cursor along its line, or not at all.
pub open spec fn along_the_line(mode: CursorMode) -> bool {
    mode != CursorMode::MoveForward && mode != CursorMode::MoveDown && mode != CursorMode::PageDown
        && mode != CursorMode::PageUp
}

/// No movement takes the cursor out of the document: from a line of the
/// document, or the empty line past its end, it goes to such a line. A
/// movement along the line, which may step over the end of a line, also
/// keeps the cursor within the line it comes to.
pub proof fn move_keeps_cursor_in_document(state: EditorView, mode: CursorMode)
    requires
        state.cursor.y <= state.lines.len(),
    ensures
        state.move_cursor(mode).cursor.y <= state.lines.len(),
        along_the_line(mode) && valid_cursor(state.lines, state.cursor) ==> valid_cursor(
            state.lines,
            state.move_cursor(mode).cursor,
        ),
{
}

/// Typing and deleting keep the cursor in the document: where the cursor is
/// on a line and not past its end before a key is taken as text, it is so
/// afterwards, in the lines as they are then.
pub proof fn edit_keeps_cursor_valid(state: EditorView, key: Key)
    requires
        valid_cursor(state.lines, state.cursor),
    ensures
        valid_cursor(state.edit(key).lines, state.edit(key).cursor),
{
}

} // verus!
