//! The session: the line being typed, the entry log and the two bars.

use vstd::prelude::*;
use crate::command::{commit_status, recognize, suggestion, Commands};
use crate::draw::DrawOp;
use crate::input::{InputBuffer, InputView};
use crate::record::{record_of, Record, RecordView, Records};
use crate::render::{frame, frame_steps, scrollback, scrollback_room, scrollback_steps};

verus! {

/// One key, as the terminal reports it.
#[derive(Copy, Clone, Debug, PartialEq, Eq, Structural)]
pub enum Key {
    /// A character; the line feed is the Enter key.
    Char(char),
    /// A character typed with the Control key held down.
    Ctrl(char),
    /// The Backspace key.
    Backspace,
    /// Any other key.
    Other,
}

/// What the session asks for after a key.
#[derive(Copy, Clone, Debug, PartialEq, Eq, Structural)]
pub enum Next {
    /// Draw the frame anew and read the next key.
    Redraw,
    /// Leave the session.
    Quit,
}

/// What is to follow a key: Control-D ends the session, whatever the state.
pub open spec fn next_after(key: Key) -> Next {
    if key == Key::Ctrl('d') {
        Next::Quit
    } else {
        Next::Redraw
    }
}

/// The state of one session.
pub struct Screen {
    input: InputBuffer,
    prompt: String,
    records: Records,
    status_bar_text: String,
    title_bar_text: String,
}

/// What a `Screen` holds, as mathematical values.
pub struct ScreenView {
    pub input: InputView,
    pub prompt: Seq<char>,
    pub records: Seq<RecordView>,
    pub status: Seq<char>,
    pub title: Seq<char>,
}

impl ScreenView {
    /// The cursor is within the line, and each record has the height of its text.
    pub open spec fn wf(self) -> bool {
        &&& self.input.wf()
        &&& forall|i: int| 0 <= i < self.records.len() ==> (#[trigger] self.records[i]).wf()
    }

    /// The state at the start of a session.
    pub open spec fn initial() -> ScreenView {
        ScreenView {
            input: InputView::empty(),
            prompt: "<user>"@,
            records: Seq::empty(),
            status: "Status Bar"@,
            title: "Title Bar"@,
        }
    }

    /// The same state with another text in the status bar.
    pub open spec fn with_status(self, status: Seq<char>) -> ScreenView {
        ScreenView { status, ..self }
    }

    /// The state after Enter. A command line is committed as a command, and the status bar
    /// tells the outcome; any other line becomes the newest record of the log. The line is
    /// emptied in both cases.
    pub open spec fn commit(self) -> ScreenView {
        if self.input.command_mode() {
            ScreenView {
                input: InputView::empty(),
                status: commit_status(recognize(self.input.chars)),
                ..self
            }
        } else {
            ScreenView {
                input: InputView::empty(),
                records: self.records.push(record_of(self.input.chars)),
                ..self
            }
        }
    }

    /// The state after the character `c` was typed. The character joins the line; if the
    /// line is then a command line, the status bar shows the suggestion for it.
    pub open spec fn typed(self, c: char) -> ScreenView {
        let input = self.input.push(c);
        if input.command_mode() {
            ScreenView { input, status: suggestion(recognize(input.chars)).0, ..self }
        } else {
            ScreenView { input, ..self }
        }
    }

    /// The state after Backspace. The last character leaves the line; if the line is still
    /// a command line, the status bar shows the suggestion for it, and if it has ceased to
    /// be one, the status bar is emptied.
    pub open spec fn erased(self) -> ScreenView {
        let input = self.input.pop();
        if input.command_mode() {
            ScreenView { input, status: suggestion(recognize(input.chars)).0, ..self }
        } else if self.input.command_mode() {
            ScreenView { input, status: Seq::empty(), ..self }
        } else {
            ScreenView { input, ..self }
        }
    }

    /// The state after a key: the line feed is Enter, any other character is typed, and
    /// Backspace erases. No other key changes the state.
    pub open spec fn step(self, key: Key) -> ScreenView {
        match key {
            Key::Char(c) => if c == '\n' {
                self.commit()
            } else {
                self.typed(c)
            },
            Key::Backspace => self.erased(),
            Key::Ctrl(_) => self,
            Key::Other => self,
        }
    }
}

/// Backspace on an empty line changes nothing in the session.
pub proof fn lemma_backspace_on_empty_line(s: ScreenView)
    requires
        s.wf(),
        s.input.chars.len() == 0,
    ensures
        s.step(Key::Backspace) == s,
{
}

/// A key leaves the cursor within the line and each record with the height of its text.
pub proof fn lemma_step_keeps_wf(s: ScreenView, key: Key)
    requires
        s.wf(),
    ensures
        s.step(key).wf(),
{
}

/// The mode after a key. Enter leaves the session in normal mode. A character typed into
/// an empty line opens a command line exactly if it is a slash, and typed into any other
/// line it keeps the mode. Backspace leaves command mode exactly if it erases the slash.
/// No other key changes the mode.
pub proof fn lemma_mode_after_key(s: ScreenView, key: Key)
    requires
        s.wf(),
    ensures
        s.step(key).input.command_mode() == match key {
            Key::Char(c) => if c == '\n' {
                false
            } else if s.input.chars.len() == 0 {
                c == '/'
            } else {
                s.input.command_mode()
            },
            Key::Backspace => s.input.command_mode() && (s.input.offset == 0
                || s.input.chars.len() > 1),
            Key::Ctrl(_) => s.input.command_mode(),
            Key::Other => s.input.command_mode(),
        },
{
}

impl View for Screen {
    type V = ScreenView;

    closed spec fn view(&self) -> ScreenView {
        ScreenView {
            input: self.input@,
            prompt: self.prompt@,
            records: self.records.deep_view(),
            status: self.status_bar_text@,
            title: self.title_bar_text@,
        }
    }
}

impl Screen {
    /// A session with an empty line and an empty log.
    pub fn new() -> (s: Screen)
        ensures
            s@ == ScreenView::initial(),
            s@.wf(),
    {
        let s = Screen {
            input: InputBuffer::new(),
            prompt: String::from_str("<user>"),
            records: Vec::new(),
            status_bar_text: String::from_str("Status Bar"),
            title_bar_text: String::from_str("Title Bar"),
        };
        assert(s.records.deep_view() =~= Seq::<RecordView>::empty());
        s
    }

    /// Puts `text` in the status bar.
    pub fn set_status(&mut self, text: &str)
        ensures
            final(self)@ == old(self)@.with_status(text@),
    {
        self.status_bar_text = String::from_str(text);
    }

    /// The text in the status bar.
    pub fn status(&self) -> (r: &str)
        ensures
            r@ == self@.status,
    {
        self.status_bar_text.as_str()
    }

    /// The text in the title bar.
    pub fn title(&self) -> (r: &str)
        ensures
            r@ == self@.title,
    {
        self.title_bar_text.as_str()
    }

    /// The prompt that stands before the line being typed.
    pub fn prompt(&self) -> (r: &str)
        ensures
            r@ == self@.prompt,
    {
        self.prompt.as_str()
    }

    /// The entry log, oldest record first.
    pub fn records(&self) -> (r: &Records)
        ensures
            r.deep_view() == self@.records,
    {
        &self.records
    }

    /// The line being typed.
    pub fn input(&self) -> (r: &InputBuffer)
        ensures
            r@ == self@.input,
    {
        &self.input
    }

    /// The line being typed, as a text.
    pub fn current_line(&self) -> (line: String)
        ensures
            line@ == self@.input.chars,
    {
        self.input.current_line()
    }

    /// Whether the line being typed is a command line.
    pub fn command_mode(&self) -> (r: bool)
        ensures
            r == self@.input.command_mode(),
    {
        self.input.command_mode()
    }

    /// Takes one key and says what is to follow. Control-D ends the session and changes
    /// nothing. Enter commits the line, any other character is typed, Backspace erases, and
    /// no other key changes anything.
    pub fn handle_key(&mut self, key: Key) -> (next: Next)
        requires
            old(self)@.wf(),
        ensures
            next == next_after(key),
            final(self)@ == old(self)@.step(key),
            final(self)@.wf(),
    {
        match key {
            Key::Char(c) => {
                if c == '\n' {
                    self.enter();
                } else {
                    self.type_char(c);
                }
                Next::Redraw
            },
            Key::Backspace => {
                self.backspace();
                Next::Redraw
            },
            Key::Ctrl(c) => {
                if c == 'd' {
                    Next::Quit
                } else {
                    Next::Redraw
                }
            },
            Key::Other => Next::Redraw,
        }
    }

    /// The steps that draw the records in view on a terminal of the given height, the
    /// newest record first.
    pub fn records_view(&self, height: u16) -> (ops: Vec<DrawOp>)
        ensures
            ops.deep_view() == scrollback(
                self@.records,
                scrollback_room(self@.input.chars, height),
            ),
    {
        scrollback_steps(&self.records, &self.input, height)
    }

    /// The steps that draw the whole frame on a terminal of the given size.
    pub fn redraw(&self, width: u16, height: u16) -> (ops: Vec<DrawOp>)
        ensures
            ops.deep_view() == frame(self@, width, height),
    {
        frame_steps(
            width,
            height,
            self.title_bar_text.as_str(),
            self.status_bar_text.as_str(),
            self.prompt.as_str(),
            &self.input,
            &self.records,
        )
    }

    /// Commits the line being typed.
    fn enter(&mut self)
        requires
            old(self)@.wf(),
        ensures
            final(self)@ == old(self)@.commit(),
            final(self)@.wf(),
    {
        if self.input.command_mode() {
            let mut command = Commands::new(self.input.current_line());
            command.run(self);
        } else {
            let record = Record::from_str(self.input.current_line());
            self.records.push(record);
            assert(self.records.deep_view() =~= old(self).records.deep_view().push(
                record_of(old(self)@.input.chars),
            ));
        }
        self.input.clear();
    }

    /// Types one character.
    fn type_char(&mut self, c: char)
        requires
            old(self)@.wf(),
        ensures
            final(self)@ == old(self)@.typed(c),
            final(self)@.wf(),
    {
        self.input.push(c);
        if self.input.command_mode() {
            let command = Commands::new(self.input.current_line());
            command.suggest(self);
        }
        assert(self@.records == old(self)@.records);
    }

    /// Erases one character.
    fn backspace(&mut self)
        requires
            old(self)@.wf(),
        ensures
            final(self)@ == old(self)@.erased(),
            final(self)@.wf(),
    {
        let was_command = self.input.command_mode();
        self.input.pop();
        if self.input.command_mode() {
            let command = Commands::new(self.input.current_line());
            command.suggest(self);
        } else if was_command {
            self.set_status("");
            proof {
                reveal_strlit("");
            }
            assert(self@.status =~= Seq::<char>::empty());
        }
        assert(self@.records == old(self)@.records);
    }
}

} // verus!
