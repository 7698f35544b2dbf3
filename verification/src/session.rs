//! The editor as a state machine: what a session is, and what every input
//! does to it.

use crate::editor::State;
use crate::key::{Event, Key};
use crate::registry::Handler;
use crate::screen::{all_drawable, ClearScope, EffectView};
use crate::text::{words, SEPARATOR};
use crate::text_buf::{Document, WriteError};
use vstd::prelude::*;

verus! {

/// The state of an editor, as mathematics.
pub struct Session {
    /// Whether the session goes on.
    pub running: bool,
    /// Whether the screen has to be drawn anew.
    pub redraw: bool,
    /// The command line typed so far.
    pub pending: Seq<char>,
    pub state: State,
    /// The open documents, each with the first of its rows that is on the
    /// screen.
    pub docs: Seq<(Document, int)>,
    /// Which of the documents is being edited.
    pub active: int,
    pub commands: Map<Seq<char>, Handler>,
    pub keys: Map<Key, Handler>,
}

/// The nearest number that a screen position can hold.
pub open spec fn clip(n: int) -> u16 {
    if n < 0 {
        0
    } else if n > u16::MAX {
        u16::MAX
    } else {
        n as u16
    }
}

/// Showing `text` on the bottom row of a screen of `rows` rows, in place of
/// what was there.
pub open spec fn status_line(rows: u16, text: Seq<char>) -> Seq<EffectView> {
    seq![
        EffectView::Goto(0, rows),
        EffectView::Clear(ClearScope::CurrentLine),
        EffectView::Print(text),
    ]
}

/// What the bottom row says about a write that went as `outcome` tells.
pub open spec fn write_status(outcome: Result<(), Seq<char>>) -> Seq<char> {
    match outcome {
        Ok(_) => "File written"@,
        Err(report) => "Failed to write file: "@ + report,
    }
}

/// The name of the command on a command line: its first word, or the empty
/// name where it has no word.
pub open spec fn command_name(line: Seq<char>) -> Seq<char> {
    if words(line).len() > 0 {
        words(line)[0]
    } else {
        Seq::empty()
    }
}

/// The arguments of the command on a command line: its words but the first.
pub open spec fn command_args(line: Seq<char>) -> Seq<Seq<char>> {
    if words(line).len() > 0 {
        words(line).skip(1)
    } else {
        Seq::empty()
    }
}

/// The key bindings of the default environment, on top of `keys`.
pub open spec fn default_keys(keys: Map<Key, Handler>) -> Map<Key, Handler> {
    keys.insert(Key::Left, Handler::Left).insert(Key::Right, Handler::Right).insert(
        Key::Up,
        Handler::Up,
    ).insert(Key::Down, Handler::Down).insert(Key::Char('h'), Handler::Left).insert(
        Key::Char('l'),
        Handler::Right,
    ).insert(Key::Char('k'), Handler::Up).insert(Key::Char('j'), Handler::Down).insert(
        Key::Char(':'),
        Handler::CommandMode,
    ).insert(Key::Esc, Handler::NormalMode).insert(Key::Char('i'), Handler::InsertMode)
}

/// The commands of the default environment, on top of `commands`.
pub open spec fn default_commands(commands: Map<Seq<char>, Handler>) -> Map<Seq<char>, Handler> {
    commands.insert("quit"@, Handler::Quit).insert("q"@, Handler::Quit).insert(
        "write"@,
        Handler::Write,
    ).insert("w"@, Handler::Write).insert("wq"@, Handler::WriteQuit)
}

impl Session {
    /// The active document is one of the open documents, every open document
    /// is well-formed, and no viewport starts before the first row.
    pub open spec fn wf(self) -> bool {
        &&& 0 <= self.active < self.docs.len()
        &&& forall|i: int|
            0 <= i < self.docs.len() ==> (#[trigger] self.docs[i]).0.wf() && self.docs[i].1 >= 0
    }

    /// A session that has just opened `doc`.
    pub open spec fn start(doc: Document) -> Session {
        Session {
            running: true,
            redraw: true,
            pending: Seq::empty(),
            state: State::Normal,
            docs: seq![(doc, 0int)],
            active: 0,
            commands: Map::empty(),
            keys: Map::empty(),
        }
    }

    /// The document that is being edited.
    pub open spec fn doc(self) -> Document {
        self.docs[self.active].0
    }

    /// The first row of the active document that is on the screen.
    pub open spec fn offset(self) -> int {
        self.docs[self.active].1
    }

    /// The session with `doc` in place of the active document.
    pub open spec fn with_doc(self, doc: Document) -> Session {
        Session { docs: self.docs.update(self.active, (doc, self.offset())), ..self }
    }

    /// The session with the active document's viewport starting at row
    /// `offset`.
    pub open spec fn with_offset(self, offset: int) -> Session {
        Session { docs: self.docs.update(self.active, (self.doc(), offset)), ..self }
    }

    /// Where the cursor belongs on a screen of `rows` rows: behind the
    /// pending text on the bottom row in command-line mode, else at the
    /// document's cursor. The bottom row starts with the colon, so the
    /// pending text starts in column 2. Positions count from 1 and stop at
    /// the largest number that a screen position can hold.
    pub open spec fn cursor_goto(self, rows: u16) -> EffectView {
        match self.state {
            State::Command => EffectView::Goto(clip(self.pending.len() as int + 2), rows),
            _ => EffectView::Goto(
                clip(self.doc().column + 1),
                clip(self.doc().row + 1 - self.offset()),
            ),
        }
    }

    /// What a handler that has nothing to say does to the bottom row: it
    /// is cleared if `clear` is set, and left alone if not.
    pub open spec fn silence(clear: bool, rows: u16) -> Seq<EffectView> {
        if clear {
            status_line(rows, Seq::empty())
        } else {
            Seq::empty()
        }
    }

    /// The request to write the active document, where a write with the
    /// path `path` has a file to go to.
    pub open spec fn save(self, path: Option<Seq<char>>, announce: bool) -> Option<EffectView> {
        match self.doc().target(path) {
            Some(target) => Some(
                EffectView::Save { path: target, text: self.doc().text(), announce },
            ),
            None => None,
        }
    }

    /// Running `handler` with the arguments `args`: the session afterwards
    /// and the effects, on a screen of `rows` rows. `clear` says whether a
    /// handler that has nothing to say clears the bottom row.
    pub open spec fn invoke(self, handler: Handler, args: Seq<Seq<char>>, clear: bool, rows: u16) -> (
        Session,
        Seq<EffectView>,
    ) {
        let silent = Session::silence(clear, rows);
        match handler {
            Handler::Quit => (Session { running: false, ..self }, silent),
            Handler::Write => (
                self,
                match self.save(
                    if args.len() > 0 {
                        Some(args[0])
                    } else {
                        None
                    },
                    true,
                ) {
                    Some(request) => seq![request],
                    None => status_line(rows, write_status(Err(WriteError::NoFilename.report()))),
                },
            ),
            Handler::WriteQuit => (
                Session { running: false, ..self },
                match self.save(None, false) {
                    Some(request) => seq![request] + silent,
                    None => silent,
                },
            ),
            Handler::CommandMode => (
                Session { state: State::Command, pending: Seq::empty(), ..self },
                status_line(rows, ":"@),
            ),
            Handler::NormalMode => (
                Session { state: State::Normal, ..self },
                status_line(rows, "--NORMAL--"@),
            ),
            Handler::InsertMode => (
                Session { state: State::Insert, ..self },
                status_line(rows, "--INSERT--"@),
            ),
            Handler::Left => (self.with_doc(self.doc().left()), silent),
            Handler::Right => (self.with_doc(self.doc().right()), silent),
            Handler::Up => (self.with_doc(self.doc().up()), silent),
            Handler::Down => (self.with_doc(self.doc().down()), silent),
        }
    }

    /// A key in normal mode, or a key in insert mode that types nothing:
    /// the handler that the key is bound to runs. The Enter key is never
    /// looked up, and a key without a binding does nothing.
    pub open spec fn bound_key(self, event: Event, rows: u16) -> (Session, Seq<EffectView>) {
        match event {
            Event::Key(key) => if key != Key::Char(SEPARATOR) && self.keys.contains_key(key) {
                self.invoke(self.keys[key], Seq::empty(), false, rows)
            } else {
                (self, Seq::empty())
            },
            Event::Other => (self, Seq::empty()),
        }
    }

    /// A key in insert mode: a character key types its character,
    /// Backspace deletes backwards, and every other key is looked up.
    pub open spec fn typed(self, event: Event, rows: u16) -> (Session, Seq<EffectView>) {
        match event {
            Event::Key(Key::Char(c)) => (
                Session { redraw: true, ..self.with_doc(self.doc().insert(c)) },
                Seq::empty(),
            ),
            Event::Key(Key::Backspace) => (
                Session { redraw: true, ..self.with_doc(self.doc().backspace()) },
                Seq::empty(),
            ),
            _ => self.bound_key(event, rows),
        }
    }

    /// The Enter key in command-line mode. The first word of the pending
    /// text is the name of a command and the other words are its
    /// arguments; a text without a word names the command with the empty
    /// name. The editor goes back to normal mode with nothing pending, and
    /// then the command runs, or the bottom row says that there is none.
    pub open spec fn submit(self, rows: u16) -> (Session, Seq<EffectView>) {
        let name = command_name(self.pending);
        let idle = Session { state: State::Normal, pending: Seq::empty(), ..self };
        if self.commands.contains_key(name) {
            idle.invoke(self.commands[name], command_args(self.pending), true, rows)
        } else {
            (idle, status_line(rows, "Unknown command"@))
        }
    }

    /// A key in command-line mode. Escape drops the pending text, Enter
    /// submits it, Backspace takes its last character off and off the
    /// screen, and a character key adds its character and shows it.
    pub open spec fn command_key(self, event: Event, rows: u16) -> (Session, Seq<EffectView>) {
        match event {
            Event::Key(Key::Esc) => (
                Session { state: State::Normal, pending: Seq::empty(), ..self },
                status_line(rows, "--NORMAL--"@),
            ),
            Event::Key(Key::Backspace) => if self.pending.len() > 0 {
                (
                    Session { pending: self.pending.drop_last(), ..self },
                    seq![EffectView::Left(1), EffectView::Clear(ClearScope::UntilNewline)],
                )
            } else {
                (self, Seq::empty())
            },
            Event::Key(Key::Char(c)) => if c == SEPARATOR {
                self.submit(rows)
            } else {
                (Session { pending: self.pending.push(c), ..self }, seq![EffectView::Print(seq![c])])
            },
            _ => (self, Seq::empty()),
        }
    }

    /// One input event: the session afterwards, and the effects in order.
    /// Outside command-line mode the cursor is put back where it belongs
    /// afterwards; in every mode the screen is flushed at the end.
    pub open spec fn step(self, event: Event, rows: u16) -> (Session, Seq<EffectView>) {
        match self.state {
            State::Command => {
                let (next, effects) = self.command_key(event, rows);
                (next, effects.push(EffectView::Flush))
            },
            State::Normal => {
                let (next, effects) = self.bound_key(event, rows);
                (next, effects.push(next.cursor_goto(rows)).push(EffectView::Flush))
            },
            State::Insert => {
                let (next, effects) = self.typed(event, rows);
                (next, effects.push(next.cursor_goto(rows)).push(EffectView::Flush))
            },
        }
    }

    /// The end of a write: a write that succeeded leaves the active
    /// document without unsaved changes, and the bottom row says how the
    /// write went if it is to be announced.
    pub open spec fn saved(self, outcome: Result<(), Seq<char>>, announce: bool, rows: u16) -> (
        Session,
        Seq<EffectView>,
    ) {
        (
            match outcome {
                Ok(_) => self.with_doc(Document { dirty: false, ..self.doc() }),
                Err(_) => self,
            },
            if announce {
                status_line(rows, write_status(outcome))
            } else {
                Seq::empty()
            },
        )
    }

    /// The viewport after one step of scrolling on a screen of `rows` rows,
    /// of which the last is not for the document: it moves down by one row
    /// where the cursor is below the last row shown, and up by one row
    /// where the cursor is above the first.
    pub open spec fn scrolled(self, rows: u16) -> Session {
        let distance = self.doc().row - self.offset();
        if distance > rows - 2 {
            Session { redraw: true, ..self.with_offset(self.offset() + 1) }
        } else if distance < 0 {
            Session { redraw: true, ..self.with_offset(self.offset() - 1) }
        } else {
            self
        }
    }

    /// What screen row `y` shows, counted from 0 at the top: a line of the
    /// document, or a tilde below its last line; then the move to the start
    /// of the next screen row.
    pub open spec fn shown(self, y: int) -> Seq<char> {
        let row = self.offset() + y;
        if row < self.doc().lines.len() {
            self.doc().lines[row] + seq!['\r', '\n']
        } else {
            seq!['~', '\r', '\n']
        }
    }

    /// Drawing the document on a screen of `rows` rows: from the top left
    /// corner, every row but the last, then the cursor back to its place.
    pub open spec fn frame(self, rows: u16) -> Seq<EffectView> {
        seq![EffectView::Goto(1, 1)] + Seq::new(
            (rows - 1) as nat,
            |i: int| EffectView::Print(self.shown(i)),
        ) + seq![self.cursor_goto(rows)]
    }

    /// Bringing the screen up to date: where it has to be drawn anew it is
    /// cleared, drawn and flushed.
    pub open spec fn refreshed(self, rows: u16) -> (Session, Seq<EffectView>) {
        if self.redraw {
            (
                Session { redraw: false, ..self },
                seq![EffectView::Clear(ClearScope::All)] + self.frame(rows) + seq![
                    EffectView::Flush,
                ],
            )
        } else {
            (self, Seq::empty())
        }
    }

    /// Whether the cursor's row is one of the rows that a screen of `rows`
    /// rows shows.
    pub open spec fn cursor_visible(self, rows: u16) -> bool {
        self.offset() <= self.doc().row <= self.offset() + rows - 2
    }

    /// Running a handler keeps a session well-formed. It moves the cursor by
    /// one row at most and leaves the viewport where it is.
    pub proof fn lemma_invoke(self, handler: Handler, args: Seq<Seq<char>>, clear: bool, rows: u16)
        requires
            self.wf(),
        ensures
            self.invoke(handler, args, clear, rows).0.wf(),
            self.invoke(handler, args, clear, rows).0.offset() == self.offset(),
            self.doc().row - 1 <= self.invoke(handler, args, clear, rows).0.doc().row
                <= self.doc().row + 1,
            rows >= 1 ==> all_drawable(self.invoke(handler, args, clear, rows).1),
    {
        self.doc().lemma_moves_wf();
    }

    /// Every input event keeps a session well-formed: in every state that
    /// the editor can reach, the cursor of each document is on one of its
    /// lines, and on that line or just behind its end.
    pub proof fn lemma_step_wf(self, event: Event, rows: u16)
        requires
            self.wf(),
        ensures
            self.step(event, rows).0.wf(),
    {
        self.lemma_step(event, rows);
    }

    /// An input event keeps a session well-formed, moves the cursor by one
    /// row at most, leaves the viewport where it is, and on a screen with
    /// at least one row asks for nothing that the screen has no place for.
    pub proof fn lemma_step(self, event: Event, rows: u16)
        requires
            self.wf(),
        ensures
            self.step(event, rows).0.wf(),
            self.step(event, rows).0.offset() == self.offset(),
            self.doc().row - 1 <= self.step(event, rows).0.doc().row <= self.doc().row + 1,
            rows >= 1 ==> all_drawable(self.step(event, rows).1),
    {
        let idle = Session { state: State::Normal, pending: Seq::empty(), ..self };
        let name = command_name(self.pending);
        if self.commands.contains_key(name) {
            idle.lemma_invoke(self.commands[name], command_args(self.pending), true, rows);
        }
        match event {
            Event::Key(key) => {
                if self.keys.contains_key(key) {
                    self.lemma_invoke(self.keys[key], Seq::empty(), false, rows);
                }
                match key {
                    Key::Char(c) => {
                        self.doc().lemma_insert_wf(c);
                    },
                    Key::Backspace => {
                        self.doc().lemma_backspace_wf();
                    },
                    _ => {},
                }
            },
            Event::Other => {},
        }
    }

    /// Escape leads to normal mode from every mode, and the bottom row says
    /// so, as long as the Escape key is bound as the default environment
    /// binds it. Whatever was pending in command-line mode is dropped, and
    /// no command runs: the documents and the running flag stay as they are.
    pub proof fn lemma_escape(self, rows: u16)
        requires
            self.wf(),
            self.keys.contains_key(Key::Esc),
            self.keys[Key::Esc] == Handler::NormalMode,
        ensures
            self.step(Event::Key(Key::Esc), rows).0.state == State::Normal,
            self.step(Event::Key(Key::Esc), rows).0.docs == self.docs,
            self.step(Event::Key(Key::Esc), rows).0.running == self.running,
            self.state == State::Command ==> self.step(Event::Key(Key::Esc), rows).0.pending
                == Seq::<char>::empty(),
            self.step(Event::Key(Key::Esc), rows).1.take(3) == status_line(rows, "--NORMAL--"@),
    {
    }

    /// Failures are reported and change nothing else. A command line that
    /// names no command leaves the documents and the running flag as they
    /// are, and the editor in normal mode with the bottom row saying that
    /// the command is unknown. A write that failed leaves the session as it
    /// is.
    pub proof fn lemma_failures(self, report: Seq<char>, announce: bool, rows: u16)
        requires
            self.wf(),
        ensures
            self.state == State::Command && !self.commands.contains_key(command_name(self.pending))
                ==> self.step(Event::Key(Key::Char(SEPARATOR)), rows) == (
                Session { state: State::Normal, pending: Seq::empty(), ..self },
                status_line(rows, "Unknown command"@).push(EffectView::Flush),
            ),
            self.saved(Err(report), announce, rows).0 == self,
    {
    }

    /// A step of scrolling keeps a session well-formed. On a screen that
    /// shows at least one row of the document, a viewport that starts one
    /// row below the cursor at most has the cursor in or below it
    /// afterwards.
    pub proof fn lemma_scrolled(self, rows: u16)
        requires
            self.wf(),
            rows >= 1,
        ensures
            self.scrolled(rows).wf(),
            rows >= 2 && self.offset() <= self.doc().row + 1 ==> self.scrolled(rows).offset()
                <= self.scrolled(rows).doc().row,
    {
    }

    /// One step of scrolling after each event is enough: where the screen
    /// shows at least one row of the document and the cursor's row is among
    /// the rows shown, it is so again after any event and the step of
    /// scrolling that follows it.
    pub proof fn lemma_cursor_stays_visible(self, event: Event, rows: u16)
        requires
            self.wf(),
            rows >= 2,
            self.cursor_visible(rows),
        ensures
            self.step(event, rows).0.scrolled(rows).cursor_visible(rows),
    {
        self.lemma_step(event, rows);
    }
}

} // verus!
