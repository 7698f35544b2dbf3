//! The mode dispatch engine: open buffers, a mode, a pending command line
//! and two registries, driven one input event at a time.

use crate::key::{Event, Key};
use crate::registry::{Handler, Registry};
use crate::screen::{all_drawable, ClearScope, Effect, EffectView};
use crate::session::{clip, default_commands, default_keys, status_line, Session};
use crate::text::{split_words, SEPARATOR};
use crate::text_buf::{Document, TextBuf, WriteError};
use vstd::prelude::*;
use vstd::string::*;

verus! {

/// The mode that the editor is in.
#[derive(Debug, Clone, Copy, PartialEq, Eq, Structural)]
pub enum State {
    /// Keys move the cursor and change the mode.
    Normal,
    /// Keys make up a command line.
    Command,
    /// Keys type text into the document.
    Insert,
}

/// A modal editor over one or more buffers.
pub struct Editor {
    running: bool,
    needs_redraw: bool,
    command: String,
    state: State,
    text_bufs: Vec<(TextBuf, usize)>,
    cur_text_buf: usize,
    command_map: Registry<String>,
    keybind_map: Registry<Key>,
}

impl View for Editor {
    type V = Session;

    closed spec fn view(&self) -> Session {
        Session {
            running: self.running,
            redraw: self.needs_redraw,
            pending: self.command@,
            state: self.state,
            docs: Seq::new(
                self.text_bufs@.len(),
                |i: int| (self.text_bufs@[i].0@, self.text_bufs@[i].1 as int),
            ),
            active: self.cur_text_buf as int,
            commands: self.command_map@,
            keys: self.keybind_map@,
        }
    }
}

/// The effects that show `status` on the bottom row.
fn status_effects(rows: u16, status: &str) -> (effects: Vec<Effect>)
    ensures
        effects.deep_view() == status_line(rows, status@),
{
    let mut effects: Vec<Effect> = Vec::new();
    effects.push(Effect::Goto(0, rows));
    effects.push(Effect::Clear(ClearScope::CurrentLine));
    effects.push(Effect::Print(String::from_str(status)));
    effects
}

/// `n + plus`, or the largest screen position where the sum is beyond it.
fn clip_sum(n: usize, plus: u16) -> (r: u16)
    ensures
        r == clip(n + plus),
{
    let room = u16::MAX - plus;
    if n > room as usize {
        u16::MAX
    } else {
        n as u16 + plus
    }
}

impl Editor {
    /// Neither registry holds a name twice.
    pub closed spec fn registries_wf(&self) -> bool {
        self.command_map.wf() && self.keybind_map.wf()
    }

    /// The editor holds a well-formed session, in well-formed registries.
    pub open spec fn wf(&self) -> bool {
        self@.wf() && self.registries_wf()
    }

    /// An editor in normal mode with one buffer: the file at the given
    /// path with the given content, or a new, empty buffer. Nothing is
    /// bound yet.
    pub fn new(file: Option<(&str, &str)>) -> (editor: Self)
        ensures
            editor@ == Session::start(
                match file {
                    Some((path, text)) => Document::load(path@, text@),
                    None => Document::empty(),
                },
            ),
            editor.wf(),
    {
        let buf = match file {
            Some((path, text)) => TextBuf::from_file(path, text),
            None => TextBuf::empty(),
        };
        let mut text_bufs: Vec<(TextBuf, usize)> = Vec::new();
        text_bufs.push((buf, 0));
        let editor = Self {
            running: true,
            needs_redraw: true,
            state: State::Normal,
            command: String::new(),
            text_bufs,
            cur_text_buf: 0,
            command_map: Registry::new(),
            keybind_map: Registry::new(),
        };
        assert(editor@.docs =~= seq![(buf@, 0int)]);
        editor
    }

    /// Binds the keys and commands that the editor comes with: the arrow
    /// keys and `h`, `j`, `k`, `l` to move, `:`, Escape and `i` to change
    /// the mode, and the commands `quit`, `q`, `write`, `w` and `wq`.
    pub fn default_environment(&mut self) -> (editor: &mut Self)
        requires
            old(self).wf(),
        ensures
            editor@ == (Session {
                keys: default_keys(old(self)@.keys),
                commands: default_commands(old(self)@.commands),
                ..old(self)@
            }),
            editor.wf(),
            *final(self) == *final(editor),
    {
        self
        // Movement
        .add_keybind(Key::Left, Handler::Left).add_keybind(Key::Right, Handler::Right).add_keybind(
            Key::Up,
            Handler::Up,
        ).add_keybind(Key::Down, Handler::Down).add_keybind(
            Key::Char('h'),
            Handler::Left,
        ).add_keybind(Key::Char('l'), Handler::Right).add_keybind(
            Key::Char('k'),
            Handler::Up,
        ).add_keybind(Key::Char('j'), Handler::Down)
        // Modes
        .add_keybind(Key::Char(':'), Handler::CommandMode).add_keybind(
            Key::Esc,
            Handler::NormalMode,
        ).add_keybind(Key::Char('i'), Handler::InsertMode)
        // Misc
        .add_command("quit", Handler::Quit).add_command("q", Handler::Quit).add_command(
            "write",
            Handler::Write,
        ).add_command("w", Handler::Write).add_command("wq", Handler::WriteQuit);

        self
    }

    /// Binds the command `command` to `f`, in place of what it was bound to.
    pub fn add_command(&mut self, command: &str, f: Handler) -> (editor: &mut Self)
        requires
            old(self).wf(),
        ensures
            editor@ == (Session {
                commands: old(self)@.commands.insert(command@, f),
                ..old(self)@
            }),
            editor.wf(),
            *final(self) == *final(editor),
    {
        self.command_map.insert(String::from_str(command), f);

        self
    }

    /// Binds the key `key` to `f`, in place of what it was bound to.
    pub fn add_keybind(&mut self, key: Key, f: Handler) -> (editor: &mut Self)
        requires
            old(self).wf(),
        ensures
            editor@ == (Session { keys: old(self)@.keys.insert(key, f), ..old(self)@ }),
            editor.wf(),
            *final(self) == *final(editor),
    {
        self.keybind_map.insert(key, f);

        self
    }

    /// Ends the session.
    pub fn stop(&mut self)
        ensures
            final(self)@ == (Session { running: false, ..old(self)@ }),
            old(self).wf() ==> final(self).wf(),
    {
        self.running = false;
    }

    /// Asks for the screen to be drawn anew.
    pub fn redraw(&mut self)
        ensures
            final(self)@ == (Session { redraw: true, ..old(self)@ }),
            old(self).wf() ==> final(self).wf(),
    {
        self.needs_redraw = true;
    }

    /// The effects that show `status` on the bottom row of a screen of
    /// `rows` rows.
    pub fn print_bottom(&self, status: &str, rows: u16) -> (effects: Vec<Effect>)
        ensures
            effects.deep_view() == status_line(rows, status@),
            rows >= 1 ==> all_drawable(effects.deep_view()),
    {
        status_effects(rows, status)
    }

    /// Changes the mode.
    pub fn set_state(&mut self, state: State)
        ensures
            final(self)@ == (Session { state, ..old(self)@ }),
            old(self).wf() ==> final(self).wf(),
    {
        self.state = state;
    }

    /// The effect that clears the screen.
    pub fn clear(&self) -> (effect: Effect)
        ensures
            effect@ == EffectView::Clear(ClearScope::All),
    {
        Effect::Clear(ClearScope::All)
    }

    /// Opens one more buffer, behind the others: the file at the given
    /// path with the given content, or a new, empty buffer. The active
    /// buffer stays the active one.
    pub fn new_text_buf(&mut self, file: Option<(&str, &str)>)
        requires
            old(self).wf(),
        ensures
            final(self)@ == (Session {
                docs: old(self)@.docs.push(
                    (
                        match file {
                            Some((path, text)) => Document::load(path@, text@),
                            None => Document::empty(),
                        },
                        0int,
                    ),
                ),
                ..old(self)@
            }),
            final(self).wf(),
    {
        let buf = match file {
            Some((path, text)) => TextBuf::from_file(path, text),
            None => TextBuf::empty(),
        };
        self.text_bufs.push((buf, 0));
        assert(self@.docs =~= old(self)@.docs.push((buf@, 0int)));
    }

    /// Whether the session goes on.
    pub fn running(&self) -> (running: bool)
        ensures
            running == self@.running,
    {
        self.running
    }

    /// Whether the screen has to be drawn anew.
    pub fn needs_redraw(&self) -> (redraw: bool)
        ensures
            redraw == self@.redraw,
    {
        self.needs_redraw
    }

    /// The mode.
    pub fn state(&self) -> (state: State)
        ensures
            state == self@.state,
    {
        self.state
    }

    /// The command line typed so far.
    pub fn command(&self) -> (pending: &str)
        ensures
            pending@ == self@.pending,
    {
        self.command.as_str()
    }

    /// The buffer that is being edited.
    pub fn text_buf(&self) -> (buf: &TextBuf)
        requires
            self.wf(),
        ensures
            buf@ == self@.doc(),
    {
        &self.text_bufs[self.cur_text_buf].0
    }

    /// The first row of the active buffer that is on the screen.
    pub fn offset(&self) -> (offset: usize)
        requires
            self.wf(),
        ensures
            offset == self@.offset(),
    {
        self.text_bufs[self.cur_text_buf].1
    }

    /// The effect that puts the cursor where it belongs.
    fn reset_cursor(&self, rows: u16) -> (effect: Effect)
        requires
            self.wf(),
        ensures
            effect@ == self@.cursor_goto(rows),
    {
        match self.state {
            State::Command => Effect::Goto(clip_sum(self.command.as_str().unicode_len(), 2), rows),
            _ => {
                let text_buf = &self.text_bufs[self.cur_text_buf];
                let pos = text_buf.0.cursor();
                let row = if pos.1 >= text_buf.1 {
                    clip_sum(pos.1 - text_buf.1, 1)
                } else {
                    0
                };
                Effect::Goto(clip_sum(pos.0, 1), row)
            },
        }
    }

    /// The effects that draw the active buffer on a screen of `rows` rows.
    /// The bottom row is left alone.
    pub fn draw_text(&self, rows: u16) -> (effects: Vec<Effect>)
        requires
            self.wf(),
            rows >= 1,
        ensures
            effects.deep_view() == self@.frame(rows),
            all_drawable(effects.deep_view()),
    {
        let height = rows - 1;
        let mut effects: Vec<Effect> = Vec::new();
        effects.push(Effect::Goto(1, 1));

        let text_buf = &self.text_bufs[self.cur_text_buf];
        let offset = text_buf.1;
        let count = text_buf.0.line_count();

        let mut y: u16 = 0;
        while y < height
            invariant
                self.wf(),
                y <= height,
                text_buf == self.text_bufs@[self.cur_text_buf as int],
                offset == text_buf.1,
                count == text_buf.0@.lines.len(),
                effects.deep_view() == seq![EffectView::Goto(1, 1)] + Seq::new(
                    y as nat,
                    |i: int| EffectView::Print(self@.shown(i)),
                ),
            decreases height - y,
        {
            let mut text = if offset < count && (y as usize) < count - offset {
                text_buf.0.line(y as usize + offset).clone()
            } else {
                String::from_str("~")
            };
            text.append("\r\n");
            proof {
                reveal_strlit("~");
                reveal_strlit("\r\n");
                assert(text@ =~= self@.shown(y as int));
            }
            let ghost before = effects.deep_view();
            effects.push(Effect::Print(text));
            assert(effects.deep_view() =~= before.push(EffectView::Print(self@.shown(y as int))));
            y += 1;
        }

        effects.push(self.reset_cursor(rows));
        assert(effects.deep_view() =~= self@.frame(rows));
        effects
    }

    /// One step of scrolling, towards the cursor.
    pub fn scroll(&mut self, rows: u16)
        requires
            old(self).wf(),
            rows >= 1,
        ensures
            final(self)@ == old(self)@.scrolled(rows),
            final(self).wf(),
            rows >= 2 && old(self)@.offset() <= old(self)@.doc().row + 1 ==> final(self)@.offset()
                <= final(self)@.doc().row,
    {
        let text_buf = &self.text_bufs[self.cur_text_buf];
        let row = text_buf.0.cursor().1;
        let offset = text_buf.1;
        proof {
            text_buf.0.lemma_line_count();
        }

        if row >= offset && (rows == 1 || row - offset > (rows - 2) as usize) {
            self.text_bufs[self.cur_text_buf].1 += 1;
            self.needs_redraw = true;
            assert(self@.docs =~= old(self)@.scrolled(rows).docs);
        } else if row < offset {
            self.text_bufs[self.cur_text_buf].1 -= 1;
            self.needs_redraw = true;
            assert(self@.docs =~= old(self)@.scrolled(rows).docs);
        }
    }

    /// The effects that bring the screen up to date.
    pub fn refresh(&mut self, rows: u16) -> (effects: Vec<Effect>)
        requires
            old(self).wf(),
            rows >= 1,
        ensures
            final(self)@ == old(self)@.refreshed(rows).0,
            effects.deep_view() == old(self)@.refreshed(rows).1,
            final(self).wf(),
            all_drawable(effects.deep_view()),
    {
        let mut effects: Vec<Effect> = Vec::new();
        if self.needs_redraw {
            // Clear screen
            effects.push(self.clear());

            // Redraw screen
            let mut frame = self.draw_text(rows);
            effects.append(&mut frame);

            // Flush screen
            effects.push(Effect::Flush);

            self.needs_redraw = false;
            assert(effects.deep_view() =~= old(self)@.refreshed(rows).1);
        }
        effects
    }

    /// The effect that asks for the active buffer to be written, or the
    /// error that says why it cannot be.
    fn save(&self, path: Option<String>, announce: bool) -> (r: Result<Effect, WriteError>)
        requires
            self.wf(),
        ensures
            match self@.save(
                match path {
                    Some(p) => Some(p@),
                    None => None,
                },
                announce,
            ) {
                Some(request) => r matches Ok(effect) && effect@ == request,
                None => r == Err::<Effect, WriteError>(WriteError::NoFilename),
            },
    {
        match self.text_bufs[self.cur_text_buf].0.write(path) {
            Ok(request) => Ok(Effect::Save { path: request.path, text: request.text, announce }),
            Err(_) => Err(WriteError::NoFilename),
        }
    }

    /// Runs a handler.
    fn invoke(&mut self, handler: Handler, args: &Vec<String>, clear: bool, rows: u16) -> (effects:
        Vec<Effect>)
        requires
            old(self).wf(),
        ensures
            final(self)@ == old(self)@.invoke(handler, args.deep_view(), clear, rows).0,
            effects.deep_view() == old(self)@.invoke(handler, args.deep_view(), clear, rows).1,
            final(self).wf(),
    {
        let mut silent = if clear {
            status_effects(rows, "")
        } else {
            Vec::new()
        };
        proof {
            reveal_strlit("");
            assert(""@ =~= Seq::<char>::empty());
        }
        match handler {
            Handler::Quit => {
                self.stop();
                silent
            },
            Handler::Write => {
                let path = if args.len() > 0 {
                    Some(args[0].clone())
                } else {
                    None
                };
                match self.save(path, true) {
                    Ok(request) => {
                        let mut effects: Vec<Effect> = Vec::new();
                        effects.push(request);
                        effects
                    },
                    Err(e) => {
                        let mut status = String::from_str("Failed to write file: ");
                        status.append(e.message().as_str());
                        status_effects(rows, status.as_str())
                    },
                }
            },
            Handler::WriteQuit => {
                self.stop();
                match self.save(None, false) {
                    Ok(request) => {
                        let mut effects: Vec<Effect> = Vec::new();
                        effects.push(request);
                        effects.append(&mut silent);
                        effects
                    },
                    Err(_) => silent,
                }
            },
            Handler::CommandMode => {
                self.set_state(State::Command);
                self.command = String::new();
                status_effects(rows, ":")
            },
            Handler::NormalMode => {
                self.set_state(State::Normal);
                status_effects(rows, "--NORMAL--")
            },
            Handler::InsertMode => {
                self.set_state(State::Insert);
                status_effects(rows, "--INSERT--")
            },
            Handler::Left => {
                self.text_bufs[self.cur_text_buf].0.left();
                assert(self@.docs =~= old(self)@.with_doc(old(self)@.doc().left()).docs);
                silent
            },
            Handler::Right => {
                self.text_bufs[self.cur_text_buf].0.right();
                assert(self@.docs =~= old(self)@.with_doc(old(self)@.doc().right()).docs);
                silent
            },
            Handler::Up => {
                self.text_bufs[self.cur_text_buf].0.up();
                assert(self@.docs =~= old(self)@.with_doc(old(self)@.doc().up()).docs);
                silent
            },
            Handler::Down => {
                self.text_bufs[self.cur_text_buf].0.down();
                assert(self@.docs =~= old(self)@.with_doc(old(self)@.doc().down()).docs);
                silent
            },
        }
    }

    /// Runs the command on the command line and goes back to normal mode.
    fn call_command(&mut self, rows: u16) -> (effects: Vec<Effect>)
        requires
            old(self).wf(),
        ensures
            final(self)@ == old(self)@.submit(rows).0,
            effects.deep_view() == old(self)@.submit(rows).1,
            final(self).wf(),
    {
        let mut args = split_words(self.command.as_str());
        let name = if args.len() > 0 {
            args.remove(0)
        } else {
            String::new()
        };

        self.state = State::Normal;
        self.command = String::new();

        match self.command_map.get(&name) {
            Some(handler) => self.invoke(handler, &args, true, rows),
            None => status_effects(rows, "Unknown command"),
        }
    }

    /// Runs the handler that a key is bound to.
    fn run_keybind(&mut self, event: Event, rows: u16) -> (effects: Vec<Effect>)
        requires
            old(self).wf(),
        ensures
            final(self)@ == old(self)@.bound_key(event, rows).0,
            effects.deep_view() == old(self)@.bound_key(event, rows).1,
            final(self).wf(),
    {
        let none: Vec<String> = Vec::new();
        match event {
            Event::Key(Key::Char(SEPARATOR)) => Vec::new(),
            Event::Key(key) => match self.keybind_map.get(&key) {
                Some(handler) => self.invoke(handler, &none, false, rows),
                None => Vec::new(),
            },
            _ => Vec::new(),
        }
    }

    /// A key in command-line mode.
    fn command_key(&mut self, event: Event, rows: u16) -> (effects: Vec<Effect>)
        requires
            old(self).wf(),
        ensures
            final(self)@ == old(self)@.command_key(event, rows).0,
            effects.deep_view() == old(self)@.command_key(event, rows).1,
            final(self).wf(),
    {
        match event {
            Event::Key(Key::Esc) => {
                self.state = State::Normal;
                self.command = String::new();
                status_effects(rows, "--NORMAL--")
            },
            // Newline
            Event::Key(Key::Char(SEPARATOR)) => self.call_command(rows),
            // Don't go back when no characters have been removed
            Event::Key(Key::Backspace) => {
                let mut effects: Vec<Effect> = Vec::new();
                if self.command.pop().is_some() {
                    effects.push(Effect::Left(1));
                    effects.push(Effect::Clear(ClearScope::UntilNewline));
                }
                effects
            },
            // Append to command
            Event::Key(Key::Char(a)) => {
                let mut echo = String::new();
                echo.push(a);
                self.command.push(a);
                let mut effects: Vec<Effect> = Vec::new();
                effects.push(Effect::Print(echo));
                effects
            },
            _ => Vec::new(),
        }
    }

    /// Takes one input event on a screen of `rows` rows, and says what is
    /// to be done about it.
    pub fn parse_event(&mut self, event: Event, rows: u16) -> (effects: Vec<Effect>)
        requires
            old(self).wf(),
        ensures
            final(self)@ == old(self)@.step(event, rows).0,
            effects.deep_view() == old(self)@.step(event, rows).1,
            final(self).wf(),
            rows >= 1 ==> all_drawable(effects.deep_view()),
    {
        proof {
            old(self)@.lemma_step(event, rows);
        }
        let mut effects = match self.state {
            State::Command => self.command_key(event, rows),
            State::Normal => {
                let mut effects = self.run_keybind(event, rows);
                let ghost before = effects.deep_view();
                effects.push(self.reset_cursor(rows));
                effects
            },
            State::Insert => {
                let mut effects = match event {
                    Event::Key(Key::Char(key)) => {
                        self.text_bufs[self.cur_text_buf].0.insert(key);
                        self.needs_redraw = true;
                        assert(self@.docs =~= old(self)@.with_doc(old(self)@.doc().insert(key)).docs);
                        Vec::new()
                    },
                    Event::Key(Key::Backspace) => {
                        self.text_bufs[self.cur_text_buf].0.backspace();
                        self.needs_redraw = true;
                        assert(self@.docs =~= old(self)@.with_doc(
                            old(self)@.doc().backspace(),
                        ).docs);
                        Vec::new()
                    },
                    _ => self.run_keybind(event, rows),
                };
                let ghost before = effects.deep_view();
                effects.push(self.reset_cursor(rows));
                assert(effects.deep_view() =~= before.push(self@.cursor_goto(rows)));
                effects
            },
        };
        let ghost before = effects.deep_view();
        effects.push(Effect::Flush);
        assert(effects.deep_view() =~= before.push(EffectView::Flush));
        effects
    }

    /// Takes note of how the write that a `Save` effect asked for went:
    /// `Ok`, or the file system's report of what went wrong. `announce` is
    /// the flag that came with the effect.
    pub fn write_done(&mut self, outcome: Result<(), String>, announce: bool, rows: u16) -> (effects:
        Vec<Effect>)
        requires
            old(self).wf(),
        ensures
            final(self)@ == old(self)@.saved(
                match outcome {
                    Ok(_) => Ok(()),
                    Err(report) => Err(report@),
                },
                announce,
                rows,
            ).0,
            effects.deep_view() == old(self)@.saved(
                match outcome {
                    Ok(_) => Ok(()),
                    Err(report) => Err(report@),
                },
                announce,
                rows,
            ).1,
            final(self).wf(),
            rows >= 1 ==> all_drawable(effects.deep_view()),
    {
        let result = self.text_bufs[self.cur_text_buf].0.written(outcome);
        proof {
            if outcome is Ok {
                assert(self@.docs =~= old(self)@.with_doc(
                    Document { dirty: false, ..old(self)@.doc() },
                ).docs);
            } else {
                assert(self@.docs =~= old(self)@.docs);
            }
        }
        if announce {
            let status = match result {
                Ok(_) => String::from_str("File written"),
                Err(e) => {
                    let mut status = String::from_str("Failed to write file: ");
                    status.append(e.message().as_str());
                    status
                },
            };
            status_effects(rows, status.as_str())
        } else {
            Vec::new()
        }
    }
}

} // verus!