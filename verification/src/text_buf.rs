//! The document model: a non-empty sequence of lines with a cursor.

use crate::text::{
    join_lines, lemma_load_join, lemma_load_shape, load_lines, parse_lines, render_lines,
    separator_free, SEPARATOR,
};
use vstd::prelude::*;
use vstd::string::*;

verus! {

/// What a buffer holds, as mathematics: the text line by line, the cursor as
/// a column within a row, whether there are unsaved changes, and the path of
/// the backing file where there is one.
pub struct Document {
    pub lines: Seq<Seq<char>>,
    pub column: int,
    pub row: int,
    pub dirty: bool,
    pub path: Option<Seq<char>>,
}

impl Document {
    /// The cursor's row is a line of the document, the cursor's column is a
    /// position on that line or just behind its last character, and a line
    /// never holds a separator.
    pub open spec fn wf(self) -> bool {
        &&& 0 <= self.row < self.lines.len()
        &&& 0 <= self.column <= self.lines[self.row].len()
        &&& separator_free(self.lines)
    }

    /// The line that the cursor is on.
    pub open spec fn line(self) -> Seq<char> {
        self.lines[self.row]
    }

    /// A new, untitled document: one empty line.
    pub open spec fn empty() -> Document {
        Document { lines: seq![Seq::empty()], column: 0, row: 0, dirty: true, path: None }
    }

    /// The document that the file at `path` with content `text` opens as.
    pub open spec fn load(path: Seq<char>, text: Seq<char>) -> Document {
        Document { lines: load_lines(text), column: 0, row: 0, dirty: true, path: Some(path) }
    }

    /// The persisted form of the document.
    pub open spec fn text(self) -> Seq<char> {
        join_lines(self.lines)
    }

    /// Where a write goes: to the path given with the command, else to the
    /// backing file.
    pub open spec fn target(self, path: Option<Seq<char>>) -> Option<Seq<char>> {
        if path is Some {
            path
        } else {
            self.path
        }
    }

    /// Typing `ch` at the cursor. A separator breaks the line in two at the
    /// cursor, which moves to the start of the second part; any other
    /// character goes in front of the cursor's position and the cursor
    /// moves behind it.
    pub open spec fn insert(self, ch: char) -> Document {
        if ch == SEPARATOR {
            Document {
                lines: self.lines.update(self.row, self.line().take(self.column))
                    .insert(self.row + 1, self.line().skip(self.column)),
                column: 0,
                row: self.row + 1,
                dirty: true,
                ..self
            }
        } else {
            Document {
                lines: self.lines.update(
                    self.row,
                    self.line().insert(self.column, ch),
                ),
                column: self.column + 1,
                dirty: true,
                ..self
            }
        }
    }

    /// Typing the characters of `s` one after the other.
    pub open spec fn insert_all(self, s: Seq<char>) -> Document
        decreases s.len(),
    {
        if s.len() == 0 {
            self
        } else {
            self.insert_all(s.drop_last()).insert(s.last())
        }
    }

    /// Deleting backwards. Within a line the character before the cursor
    /// goes. At the start of a line the line is joined to the one above and
    /// the cursor stands where the two meet. At the start of the document
    /// nothing happens, and nothing counts as changed.
    pub open spec fn backspace(self) -> Document {
        if self.column > 0 {
            Document {
                lines: self.lines.update(self.row, self.line().remove(self.column - 1)),
                column: self.column - 1,
                dirty: true,
                ..self
            }
        } else if self.row > 0 {
            Document {
                lines: self.lines.update(self.row - 1, self.lines[self.row - 1] + self.line())
                    .remove(self.row),
                column: self.lines[self.row - 1].len() as int,
                row: self.row - 1,
                dirty: true,
                ..self
            }
        } else {
            self
        }
    }

    /// The cursor one column to the left, unless it is at the start of its
    /// line.
    pub open spec fn left(self) -> Document {
        if self.column > 0 {
            Document { column: self.column - 1, ..self }
        } else {
            self
        }
    }

    /// The cursor one column to the right, unless it is behind the last
    /// character of its line.
    pub open spec fn right(self) -> Document {
        if self.column < self.line().len() {
            Document { column: self.column + 1, ..self }
        } else {
            self
        }
    }

    /// The cursor on `row`, in its old column or at the end of the line
    /// where the line is shorter than that.
    pub open spec fn on_row(self, row: int) -> Document {
        let len = self.lines[row].len() as int;
        Document { column: if self.column > len { len } else { self.column }, row, ..self }
    }

    /// The cursor one row up, unless it is on the first row.
    pub open spec fn up(self) -> Document {
        if self.row > 0 {
            self.on_row(self.row - 1)
        } else {
            self
        }
    }

    /// The cursor one row down, unless it is on the last row.
    pub open spec fn down(self) -> Document {
        if self.row + 1 < self.lines.len() {
            self.on_row(self.row + 1)
        } else {
            self
        }
    }

    /// Typing keeps a document well-formed.
    pub proof fn lemma_insert_wf(self, ch: char)
        requires
            self.wf(),
        ensures
            self.insert(ch).wf(),
    {
    }

    /// Typing a text keeps a document well-formed.
    pub proof fn lemma_insert_all_wf(self, s: Seq<char>)
        requires
            self.wf(),
        ensures
            self.insert_all(s).wf(),
        decreases s.len(),
    {
        if s.len() > 0 {
            self.lemma_insert_all_wf(s.drop_last());
            self.insert_all(s.drop_last()).lemma_insert_wf(s.last());
        }
    }

    /// Deleting backwards keeps a document well-formed.
    pub proof fn lemma_backspace_wf(self)
        requires
            self.wf(),
        ensures
            self.backspace().wf(),
    {
    }

    /// Moving the cursor keeps a document well-formed.
    pub proof fn lemma_moves_wf(self)
        requires
            self.wf(),
        ensures
            self.left().wf(),
            self.right().wf(),
            self.up().wf(),
            self.down().wf(),
    {
    }

    /// Typing a character that is no separator and deleting backwards
    /// restores the text and the cursor.
    pub proof fn lemma_insert_then_backspace(self, ch: char)
        requires
            self.wf(),
            ch != SEPARATOR,
        ensures
            self.insert(ch).backspace().lines == self.lines,
            self.insert(ch).backspace().column == self.column,
            self.insert(ch).backspace().row == self.row,
            self.insert(ch).backspace().path == self.path,
    {
        assert(self.line().insert(self.column, ch).remove(self.column) =~= self.line());
    }

    /// Typing a separator at column `c` of a line of length `n` leaves a
    /// line of length `c` followed by one of length `n - c`, the cursor at
    /// the start of the second. The two parts together are the old line.
    pub proof fn lemma_split(self)
        requires
            self.wf(),
        ensures
            self.insert(SEPARATOR).lines.len() == self.lines.len() + 1,
            self.insert(SEPARATOR).lines[self.row].len() == self.column,
            self.insert(SEPARATOR).lines[self.row + 1].len() == self.line().len() - self.column,
            self.insert(SEPARATOR).lines[self.row] + self.insert(SEPARATOR).lines[self.row
                + 1] == self.line(),
            self.insert(SEPARATOR).column == 0,
            self.insert(SEPARATOR).row == self.row + 1,
    {
    }

    /// Saving a document and loading what was saved reproduces its lines.
    pub proof fn lemma_save_then_load(self, path: Seq<char>)
        requires
            self.wf(),
        ensures
            Document::load(path, self.text()).lines == self.lines,
            Document::load(path, self.text()).wf(),
    {
        lemma_load_join(self.lines);
    }
}

/// Why a write did not happen.
#[derive(Debug, PartialEq, Eq)]
pub enum WriteError {
    /// No path came with the command and the buffer has no backing file.
    NoFilename,
    /// The file system refused; the text is its report.
    IoFailure(String),
}

impl WriteError {
    /// The error in words.
    pub open spec fn report(self) -> Seq<char> {
        match self {
            WriteError::NoFilename => "No filename"@,
            WriteError::IoFailure(report) => report@,
        }
    }

    /// The error in words.
    pub fn message(&self) -> (text: String)
        ensures
            text@ == self.report(),
    {
        match self {
            WriteError::NoFilename => String::from_str("No filename"),
            WriteError::IoFailure(report) => report.clone(),
        }
    }
}

/// A file to be written: where, and what.
#[derive(Debug, PartialEq, Eq)]
pub struct WriteRequest {
    pub path: String,
    pub text: String,
}

/// An editable text with a cursor.
pub struct TextBuf {
    cursor: (usize, usize),
    file: Option<String>,
    changed: bool,
    data: Vec<String>,
}

impl View for TextBuf {
    type V = Document;

    closed spec fn view(&self) -> Document {
        Document {
            lines: self.data.deep_view(),
            column: self.cursor.0 as int,
            row: self.cursor.1 as int,
            dirty: self.changed,
            path: match self.file {
                Some(path) => Some(path@),
                None => None,
            },
        }
    }
}

impl TextBuf {
    /// The buffer holds a well-formed document.
    pub open spec fn wf(&self) -> bool {
        self@.wf()
    }

    /// A new, untitled buffer.
    pub fn empty() -> (buf: Self)
        ensures
            buf@ == Document::empty(),
            buf.wf(),
    {
        let mut data: Vec<String> = Vec::new();
        data.push(String::new());
        let buf = Self { cursor: (0, 0), file: None, changed: true, data };
        assert(buf@.lines =~= Document::empty().lines);
        buf
    }

    /// Opens the file at `path`, whose content is `text`.
    pub fn from_file(path: &str, text: &str) -> (buf: Self)
        ensures
            buf@ == Document::load(path@, text@),
            buf.wf(),
    {
        let data = parse_lines(text);
        proof {
            lemma_load_shape(text@);
        }
        Self { cursor: (0, 0), file: Some(String::from_str(path)), changed: true, data }
    }

    /// What to write and where, for a write command given `path`.
    ///
    /// The buffer itself writes nothing: the caller carries the request out
    /// and reports how it went with [`TextBuf::written`].
    pub fn write(&self, path: Option<String>) -> (r: Result<WriteRequest, WriteError>)
        ensures
            match self@.target(
                match path {
                    Some(p) => Some(p@),
                    None => None,
                },
            ) {
                Some(target) => {
                    &&& r matches Ok(request)
                    &&& request.path@ == target
                    &&& request.text@ == self@.text()
                },
                None => r == Err::<WriteRequest, WriteError>(WriteError::NoFilename),
            },
    {
        let target = match path {
            Some(path) => path,
            None => match &self.file {
                Some(path) => path.clone(),
                None => {
                    return Err(WriteError::NoFilename);
                },
            },
        };
        Ok(WriteRequest { path: target, text: render_lines(&self.data) })
    }

    /// Takes note of how a write went. After a write that succeeded the
    /// buffer has no unsaved changes; after one that failed it is as before
    /// and the failure comes back as an error.
    pub fn written(&mut self, outcome: Result<(), String>) -> (r: Result<(), WriteError>)
        ensures
            match outcome {
                Ok(_) => r is Ok && final(self)@ == (Document { dirty: false, ..old(self)@ }),
                Err(report) => {
                    &&& final(self)@ == old(self)@
                    &&& r matches Err(WriteError::IoFailure(text))
                    &&& text@ == report@
                },
            },
            old(self).wf() ==> final(self).wf(),
    {
        match outcome {
            Ok(_) => {
                self.changed = false;
                Ok(())
            },
            Err(report) => Err(WriteError::IoFailure(report)),
        }
    }

    /// Types `ch` at the cursor.
    pub fn insert(&mut self, ch: char)
        requires
            old(self).wf(),
        ensures
            final(self)@ == old(self)@.insert(ch),
            final(self).wf(),
            ch == SEPARATOR ==> {
                &&& final(self)@.lines[old(self)@.row].len() == old(self)@.column
                &&& final(self)@.lines[old(self)@.row + 1].len() == old(self)@.line().len() - old(
                    self,
                )@.column
                &&& final(self)@.column == 0
                &&& final(self)@.row == old(self)@.row + 1
            },
    {
        let (column, row) = self.cursor;
        let line = self.data[row].as_str();
        let len = line.unicode_len();
        let head = line.substring_char(0, column);
        let tail = line.substring_char(column, len);
        if ch != SEPARATOR {
            let mut fresh = String::from_str(head);
            fresh.push(ch);
            fresh.append(tail);
            self.data[row] = fresh;
            assert(self@.lines =~= old(self)@.lines.update(
                row as int,
                old(self)@.line().insert(column as int, ch),
            ));
            self.right();
        } else {
            let first = String::from_str(head);
            let second = String::from_str(tail);
            self.data[row] = first;
            assert(row < self.data.len());
            self.cursor = (0, row + 1);
            self.data.insert(row + 1, second);
            assert(self@.lines =~= old(self)@.insert(ch).lines);
        }
        self.changed = true;
        proof {
            old(self)@.lemma_insert_wf(ch);
            old(self)@.lemma_split();
        }
    }

    /// Types the characters of `s`, one after the other.
    pub fn insert_str(&mut self, s: &str)
        requires
            old(self).wf(),
        ensures
            final(self)@ == (Document { dirty: true, ..old(self)@.insert_all(s@) }),
            final(self).wf(),
    {
        for c in it: s.chars()
            invariant
                it.seq() == s@,
                self@ == old(self)@.insert_all(s@.take(it.index())),
                self.wf(),
        {
            proof {
                let next = s@.take(it.index() + 1);
                assert(next.drop_last() == s@.take(it.index()));
            }
            self.insert(c);
        }
        assert(s@.take(s@.len() as int) == s@);
        self.changed = true;
    }

    /// Deletes backwards from the cursor.
    pub fn backspace(&mut self)
        requires
            old(self).wf(),
        ensures
            final(self)@ == old(self)@.backspace(),
            final(self).wf(),
            old(self)@.column == 0 && old(self)@.row == 0 ==> final(self)@ == old(self)@,
    {
        let (column, row) = self.cursor;
        if column > 0 {
            self.left();
            let line = self.data[row].as_str();
            let len = line.unicode_len();
            let mut fresh = String::from_str(line.substring_char(0, column - 1));
            fresh.append(line.substring_char(column, len));
            self.data[row] = fresh;
            self.changed = true;
            assert(self@.lines =~= old(self)@.backspace().lines);
        } else if row > 0 {
            let above = &self.data[row - 1];
            let meet = above.as_str().unicode_len();
            let mut joined = above.clone();
            joined.append(self.data[row].as_str());
            self.data[row - 1] = joined;
            self.data.remove(row);
            self.cursor = (meet, row - 1);
            self.changed = true;
            assert(self@.lines =~= old(self)@.backspace().lines);
        }
        proof {
            old(self)@.lemma_backspace_wf();
        }
    }

    /// The character at the cursor.
    pub fn get(&self) -> (ch: char)
        requires
            self.wf(),
            self@.column < self@.line().len(),
        ensures
            ch == self@.line()[self@.column],
    {
        self.data[self.cursor.1].as_str().get_char(self.cursor.0)
    }

    /// Moves the cursor one column to the left; at the start of the line it
    /// stays.
    pub fn left(&mut self)
        requires
            old(self).wf(),
        ensures
            final(self)@ == old(self)@.left(),
            final(self).wf(),
            old(self)@.column == 0 ==> final(self)@ == old(self)@,
    {
        let new_pos = if self.cursor.0 > 0 {
            self.cursor.0 - 1
        } else {
            0
        };
        self.cursor = (new_pos, self.cursor.1)
    }

    /// Moves the cursor one column to the right; behind the last character
    /// of the line it stays.
    pub fn right(&mut self)
        requires
            old(self).wf(),
        ensures
            final(self)@ == old(self)@.right(),
            final(self).wf(),
            old(self)@.column == old(self)@.line().len() ==> final(self)@ == old(self)@,
    {
        let new_pos = if self.cursor.0 < self.data[self.cursor.1].as_str().unicode_len() {
            self.cursor.0 + 1
        } else {
            self.cursor.0
        };
        self.cursor = (new_pos, self.cursor.1)
    }

    /// Pulls the cursor back onto its line where it stands behind the end.
    fn lock_to_row(&mut self)
        requires
            0 <= old(self)@.row < old(self)@.lines.len(),
        ensures
            final(self)@ == old(self)@.on_row(old(self)@.row),
    {
        let len = self.data[self.cursor.1].as_str().unicode_len();
        if self.cursor.0 > len {
            self.cursor = (len, self.cursor.1)
        }
    }

    /// Moves the cursor one row up, keeping it on the line; on the first
    /// row it stays.
    pub fn up(&mut self)
        requires
            old(self).wf(),
        ensures
            final(self)@ == old(self)@.up(),
            final(self).wf(),
            old(self)@.row == 0 ==> final(self)@ == old(self)@,
    {
        let new_pos = if self.cursor.1 > 0 {
            self.cursor.1 - 1
        } else {
            0
        };
        self.cursor = (self.cursor.0, new_pos);
        self.lock_to_row();
    }

    /// Moves the cursor one row down, keeping it on the line; on the last
    /// row it stays.
    pub fn down(&mut self)
        requires
            old(self).wf(),
        ensures
            final(self)@ == old(self)@.down(),
            final(self).wf(),
            old(self)@.row == old(self)@.lines.len() - 1 ==> final(self)@ == old(self)@,
    {
        let count = self.data.len();
        let new_pos = if self.cursor.1 + 1 < count {
            self.cursor.1 + 1
        } else {
            self.cursor.1
        };
        self.cursor = (self.cursor.0, new_pos);
        self.lock_to_row();
    }

    /// A buffer has no more lines than the machine can count.
    pub proof fn lemma_line_count(&self)
        ensures
            self@.lines.len() <= usize::MAX,
    {
        assert(self@.lines.len() == self.data.len());
    }

    /// The number of lines, which is at least one.
    pub fn line_count(&self) -> (count: usize)
        ensures
            count == self@.lines.len(),
    {
        self.data.len()
    }

    /// The line in row `row`.
    pub fn line(&self, row: usize) -> (line: &String)
        requires
            row < self@.lines.len(),
        ensures
            line@ == self@.lines[row as int],
    {
        &self.data[row]
    }

    /// Whether there are changes that no write has saved.
    pub fn changed(&self) -> (dirty: bool)
        ensures
            dirty == self@.dirty,
    {
        self.changed
    }

    /// The path of the backing file, where there is one.
    pub fn file(&self) -> (path: Option<&String>)
        ensures
            match path {
                Some(p) => self@.path == Some(p@),
                None => self@.path is None,
            },
    {
        self.file.as_ref()
    }

    /// The lines of the buffer.
    pub fn data(&self) -> (lines: &[String])
        ensures
            lines.deep_view() == self@.lines,
    {
        self.data.as_slice()
    }

    /// The cursor, as column and row.
    pub fn cursor(&self) -> (at: (usize, usize))
        ensures
            at.0 == self@.column,
            at.1 == self@.row,
    {
        self.cursor
    }
}

} // verus!
