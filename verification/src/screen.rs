//! What the editor asks of its surroundings: changes to the screen, and
//! files to be written.

use vstd::prelude::*;
use vstd::string::*;

verus! {

/// How much of the screen to clear.
#[derive(Debug, Clone, Copy, PartialEq, Eq, Structural)]
pub enum ClearScope {
    /// The whole screen.
    All,
    /// The line that the cursor is on.
    CurrentLine,
    /// From the cursor to the end of its line.
    UntilNewline,
}

/// One thing for the surroundings to do. Effects are carried out in the
/// order in which the editor hands them over.
#[derive(Debug, PartialEq, Eq)]
pub enum Effect {
    /// Move the cursor to this column and row of the screen. The top left
    /// corner is column 1 of row 1.
    Goto(u16, u16),
    /// Clear part of the screen.
    Clear(ClearScope),
    /// Move the cursor this many columns to the left.
    Left(u16),
    /// Put the text on the screen at the cursor.
    Print(String),
    /// Make sure that everything so far has reached the screen.
    Flush,
    /// Write `text` to the file at `path`, then tell the editor how it went,
    /// handing `announce` back.
    Save { path: String, text: String, announce: bool },
}

/// An effect, as mathematics.
pub enum EffectView {
    Goto(u16, u16),
    Clear(ClearScope),
    Left(u16),
    Print(Seq<char>),
    Flush,
    Save { path: Seq<char>, text: Seq<char>, announce: bool },
}

impl View for Effect {
    type V = EffectView;

    open spec fn view(&self) -> EffectView {
        match *self {
            Effect::Goto(column, row) => EffectView::Goto(column, row),
            Effect::Clear(scope) => EffectView::Clear(scope),
            Effect::Left(columns) => EffectView::Left(columns),
            Effect::Print(text) => EffectView::Print(text@),
            Effect::Flush => EffectView::Flush,
            Effect::Save { path, text, announce } => EffectView::Save {
                path: path@,
                text: text@,
                announce,
            },
        }
    }
}

impl DeepView for Effect {
    type V = EffectView;

    open spec fn deep_view(&self) -> EffectView {
        self@
    }
}

/// The two characters that start a control sequence: escape and `[`.
pub open spec fn introducer() -> Seq<char> {
    seq!['\x1B', '[']
}

/// The digits of `n` in base ten, without leading zeros.
pub open spec fn decimal(n: nat) -> Seq<char>
    decreases n,
{
    let digit = seq!['0', '1', '2', '3', '4', '5', '6', '7', '8', '9'][(n % 10) as int];
    if n < 10 {
        seq![digit]
    } else {
        decimal(n / 10).push(digit)
    }
}

impl EffectView {
    /// The characters that a terminal takes for this effect, where it is one
    /// for the terminal and made of characters.
    pub open spec fn sequence(self) -> Option<Seq<char>> {
        match self {
            EffectView::Goto(column, row) => Some(
                introducer() + decimal(row as nat) + seq![';'] + decimal(column as nat) + seq!['H'],
            ),
            EffectView::Clear(ClearScope::All) => Some(introducer() + seq!['2', 'J']),
            EffectView::Clear(ClearScope::CurrentLine) => Some(introducer() + seq!['2', 'K']),
            EffectView::Clear(ClearScope::UntilNewline) => Some(introducer() + seq!['K']),
            EffectView::Left(columns) => Some(introducer() + decimal(columns as nat) + seq!['D']),
            EffectView::Print(text) => Some(text),
            EffectView::Flush => None,
            EffectView::Save { .. } => None,
        }
    }

    /// Whether the screen has a place for this effect: all but a move to
    /// column 0 of row 0.
    pub open spec fn drawable(self) -> bool {
        self != EffectView::Goto(0, 0)
    }
}

/// Whether the screen has a place for each of `effects`.
pub open spec fn all_drawable(effects: Seq<EffectView>) -> bool {
    forall|i: int| 0 <= i < effects.len() ==> (#[trigger] effects[i]).drawable()
}

/// The control sequence that moves the cursor to a column and row.
///
/// Trusted: the `Display` form of `termion::cursor::Goto`, which writes the
/// introducer, the row, `;`, the column and `H`, with both numbers in
/// decimal. In debug builds it refuses the position (0, 0).
#[verifier::external_body]
fn goto_sequence(column: u16, row: u16) -> (text: String)
    requires
        column != 0 || row != 0,
    ensures
        text@ == introducer() + decimal(row as nat) + seq![';'] + decimal(column as nat) + seq!['H'],
{
    format!("{}", termion::cursor::Goto(column, row))
}

/// The control sequence that moves the cursor to the left.
///
/// Trusted: the `Display` form of `termion::cursor::Left`, which writes the
/// introducer, the number of columns in decimal and `D`.
#[verifier::external_body]
fn left_sequence(columns: u16) -> (text: String)
    ensures
        text@ == introducer() + decimal(columns as nat) + seq!['D'],
{
    format!("{}", termion::cursor::Left(columns))
}

/// The control sequence that clears the whole screen.
///
/// Trusted: the `Display` form of `termion::clear::All`, which writes the
/// introducer and `2J`.
#[verifier::external_body]
fn clear_all_sequence() -> (text: String)
    ensures
        text@ == introducer() + seq!['2', 'J'],
{
    format!("{}", termion::clear::All)
}

/// The control sequence that clears the cursor's line.
///
/// Trusted: the `Display` form of `termion::clear::CurrentLine`, which
/// writes the introducer and `2K`.
#[verifier::external_body]
fn clear_line_sequence() -> (text: String)
    ensures
        text@ == introducer() + seq!['2', 'K'],
{
    format!("{}", termion::clear::CurrentLine)
}

/// The control sequence that clears from the cursor to the end of its line.
///
/// Trusted: the `Display` form of `termion::clear::UntilNewline`, which
/// writes the introducer and `K`.
#[verifier::external_body]
fn clear_rest_sequence() -> (text: String)
    ensures
        text@ == introducer() + seq!['K'],
{
    format!("{}", termion::clear::UntilNewline)
}

impl Effect {
    /// The characters to send to the terminal for this effect. There are
    /// none for `Flush` and `Save`, which are not made of characters.
    pub fn encode(&self) -> (text: Option<String>)
        requires
            self@.drawable(),
        ensures
            match self@.sequence() {
                Some(sequence) => text matches Some(t) && t@ == sequence,
                None => text is None,
            },
    {
        match self {
            Effect::Goto(column, row) => Some(goto_sequence(*column, *row)),
            Effect::Clear(ClearScope::All) => Some(clear_all_sequence()),
            Effect::Clear(ClearScope::CurrentLine) => Some(clear_line_sequence()),
            Effect::Clear(ClearScope::UntilNewline) => Some(clear_rest_sequence()),
            Effect::Left(columns) => Some(left_sequence(*columns)),
            Effect::Print(text) => Some(text.clone()),
            Effect::Flush => None,
            Effect::Save { .. } => None,
        }
    }
}

} // verus!
