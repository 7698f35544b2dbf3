//! Plain text as a sequence of lines.

use vstd::prelude::*;
use vstd::string::*;

verus! {

/// The character that ends a line in persisted text.
pub const SEPARATOR: char = '\n';

/// Appends one character to a string.
///
/// Trusted: `String::push` of the standard library, which is documented to
/// append the given character to the end of the string.
pub assume_specification[ String::push ](s: &mut String, ch: char)
    ensures
        final(s)@ == old(s)@.push(ch),
;

/// Takes the last character off a string.
///
/// Trusted: `String::pop` of the standard library, which is documented to
/// remove the last character and return it, and to return `None` for an
/// empty string.
pub assume_specification[ String::pop ](s: &mut String) -> (last: Option<char>)
    ensures
        match last {
            Some(c) => old(s)@.len() > 0 && c == old(s)@.last() && final(s)@ == old(s)@.drop_last(),
            None => old(s)@.len() == 0 && final(s)@ == old(s)@,
        },
;

/// The pieces of `text` between its separators. A text with `n` separators
/// has `n + 1` pieces; the empty text has one empty piece.
pub open spec fn split_lines(text: Seq<char>) -> Seq<Seq<char>>
    decreases text.len(),
{
    if text.len() == 0 {
        seq![Seq::empty()]
    } else {
        let before = split_lines(text.drop_last());
        if text.last() == SEPARATOR {
            before.push(Seq::empty())
        } else {
            before.update(before.len() - 1, before.last().push(text.last()))
        }
    }
}

/// The lines that a persisted text holds. A final separator ends the last
/// line; it does not start another, empty one.
pub open spec fn load_lines(text: Seq<char>) -> Seq<Seq<char>> {
    if text.len() > 0 && text.last() == SEPARATOR {
        split_lines(text.drop_last())
    } else {
        split_lines(text)
    }
}

/// The persisted form of `lines`: every line followed by one separator.
pub open spec fn join_lines(lines: Seq<Seq<char>>) -> Seq<char>
    decreases lines.len(),
{
    if lines.len() == 0 {
        Seq::empty()
    } else {
        join_lines(lines.drop_last()) + lines.last().push(SEPARATOR)
    }
}

/// Whether no line holds a separator.
pub open spec fn separator_free(lines: Seq<Seq<char>>) -> bool {
    forall|i: int, j: int|
        0 <= i < lines.len() && 0 <= j < lines[i].len() ==> #[trigger] lines[i][j] != SEPARATOR
}

/// Splitting always yields at least one piece, and no piece holds a separator.
pub proof fn lemma_split_shape(text: Seq<char>)
    ensures
        split_lines(text).len() >= 1,
        separator_free(split_lines(text)),
    decreases text.len(),
{
    if text.len() > 0 {
        lemma_split_shape(text.drop_last());
    }
}

/// Loading always yields at least one line, and no line holds a separator.
pub proof fn lemma_load_shape(text: Seq<char>)
    ensures
        load_lines(text).len() >= 1,
        separator_free(load_lines(text)),
{
    lemma_split_shape(text);
    if text.len() > 0 {
        lemma_split_shape(text.drop_last());
    }
}

/// Text without a separator, appended to any text, extends the last piece.
pub proof fn lemma_split_extend(text: Seq<char>, tail: Seq<char>)
    requires
        forall|j: int| 0 <= j < tail.len() ==> tail[j] != SEPARATOR,
    ensures
        split_lines(text).len() >= 1,
        split_lines(text + tail) == split_lines(text).update(
            split_lines(text).len() - 1,
            split_lines(text).last() + tail,
        ),
    decreases tail.len(),
{
    lemma_split_shape(text);
    if tail.len() > 0 {
        let shorter = tail.drop_last();
        lemma_split_extend(text, shorter);
        assert((text + tail).drop_last() == text + shorter);
        assert((split_lines(text).last() + shorter).push(tail.last()) == split_lines(text).last()
            + tail);
    }
}

/// Splitting the persisted form of separator-free lines gives the lines back,
/// followed by the empty piece after the final separator.
pub proof fn lemma_split_join(lines: Seq<Seq<char>>)
    requires
        separator_free(lines),
    ensures
        split_lines(join_lines(lines)) == lines.push(Seq::empty()),
    decreases lines.len(),
{
    if lines.len() > 0 {
        let front = lines.drop_last();
        let last = lines.last();
        assert forall|i: int, j: int| 0 <= i < front.len() && 0 <= j < front[i].len() implies #[trigger] front[i][j]
            != SEPARATOR by {
            assert(front[i][j] == lines[i][j]);
        }
        assert forall|j: int| 0 <= j < last.len() implies last[j] != SEPARATOR by {
            assert(last[j] == lines[lines.len() - 1][j]);
        }
        lemma_split_join(front);
        lemma_split_extend(join_lines(front), last);
        assert(join_lines(lines).drop_last() == join_lines(front) + last);
    }
}

/// Saving and loading again reproduces the lines: the persisted form of a
/// non-empty sequence of separator-free lines loads as that same sequence.
pub proof fn lemma_load_join(lines: Seq<Seq<char>>)
    requires
        lines.len() >= 1,
        separator_free(lines),
    ensures
        load_lines(join_lines(lines)) == lines,
{
    lemma_split_join(lines);
    assert(lines.push(Seq::empty()).drop_last() == lines);
}

/// Joining the pieces of a text gives the text back, with one separator
/// behind it.
pub proof fn lemma_join_split(text: Seq<char>)
    ensures
        join_lines(split_lines(text)) == text.push(SEPARATOR),
    decreases text.len(),
{
    lemma_split_shape(text);
    let pieces = split_lines(text);
    if text.len() == 0 {
        assert(join_lines(pieces.drop_last()) == Seq::<char>::empty());
    } else {
        let shorter = text.drop_last();
        let before = split_lines(shorter);
        lemma_split_shape(shorter);
        lemma_join_split(shorter);
        if text.last() == SEPARATOR {
            assert(pieces.drop_last() == before);
        } else {
            assert(pieces.drop_last() == before.drop_last());
            let front = join_lines(before.drop_last());
            assert((front + before.last().push(SEPARATOR)).drop_last() == front + before.last());
            assert(front + before.last().push(text.last()).push(SEPARATOR) == (front
                + before.last()).push(text.last()).push(SEPARATOR));
        }
    }
}

/// Loading a text and saving it again gives the text back where it ends
/// with a separator, and else the text with a separator behind it.
pub proof fn lemma_join_load(text: Seq<char>)
    ensures
        join_lines(load_lines(text)) == if text.len() > 0 && text.last() == SEPARATOR {
            text
        } else {
            text.push(SEPARATOR)
        },
{
    if text.len() > 0 && text.last() == SEPARATOR {
        lemma_join_split(text.drop_last());
    } else {
        lemma_join_split(text);
    }
}

/// Reads the lines of a persisted text.
pub fn parse_lines(text: &str) -> (lines: Vec<String>)
    ensures
        lines.deep_view() == load_lines(text@),
{
    let mut lines: Vec<String> = Vec::new();
    let mut current = String::new();
    let mut ended = false;
    for c in it: text.chars()
        invariant
            it.seq() == text@,
            lines.deep_view().push(current@) == split_lines(text@.take(it.index())),
            ended == (it.index() > 0 && text@[it.index() - 1] == SEPARATOR),
    {
        let ghost seen = text@.take(it.index());
        let ghost next = text@.take(it.index() + 1);
        proof {
            assert(next.drop_last() == seen);
            lemma_split_shape(seen);
        }
        if c == SEPARATOR {
            lines.push(current);
            current = String::new();
            ended = true;
        } else {
            current.push(c);
            ended = false;
        }
    }
    assert(text@.take(text@.len() as int) == text@);
    if !ended {
        lines.push(current);
    } else {
        assert(split_lines(text@.drop_last()) =~= split_lines(text@).drop_last());
    }
    lines
}

/// Writes out the persisted form of `lines`.
pub fn render_lines(lines: &Vec<String>) -> (text: String)
    ensures
        text@ == join_lines(lines.deep_view()),
{
    let mut text = String::new();
    let mut i: usize = 0;
    while i < lines.len()
        invariant
            i <= lines.len(),
            text@ == join_lines(lines.deep_view().take(i as int)),
        decreases lines.len() - i,
    {
        proof {
            let upto = lines.deep_view().take(i + 1);
            assert(upto.drop_last() == lines.deep_view().take(i as int));
        }
        text.append(lines[i].as_str());
        text.push(SEPARATOR);
        i += 1;
    }
    assert(lines.deep_view().take(lines.len() as int) == lines.deep_view());
    text
}

/// Whether `c` is white space: one of the characters to which Unicode gives
/// the property White_Space.
pub open spec fn is_whitespace(c: char) -> bool {
    let code = c as u32;
    ||| 0x09 <= code <= 0x0D
    ||| code == 0x20
    ||| code == 0x85
    ||| code == 0xA0
    ||| code == 0x1680
    ||| 0x2000 <= code <= 0x200A
    ||| code == 0x2028
    ||| code == 0x2029
    ||| code == 0x202F
    ||| code == 0x205F
    ||| code == 0x3000
}

/// The pieces of `text` between its white-space characters. Two such
/// characters in a row, or one at either end, leave an empty piece.
pub open spec fn split_spaces(text: Seq<char>) -> Seq<Seq<char>>
    decreases text.len(),
{
    if text.len() == 0 {
        seq![Seq::empty()]
    } else {
        let before = split_spaces(text.drop_last());
        if is_whitespace(text.last()) {
            before.push(Seq::empty())
        } else {
            before.update(before.len() - 1, before.last().push(text.last()))
        }
    }
}

/// The words of `text`: the pieces between white space that are not empty.
pub open spec fn words(text: Seq<char>) -> Seq<Seq<char>> {
    split_spaces(text).filter(|piece: Seq<char>| piece.len() > 0)
}

/// Splitting at white space always yields at least one piece.
pub proof fn lemma_split_spaces_nonempty(text: Seq<char>)
    ensures
        split_spaces(text).len() >= 1,
    decreases text.len(),
{
    if text.len() > 0 {
        lemma_split_spaces_nonempty(text.drop_last());
    }
}

/// Whether `c` is white space.
pub fn whitespace(c: char) -> (r: bool)
    ensures
        r == is_whitespace(c),
{
    let code = c as u32;
    (0x09 <= code && code <= 0x0D) || code == 0x20 || code == 0x85 || code == 0xA0 || code
        == 0x1680 || (0x2000 <= code && code <= 0x200A) || code == 0x2028 || code == 0x2029 || code
        == 0x202F || code == 0x205F || code == 0x3000
}

/// Reads the words of `text`.
pub fn split_words(text: &str) -> (found: Vec<String>)
    ensures
        found.deep_view() == words(text@),
{
    let ghost long = |piece: Seq<char>| piece.len() > 0;
    let mut found: Vec<String> = Vec::new();
    let mut current = String::new();
    let mut empty = true;
    for c in it: text.chars()
        invariant
            it.seq() == text@,
            long == |piece: Seq<char>| piece.len() > 0,
            split_spaces(text@.take(it.index())).len() >= 1,
            found.deep_view() == split_spaces(text@.take(it.index())).drop_last().filter(long),
            current@ == split_spaces(text@.take(it.index())).last(),
            empty == (current@.len() == 0),
    {
        let ghost seen = split_spaces(text@.take(it.index()));
        let ghost next = text@.take(it.index() + 1);
        proof {
            reveal(Seq::filter);
            assert(next.drop_last() == text@.take(it.index()));
            lemma_split_spaces_nonempty(next);
        }
        if whitespace(c) {
            if !empty {
                found.push(current);
            }
            current = String::new();
            empty = true;
            assert(split_spaces(next).drop_last() == seen);
        } else {
            current.push(c);
            empty = false;
            assert(split_spaces(next).drop_last() == seen.drop_last());
        }
    }
    proof {
        reveal(Seq::filter);
        assert(text@.take(text@.len() as int) == text@);
    }
    if !empty {
        found.push(current);
    }
    found
}

} // verus!
