//! The document: an ordered sequence of lines with its file name and dirty flag.

use crate::editor::Position;
use crate::graphemes::grapheme_clusters;
use crate::lines::{
    joined, joined_lines_cut_again, lemma_joined_push, lines, one_line, text_lines,
    without_carriage_return,
};
use crate::row::{deleted, head, inserted, tail, Row};
use crate::text::lemma_encode_concat;
use vstd::prelude::*;
use vstd::utf8::{decode_utf8, encode_utf8, is_ascii_chars_encode_utf8};

verus! {

/// `lines` after a line break at column `x` of line `y`: the line is cut in
/// two there, and on the line just past the last one an empty line is added.
pub open spec fn lines_after_newline(lines: Seq<Seq<Seq<char>>>, x: int, y: int) -> Seq<
    Seq<Seq<char>>,
> {
    if y >= lines.len() {
        lines.push(Seq::empty())
    } else {
        lines.update(y, head(lines[y], x)).insert(y + 1, tail(lines[y], x))
    }
}

/// `lines` after `c` is typed at column `x` of line `y`. Line `lines.len()`
/// is the empty line past the end, which comes into being when typed on; a
/// line further down does not exist, and nothing changes.
pub open spec fn lines_after_insert(lines: Seq<Seq<Seq<char>>>, x: int, y: int, c: char) -> Seq<
    Seq<Seq<char>>,
> {
    if y > lines.len() {
        lines
    } else if c == '\n' {
        lines_after_newline(lines, x, y)
    } else if y == lines.len() {
        lines.push(seq![seq![c]])
    } else {
        lines.update(y, inserted(lines[y], x, c))
    }
}

/// `lines` after a delete at column `x` of line `y`: at the end of a line
/// that has a successor the two lines become one, anywhere else the cluster
/// at `x` goes, if there is one.
pub open spec fn lines_after_delete(lines: Seq<Seq<Seq<char>>>, x: int, y: int) -> Seq<
    Seq<Seq<char>>,
> {
    if y >= lines.len() {
        lines
    } else if x == lines[y].len() && y + 1 < lines.len() {
        lines.update(y, lines[y] + lines[y + 1]).remove(y + 1)
    } else {
        lines.update(y, deleted(lines[y], x))
    }
}

/// Typing into a line of the document, at a cluster of it or at its end,
/// and deleting at the same place gives back the lines as they were. This
/// holds of a newline too: the break that it makes is the one that goes.
pub proof fn insert_then_delete_restores_lines(
    lines: Seq<Seq<Seq<char>>>,
    x: int,
    y: int,
    c: char,
)
    requires
        0 <= y < lines.len(),
        0 <= x <= lines[y].len(),
    ensures
        lines_after_delete(lines_after_insert(lines, x, y, c), x, y) == lines,
{
    let line = lines[y];
    if c == '\n' {
        assert(line.take(x) + line.skip(x) =~= line);
    } else {
        assert(line.insert(x, seq![c]).remove(x) =~= line);
    }
    assert(lines_after_delete(lines_after_insert(lines, x, y, c), x, y) =~= lines);
}

/// The characters of each of `lines`.
pub open spec fn line_texts(lines: Seq<Seq<Seq<char>>>) -> Seq<Seq<char>> {
    lines.map_values(|line: Seq<Seq<char>>| line.flatten())
}

/// The bytes that `lines` are stored as: the UTF-8 encoding of the text
/// that holds every line in order, each followed by one newline.
pub open spec fn persisted(lines: Seq<Seq<Seq<char>>>) -> Seq<u8> {
    encode_utf8(joined(line_texts(lines)))
}

/// What lines are stored as reads back as the same lines of text, where no
/// line holds a newline or ends in a carriage return.
pub proof fn persisted_lines_read_back(lines: Seq<Seq<Seq<char>>>)
    requires
        forall|i: int|
            0 <= i < lines.len() ==> one_line((#[trigger] lines[i]).flatten())
                && without_carriage_return(lines[i].flatten()) == lines[i].flatten(),
    ensures
        text_lines(decode_utf8(persisted(lines))) == line_texts(lines),
{
    broadcast use vstd::utf8::encode_utf8_decode_utf8;

    joined_lines_cut_again(line_texts(lines));
}

/// Whether `cursor` is a place in `lines`: on a line and not past its end,
/// or on the empty line past the last one.
pub open spec fn valid_cursor(lines: Seq<Seq<Seq<char>>>, cursor: Position) -> bool {
    &&& cursor.y <= lines.len()
    &&& cursor.y < lines.len() ==> cursor.x <= lines[cursor.y as int].len()
}

/// Whether an index can count the lines, and the clusters of each line.
pub open spec fn lines_fit(lines: Seq<Seq<Seq<char>>>) -> bool {
    &&& lines.len() <= usize::MAX
    &&& forall|y: int| 0 <= y < lines.len() ==> (#[trigger] lines[y]).len() <= usize::MAX
}

/// The text being edited.
pub struct Document {
    rows: Vec<Row>,
    file_name: Option<String>,
    dirty: bool,
}

impl Document {
    /// The lines of the document, each as its sequence of clusters.
    pub closed spec fn lines(&self) -> Seq<Seq<Seq<char>>> {
        Seq::new(self.rows@.len(), |i: int| self.rows@[i]@)
    }

    /// The characters of each line.
    pub open spec fn line_texts(&self) -> Seq<Seq<char>> {
        line_texts(self.lines())
    }

    /// Whether the document has changed since it was opened or last saved.
    pub closed spec fn unsaved(&self) -> bool {
        self.dirty
    }

    /// The name of the file that the document is stored in, if it has one.
    pub closed spec fn name(&self) -> Option<Seq<char>> {
        match self.file_name {
            Some(name) => Some(name@),
            None => None,
        }
    }

    /// The lines of a document can be counted, and so can the clusters of
    /// each line.
    pub proof fn lemma_lines_fit(&self)
        ensures
            lines_fit(self.lines()),
    {
        assert(self.rows.len() == self.rows@.len());
        assert forall|y: int| 0 <= y < self.lines().len() implies (#[trigger] self.lines()[
            y
        ]).len() <= usize::MAX by {
            self.rows@[y].lemma_len_fits();
        }
    }

    /// The document that a file named `filename` with the text `contents`
    /// holds: one line for each line of the text, cut into its grapheme
    /// clusters, and nothing to save.
    pub fn open(filename: &str, contents: &str) -> (document: Self)
        ensures
            document.lines() == text_lines(contents@).map_values(
                |line: Seq<char>| grapheme_clusters(line),
            ),
            document.line_texts() == text_lines(contents@),
            document.name() == Some(filename@),
            !document.unsaved(),
    {
        let lines = lines(contents);
        let mut rows: Vec<Row> = Vec::new();
        let mut index: usize = 0;
        while index < lines.len()
            invariant
                index <= lines@.len(),
                rows@.len() == index,
                forall|i: int|
                    0 <= i < index ==> (#[trigger] rows@[i])@ == grapheme_clusters(lines@[i]@),
                forall|i: int| 0 <= i < index ==> (#[trigger] rows@[i]).text() == lines@[i]@,
            decreases lines@.len() - index,
        {
            rows.push(Row::create(lines[index].as_str()));
            index = index + 1;
        }
        let document = Document { rows, file_name: Some(filename.to_owned()), dirty: false };
        proof {
            assert(document.lines() =~= text_lines(contents@).map_values(
                |line: Seq<char>| grapheme_clusters(line),
            ));
            assert(document.line_texts() =~= text_lines(contents@));
        }
        document
    }

    /// The line at `index`, if the document has one there.
    pub fn row(&self, index: usize) -> (row: Option<&Row>)
        ensures
            index < self.lines().len() ==> row.is_some()
                && row.unwrap()@ == self.lines()[index as int],
            index >= self.lines().len() ==> row.is_none(),
    {
        if index < self.rows.len() {
            Some(&self.rows[index])
        } else {
            None
        }
    }

    /// The name of the file that the document is stored in, if it has one.
    pub fn file_name(&self) -> (name: Option<&String>)
        ensures
            name.is_some() == self.name().is_some(),
            name.is_some() ==> name.unwrap()@ == self.name().unwrap(),
    {
        self.file_name.as_ref()
    }

    /// Names the file that the document is to be stored in, or takes the
    /// name away. The text and the dirty flag stay as they are.
    pub fn set_file_name(&mut self, name: Option<String>)
        ensures
            final(self).name() == (match name {
                Some(name) => Some(name@),
                None => None,
            }),
            final(self).lines() == old(self).lines(),
            final(self).unsaved() == old(self).unsaved(),
    {
        self.file_name = name;
    }

    /// Whether the document has no line.
    pub fn is_empty(&self) -> (empty: bool)
        ensures
            empty == (self.lines().len() == 0),
    {
        self.rows.len() == 0
    }

    /// The number of lines.
    pub fn len(&self) -> (len: usize)
        ensures
            len == self.lines().len(),
    {
        self.rows.len()
    }

    /// Whether the document has changed since it was opened or last saved.
    pub fn is_dirty(&self) -> (dirty: bool)
        ensures
            dirty == self.unsaved(),
    {
        self.dirty
    }

    /// Types `c` at `at`. A newline breaks the line there. A position below
    /// the empty line past the end is not in the document: nothing happens.
    pub fn insert(&mut self, at: &Position, c: char)
        ensures
            final(self).lines() == lines_after_insert(
                old(self).lines(),
                at.x as int,
                at.y as int,
                c,
            ),
            final(self).unsaved() == (old(self).unsaved() || at.y <= old(self).lines().len()),
            final(self).name() == old(self).name(),
    {
        if at.y > self.rows.len() {
            return ;
        }
        self.dirty = true;
        if c == '\n' {
            self.insert_newline(at);
            return ;
        }
        if at.y == self.rows.len() {
            let mut row = Row::default();
            row.insert(0, c);
            assert(row@ =~= seq![seq![c]]);
            self.rows.push(row);
            assert(self.lines() =~= old(self).lines().push(seq![seq![c]]));
        } else {
            self.rows[at.y].insert(at.x, c);
            assert(self.lines() =~= old(self).lines().update(
                at.y as int,
                inserted(old(self).lines()[at.y as int], at.x as int, c),
            ));
        }
    }

    /// Deletes at `at`: the cluster there, or, at the end of a line, the
    /// break between it and the next line. Nothing happens below the last line.
    pub fn delete(&mut self, at: &Position)
        ensures
            final(self).lines() == lines_after_delete(
                old(self).lines(),
                at.x as int,
                at.y as int,
            ),
            final(self).unsaved() == (old(self).unsaved() || at.y < old(self).lines().len()),
            final(self).name() == old(self).name(),
    {
        let len = self.rows.len();
        if at.y >= len {
            return ;
        }
        self.dirty = true;
        if at.x == self.rows[at.y].get_len() && at.y < len - 1 {
            let next_row = self.rows.remove(at.y + 1);
            self.rows[at.y].append(next_row);
        } else {
            self.rows[at.y].delete(at.x);
        }
        assert(self.lines() =~= lines_after_delete(old(self).lines(), at.x as int, at.y as int));
    }

    /// The bytes to write when the document is saved.
    pub fn to_bytes(&self) -> (bytes: Vec<u8>)
        ensures
            bytes@ == persisted(self.lines()),
    {
        let mut bytes: Vec<u8> = Vec::new();
        let mut index: usize = 0;
        let ghost texts = self.line_texts();
        assert(texts.take(0) =~= Seq::<Seq<char>>::empty());
        while index < self.rows.len()
            invariant
                index <= self.rows@.len(),
                texts == self.line_texts(),
                bytes@ == encode_utf8(joined(texts.take(index as int))),
            decreases self.rows@.len() - index,
        {
            let mut line = self.rows[index].as_bytes();
            proof {
                let before = joined(texts.take(index as int));
                let text = texts[index as int];
                assert(texts.take(index + 1) =~= texts.take(index as int).push(text));
                lemma_joined_push(texts.take(index as int), text);
                lemma_encode_concat(before + text, seq!['\n']);
                lemma_encode_concat(before, text);
                is_ascii_chars_encode_utf8(seq!['\n']);
                assert(encode_utf8(seq!['\n']) =~= seq![0x0au8]);
            }
            bytes.append(&mut line);
            bytes.push(0x0au8);
            index = index + 1;
        }
        assert(texts.take(index as int) =~= texts);
        bytes
    }

    /// Takes note of how writing `to_bytes()` to the file went, and hands the
    /// outcome on. After a write that succeeded there is nothing left to
    /// save; after one that failed, and for a document without a file name,
    /// the dirty flag stays as it is.
    pub fn save<E>(&mut self, written: Result<(), E>) -> (outcome: Result<(), E>)
        ensures
            outcome == written,
            final(self).unsaved() == (old(self).unsaved() && !(written.is_ok()
                && old(self).name().is_some())),
            final(self).lines() == old(self).lines(),
            final(self).name() == old(self).name(),
    {
        if self.file_name.is_some() && written.is_ok() {
            self.dirty = false;
        }
        written
    }

    fn insert_newline(&mut self, at: &Position)
        requires
            at.y <= old(self).lines().len(),
        ensures
            final(self).lines() == lines_after_newline(
                old(self).lines(),
                at.x as int,
                at.y as int,
            ),
            final(self).dirty == old(self).dirty,
            final(self).name() == old(self).name(),
    {
        if at.y == self.rows.len() {
            self.rows.push(Row::default());
            assert(self.lines() =~= old(self).lines().push(Seq::empty()));
            return ;
        }
        let new_row = self.rows[at.y].split(at.x);
        self.rows.insert(at.y + 1, new_row);
        assert(self.lines() =~= lines_after_newline(old(self).lines(), at.x as int, at.y as int));
    }
}

impl Default for Document {
    /// The empty document, with no file name and nothing to save.
    fn default() -> (document: Self)
        ensures
            document.lines() == Seq::<Seq<Seq<char>>>::empty(),
            document.name().is_none(),
            !document.unsaved(),
    {
        let document = Document { rows: Vec::new(), file_name: None, dirty: false };
        assert(document.lines() =~= Seq::<Seq<Seq<char>>>::empty());
        document
    }
}

} // verus!
