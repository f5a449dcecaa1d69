//! One line of text, held as a sequence of grapheme clusters.

use crate::graphemes::{grapheme_clusters, graphemes};
use crate::text::{push_char, texts};
use vstd::math::min;
use vstd::prelude::*;
use vstd::utf8::encode_utf8;

verus! {

/// What a cluster looks like on screen: a tab becomes four spaces, every
/// other cluster is shown as it is.
pub open spec fn tab_expanded(cluster: Seq<char>) -> Seq<char> {
    if cluster == seq!['\t'] {
        seq![' ', ' ', ' ', ' ']
    } else {
        cluster
    }
}

/// What the clusters of `line` look like on screen, one after the other.
pub open spec fn shown(line: Seq<Seq<char>>) -> Seq<char> {
    line.map_values(|cluster: Seq<char>| tab_expanded(cluster)).flatten()
}

/// The displayed text of the clusters `[start, end)` of `line`, both ends
/// clamped to the line and `start` clamped to `end`.
pub open spec fn rendered(line: Seq<Seq<char>>, start: int, end: int) -> Seq<char> {
    let end = min(end, line.len() as int);
    let start = min(start, end);
    shown(line.subrange(start, end))
}

/// Whether no cluster of `line` is a tab.
pub open spec fn without_tabs(line: Seq<Seq<char>>) -> bool {
    forall|i: int| 0 <= i < line.len() ==> #[trigger] line[i] != seq!['\t']
}

/// `line` with `c` as a cluster of its own before the cluster at `at`, or at
/// the end where `at` is past the last cluster.
pub open spec fn inserted(line: Seq<Seq<char>>, at: int, c: char) -> Seq<Seq<char>> {
    line.insert(min(at, line.len() as int), seq![c])
}

/// `line` without the cluster at `at`; `line` itself where there is none.
pub open spec fn deleted(line: Seq<Seq<char>>, at: int) -> Seq<Seq<char>> {
    if at < line.len() {
        line.remove(at)
    } else {
        line
    }
}

/// The clusters of `line` before index `at`.
pub open spec fn head(line: Seq<Seq<char>>, at: int) -> Seq<Seq<char>> {
    line.take(min(at, line.len() as int))
}

/// The clusters of `line` from index `at` on.
pub open spec fn tail(line: Seq<Seq<char>>, at: int) -> Seq<Seq<char>> {
    line.skip(min(at, line.len() as int))
}

/// A line of text. Every index into it counts grapheme clusters.
pub struct Row {
    clusters: Vec<String>,
}

impl View for Row {
    type V = Seq<Seq<char>>;

    /// The clusters of the line, in order.
    closed spec fn view(&self) -> Seq<Seq<char>> {
        texts(self.clusters@)
    }
}

impl Row {
    /// The characters of the line: its clusters, concatenated.
    pub open spec fn text(&self) -> Seq<char> {
        self@.flatten()
    }

    /// A line has no more clusters than an index can count.
    pub proof fn lemma_len_fits(&self)
        ensures
            self@.len() <= usize::MAX,
    {
        assert(self.clusters.len() == self.clusters@.len());
    }

    /// A line of the given clusters.
    pub fn from_clusters(clusters: Vec<String>) -> (row: Self)
        ensures
            row@ == texts(clusters@),
    {
        Row { clusters }
    }

    /// The line that holds `slice`, cut into its grapheme clusters.
    pub fn create(slice: &str) -> (row: Self)
        ensures
            row@ == grapheme_clusters(slice@),
            row.text() == slice@,
    {
        Row::from_clusters(graphemes(slice))
    }

    /// The number of clusters.
    pub fn get_len(&self) -> (len: usize)
        ensures
            len == self@.len(),
    {
        self.clusters.len()
    }

    /// Whether the line has no cluster.
    pub fn is_empty(&self) -> (empty: bool)
        ensures
            empty == (self@.len() == 0),
    {
        self.clusters.len() == 0
    }

    /// The text to display for the clusters `[start, end)`: out-of-range ends
    /// are clamped, and each tab is shown as four spaces. The line itself is
    /// not changed.
    pub fn render(&self, start: usize, end: usize) -> (text: String)
        ensures
            text@ == rendered(self@, start as int, end as int),
    {
        let len = self.clusters.len();
        let end = if end < len { end } else { len };
        let start = if start < end { start } else { end };
        let tab = String::from_str("\t");
        let mut result = String::new();
        let mut index: usize = start;
        proof {
            reveal_strlit("\t");
            assert(tab@ =~= seq!['\t']);
            assert(shown(self@.subrange(start as int, start as int)) =~= Seq::<char>::empty());
        }
        while index < end
            invariant
                start <= index <= end <= self.clusters@.len(),
                tab@ == seq!['\t'],
                result@ == shown(self@.subrange(start as int, index as int)),
            decreases end - index,
        {
            let cluster = &self.clusters[index];
            proof {
                let before = self@.subrange(start as int, index as int);
                assert(self@.subrange(start as int, index + 1) =~= before.push(cluster@));
                lemma_shown_push(before, cluster@);
            }
            if *cluster == tab {
                proof {
                    reveal_strlit("    ");
                    assert("    "@ =~= seq![' ', ' ', ' ', ' ']);
                }
                result.append("    ");
            } else {
                result.append(cluster.as_str());
            }
            index = index + 1;
        }
        result
    }

    /// Puts `c` in as a cluster of its own before the cluster at `at`, or at
    /// the end of the line where `at` is past it. The character stays a
    /// cluster of its own whatever stands beside it, so that the line is
    /// longer by one.
    pub fn insert(&mut self, at: usize, c: char)
        ensures
            final(self)@ == inserted(old(self)@, at as int, c),
            final(self)@.len() == old(self)@.len() + 1,
    {
        let mut cluster = String::new();
        push_char(&mut cluster, c);
        let len = self.clusters.len();
        let at = if at < len { at } else { len };
        self.clusters.insert(at, cluster);
        assert(self@ =~= inserted(old(self)@, at as int, c));
    }

    /// Takes out the cluster at `at`; does nothing where there is none.
    pub fn delete(&mut self, at: usize)
        ensures
            final(self)@ == deleted(old(self)@, at as int),
    {
        if at >= self.clusters.len() {
            return ;
        }
        self.clusters.remove(at);
        assert(self@ =~= deleted(old(self)@, at as int));
    }

    /// Puts the clusters of `new` after those of this line.
    pub fn append(&mut self, new: Self)
        ensures
            final(self)@ == old(self)@ + new@,
    {
        let mut other = new;
        self.clusters.append(&mut other.clusters);
        assert(self@ =~= old(self)@ + new@);
    }

    /// Keeps the clusters before index `at` and returns the rest as a line of
    /// its own. Where `at` is past the end, the line keeps everything and the
    /// line returned is empty.
    pub fn split(&mut self, at: usize) -> (rest: Self)
        ensures
            final(self)@ == head(old(self)@, at as int),
            rest@ == tail(old(self)@, at as int),
            final(self)@.len() + rest@.len() == old(self)@.len(),
    {
        let len = self.clusters.len();
        let at = if at < len { at } else { len };
        let rest = self.clusters.split_off(at);
        let rest = Row { clusters: rest };
        assert(self@ =~= head(old(self)@, at as int));
        assert(rest@ =~= tail(old(self)@, at as int));
        rest
    }

    /// The bytes of the line as they are stored: the UTF-8 encoding of its
    /// text, with tabs as they were typed.
    pub fn as_bytes(&self) -> (bytes: Vec<u8>)
        ensures
            bytes@ == encode_utf8(self.text()),
    {
        let mut text = String::new();
        let mut index: usize = 0;
        assert(self@.take(0) =~= Seq::<Seq<char>>::empty());
        while index < self.clusters.len()
            invariant
                index <= self.clusters@.len(),
                text@ == self@.take(index as int).flatten(),
            decreases self.clusters@.len() - index,
        {
            proof {
                let before = self@.take(index as int);
                assert(self@.take(index + 1) =~= before.push(self@[index as int]));
                before.lemma_flatten_push(self@[index as int]);
            }
            text.append(self.clusters[index].as_str());
            index = index + 1;
        }
        assert(self@.take(index as int) =~= self@);
        text.as_str().as_bytes_vec()
    }
}

impl Default for Row {
    /// The empty line.
    fn default() -> (row: Self)
        ensures
            row@ == Seq::<Seq<char>>::empty(),
    {
        let row = Row { clusters: Vec::new() };
        assert(row@ =~= Seq::<Seq<char>>::empty());
        row
    }
}

/// Rendering a freshly created line from its first cluster to its last shows
/// the grapheme clusters of the text in order, each as it is but for a tab,
/// which is shown as four spaces. Where no cluster is a tab, what is shown is
/// the concatenation of the clusters.
pub proof fn render_of_created(text: Seq<char>)
    ensures
        rendered(grapheme_clusters(text), 0, grapheme_clusters(text).len() as int) == shown(
            grapheme_clusters(text),
        ),
        without_tabs(grapheme_clusters(text)) ==> shown(grapheme_clusters(text))
            == grapheme_clusters(text).flatten(),
{
    let line = grapheme_clusters(text);
    assert(line.subrange(0, line.len() as int) =~= line);
    if without_tabs(line) {
        assert(line.map_values(|cluster: Seq<char>| tab_expanded(cluster)) =~= line);
    }
}

/// Inserting a character at an index of the line, or at its end, and then
/// deleting at the same index gives back the line, and so its length.
pub proof fn insert_then_delete(line: Seq<Seq<char>>, at: int, c: char)
    requires
        0 <= at <= line.len(),
    ensures
        deleted(inserted(line, at, c), at) == line,
        deleted(inserted(line, at, c), at).len() == line.len(),
{
    assert(line.insert(at, seq![c]).remove(at) =~= line);
}

/// Splitting a line at any index and appending what was split off to what
/// was kept gives back the line, and so its length.
pub proof fn split_then_append(line: Seq<Seq<char>>, at: int)
    requires
        0 <= at,
    ensures
        head(line, at) + tail(line, at) == line,
        head(line, at).len() + tail(line, at).len() == line.len(),
{
    let cut = min(at, line.len() as int);
    assert(line.take(cut) + line.skip(cut) =~= line);
}

proof fn lemma_shown_push(line: Seq<Seq<char>>, cluster: Seq<char>)
    ensures
        shown(line.push(cluster)) == shown(line) + tab_expanded(cluster),
{
    let expand = |cluster: Seq<char>| tab_expanded(cluster);
    assert(line.push(cluster).map_values(expand) =~= line.map_values(expand).push(
        tab_expanded(cluster),
    ));
    line.map_values(expand).lemma_flatten_push(tab_expanded(cluster));
}

} // verus!
