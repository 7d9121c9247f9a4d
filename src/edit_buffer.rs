use vstd::prelude::*;

use unicode_segmentation::UnicodeSegmentation;

verus! {

/// The extended grapheme clusters of a text, in order, as segmented by
/// unicode-segmentation.
pub uninterp spec fn graphemes_of(s: Seq<char>) -> Seq<Seq<char>>;

/// Relies on `UnicodeSegmentation::graphemes(s, true)`: the extended grapheme
/// clusters of `s`, in order, consecutive slices that together give `s`
/// back; an empty text has none.
#[verifier::external_body]
pub(crate) fn split_graphemes(s: &str) -> (r: Vec<String>)
    ensures
        r@.len() == graphemes_of(s@).len(),
        forall|i: int| 0 <= i < r@.len() ==> #[trigger] r@[i]@ == graphemes_of(s@)[i],
        s@.len() == 0 ==> r@.len() == 0,
        joined(cluster_views(r@)) == s@,
{
    UnicodeSegmentation::graphemes(s, true).map(String::from).collect()
}

/// Relies on `String::from(char)`: a string of that one character.
#[verifier::external_body]
fn char_string(c: char) -> (r: String)
    ensures
        r@ == seq![c],
{
    String::from(c)
}

/// The texts of a list of clusters.
pub open spec fn cluster_views(v: Seq<String>) -> Seq<Seq<char>> {
    v.map_values(|g: String| g@)
}

/// The text of a sequence of clusters, joined in order.
pub open spec fn joined(parts: Seq<Seq<char>>) -> Seq<char>
    decreases parts.len(),
{
    if parts.len() == 0 {
        Seq::empty()
    } else {
        joined(parts.drop_last()) + parts.last()
    }
}

/// A line of text under edit, held as grapheme clusters, with a cursor that
/// stands between two clusters or at either end.
pub struct EditBuffer {
    content: Vec<String>,
    cursor: usize,
}

/// The buffer as plain values.
pub struct EditBufferView {
    pub content: Seq<Seq<char>>,
    pub cursor: int,
}

impl EditBufferView {
    pub open spec fn wf(self) -> bool {
        0 <= self.cursor <= self.content.len()
    }
}

impl View for EditBuffer {
    type V = EditBufferView;

    closed spec fn view(&self) -> EditBufferView {
        EditBufferView { content: cluster_views(self.content@), cursor: self.cursor as int }
    }
}

impl EditBuffer {
    /// A buffer holding the clusters of `text`, with the cursor at its end.
    pub fn new(text: &str) -> (r: EditBuffer)
        ensures
            r@.content == graphemes_of(text@),
            joined(r@.content) == text@,
            r@.cursor == graphemes_of(text@).len(),
            r@.wf(),
    {
        let content = split_graphemes(text);
        let r = EditBuffer::from_graphemes(content);
        assert(r@.content =~= graphemes_of(text@));
        r
    }

    /// A buffer holding `clusters`, with the cursor after the last one.
    pub fn from_graphemes(clusters: Vec<String>) -> (r: EditBuffer)
        ensures
            r@.content == cluster_views(clusters@),
            r@.cursor == clusters@.len(),
            r@.wf(),
    {
        let cursor = clusters.len();
        EditBuffer { content: clusters, cursor }
    }

    /// An empty buffer.
    pub fn empty() -> (r: EditBuffer)
        ensures
            r@.content.len() == 0,
            r@.cursor == 0,
    {
        let r = EditBuffer { content: Vec::new(), cursor: 0 };
        assert(r@.content =~= Seq::empty());
        r
    }

    pub fn cursor(&self) -> (r: usize)
        ensures
            r == self@.cursor,
    {
        self.cursor
    }

    pub fn len(&self) -> (r: usize)
        ensures
            r == self@.content.len(),
    {
        self.content.len()
    }

    /// The clusters of the buffer.
    pub fn graphemes(&self) -> (r: &Vec<String>)
        ensures
            cluster_views(r@) == self@.content,
    {
        &self.content
    }

    /// Inserts `c` as one cluster at the cursor and moves past it.
    pub fn insert(&mut self, c: char)
        requires
            old(self)@.wf(),
        ensures
            final(self)@.content == old(self)@.content.insert(old(self)@.cursor, seq![c]),
            final(self)@.cursor == old(self)@.cursor + 1,
            final(self)@.wf(),
    {
        let ghost before = self@;
        let g = char_string(c);
        self.content.insert(self.cursor, g);
        let n = self.content.len();
        assert(self.cursor < n);
        self.cursor = self.cursor + 1;
        assert(self@.content =~= before.content.insert(before.cursor, seq![c]));
    }

    /// Removes the cluster before the cursor; nothing happens at the start.
    pub fn backspace(&mut self)
        requires
            old(self)@.wf(),
        ensures
            old(self)@.cursor == 0 ==> final(self)@ == old(self)@,
            old(self)@.cursor > 0 ==> final(self)@.content == old(self)@.content.remove(
                old(self)@.cursor - 1,
            ) && final(self)@.cursor == old(self)@.cursor - 1,
            final(self)@.wf(),
    {
        let ghost before = self@;
        if self.cursor == 0 {
            return;
        }
        self.content.remove(self.cursor - 1);
        self.cursor = self.cursor - 1;
        assert(self@.content =~= before.content.remove(before.cursor - 1));
    }

    /// Removes the cluster at the cursor; nothing happens at the end.
    pub fn delete(&mut self)
        requires
            old(self)@.wf(),
        ensures
            old(self)@.cursor == old(self)@.content.len() ==> final(self)@ == old(self)@,
            old(self)@.cursor < old(self)@.content.len() ==> final(self)@.content == old(
                self,
            )@.content.remove(old(self)@.cursor) && final(self)@.cursor == old(self)@.cursor,
            final(self)@.wf(),
    {
        let ghost before = self@;
        if self.cursor == self.content.len() {
            return;
        }
        self.content.remove(self.cursor);
        assert(self@.content =~= before.content.remove(before.cursor));
    }

    /// One cluster to the left, stopping at the start.
    pub fn move_left(&mut self)
        requires
            old(self)@.wf(),
        ensures
            final(self)@.content == old(self)@.content,
            final(self)@.cursor == if old(self)@.cursor > 0 {
                old(self)@.cursor - 1
            } else {
                0
            },
            final(self)@.wf(),
    {
        if self.cursor > 0 {
            self.cursor = self.cursor - 1;
        }
    }

    /// One cluster to the right, stopping at the end.
    pub fn move_right(&mut self)
        requires
            old(self)@.wf(),
        ensures
            final(self)@.content == old(self)@.content,
            final(self)@.cursor == if old(self)@.cursor < old(self)@.content.len() {
                old(self)@.cursor + 1
            } else {
                old(self)@.cursor
            },
            final(self)@.wf(),
    {
        if self.cursor < self.content.len() {
            self.cursor = self.cursor + 1;
        }
    }

    /// The text of the buffer.
    pub fn get_content(&self) -> (r: String)
        ensures
            r@ == joined(self@.content),
    {
        let mut r = String::new();
        let mut i: usize = 0;
        while i < self.content.len()
            invariant
                0 <= i <= self.content@.len(),
                r@ == joined(self@.content.subrange(0, i as int)),
            decreases self.content@.len() - i,
        {
            let ghost parts = self@.content.subrange(0, i as int + 1);
            assert(parts.drop_last() =~= self@.content.subrange(0, i as int));
            r.append(self.content[i].as_str());
            i = i + 1;
        }
        assert(self@.content.subrange(0, i as int) =~= self@.content);
        r
    }
}

} // verus!
