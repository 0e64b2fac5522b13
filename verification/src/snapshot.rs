//! The tag snapshot: seven optional tags of one audio file.

use crate::field::Field;
use vstd::prelude::*;

verus! {

/// What a tag holds: text, or a number for the year and the track.
#[derive(Debug, PartialEq, Eq)]
pub enum TagValue {
    Text(String),
    Number(u32),
}

/// A `TagValue` as a mathematical value.
pub enum Content {
    Text(Seq<char>),
    Number(u32),
}

impl View for TagValue {
    type V = Content;

    open spec fn view(&self) -> Content {
        match self {
            TagValue::Text(s) => Content::Text(s@),
            TagValue::Number(n) => Content::Number(*n),
        }
    }
}

impl Clone for TagValue {
    fn clone(&self) -> (r: Self)
        ensures
            r@ == self@,
    {
        match self {
            TagValue::Text(s) => TagValue::Text(s.clone()),
            TagValue::Number(n) => TagValue::Number(*n),
        }
    }
}

/// A tag together with the value it holds.
#[derive(Debug, PartialEq, Eq)]
pub struct Tag {
    pub field: Field,
    pub value: TagValue,
}

/// A `Tag` as a mathematical value.
pub struct TagView {
    pub field: Field,
    pub value: Content,
}

impl View for Tag {
    type V = TagView;

    open spec fn view(&self) -> TagView {
        TagView { field: self.field, value: self.value@ }
    }
}

/// The tags of a list, as mathematical values.
pub open spec fn tag_views(tags: Seq<Tag>) -> Seq<TagView> {
    tags.map_values(|tag: Tag| tag@)
}

impl TagView {
    /// Whether the value is of the kind that the tag holds.
    pub open spec fn well_typed(self) -> bool {
        self.field.is_text() <==> self.value is Text
    }
}

impl Clone for Tag {
    fn clone(&self) -> (r: Self)
        ensures
            r@ == self@,
    {
        Tag { field: self.field, value: self.value.clone() }
    }
}

/// The tags of one audio file at one moment. An absent tag is one that was not
/// asked for, or that the file does not have; it is not the same as empty text.
#[derive(Debug, PartialEq, Eq)]
pub struct AudioTags {
    pub title: Option<String>,
    pub artist: Option<String>,
    pub album: Option<String>,
    pub comment: Option<String>,
    pub genre: Option<String>,
    pub year: Option<u32>,
    pub track: Option<u32>,
}

/// An `AudioTags` as a mathematical value.
pub struct TagsView {
    pub title: Option<Seq<char>>,
    pub artist: Option<Seq<char>>,
    pub album: Option<Seq<char>>,
    pub comment: Option<Seq<char>>,
    pub genre: Option<Seq<char>>,
    pub year: Option<u32>,
    pub track: Option<u32>,
}

/// The characters of an optional text.
pub open spec fn text_view(text: Option<String>) -> Option<Seq<char>> {
    match text {
        Some(s) => Some(s@),
        None => None,
    }
}

/// An optional text as an optional tag value.
pub open spec fn text_content(text: Option<Seq<char>>) -> Option<Content> {
    match text {
        Some(s) => Some(Content::Text(s)),
        None => None,
    }
}

/// An optional number as an optional tag value.
pub open spec fn number_content(number: Option<u32>) -> Option<Content> {
    match number {
        Some(n) => Some(Content::Number(n)),
        None => None,
    }
}

/// The mathematical value of an optional tag value.
pub open spec fn value_view(value: Option<TagValue>) -> Option<Content> {
    match value {
        Some(v) => Some(v@),
        None => None,
    }
}

impl View for AudioTags {
    type V = TagsView;

    open spec fn view(&self) -> TagsView {
        TagsView {
            title: text_view(self.title),
            artist: text_view(self.artist),
            album: text_view(self.album),
            comment: text_view(self.comment),
            genre: text_view(self.genre),
            year: self.year,
            track: self.track,
        }
    }
}

impl TagsView {
    /// The snapshot in which every tag is absent.
    pub open spec fn empty() -> TagsView {
        TagsView {
            title: None,
            artist: None,
            album: None,
            comment: None,
            genre: None,
            year: None,
            track: None,
        }
    }

    /// What the snapshot holds for `field`.
    pub open spec fn get(self, field: Field) -> Option<Content> {
        match field {
            Field::Title => text_content(self.title),
            Field::Artist => text_content(self.artist),
            Field::Album => text_content(self.album),
            Field::Comment => text_content(self.comment),
            Field::Genre => text_content(self.genre),
            Field::Year => number_content(self.year),
            Field::Track => number_content(self.track),
        }
    }

    /// The entry of `field`: one tag when the snapshot holds it, none otherwise.
    pub open spec fn entry(self, field: Field) -> Seq<TagView> {
        match self.get(field) {
            Some(value) => seq![TagView { field, value }],
            None => Seq::empty(),
        }
    }

    /// The entries of the first `n` tags of the listing order.
    pub open spec fn entries_upto(self, n: int) -> Seq<TagView>
        decreases n,
    {
        if n <= 0 {
            Seq::empty()
        } else {
            self.entries_upto(n - 1) + self.entry(Field::at(n - 1))
        }
    }

    /// The tags that the snapshot holds, in listing order.
    pub open spec fn entries(self) -> Seq<TagView> {
        self.entries_upto(7)
    }

    /// A snapshot is what it holds for each of the seven tags.
    pub proof fn lemma_equal_by_fields(self, other: TagsView)
        requires
            forall|field: Field| self.get(field) == other.get(field),
        ensures
            self == other,
    {
        assert(self.get(Field::Title) == other.get(Field::Title));
        assert(self.get(Field::Artist) == other.get(Field::Artist));
        assert(self.get(Field::Album) == other.get(Field::Album));
        assert(self.get(Field::Comment) == other.get(Field::Comment));
        assert(self.get(Field::Genre) == other.get(Field::Genre));
        assert(self.get(Field::Year) == other.get(Field::Year));
        assert(self.get(Field::Track) == other.get(Field::Track));
    }

    /// What a snapshot holds for a tag is of the kind that the tag holds.
    pub proof fn lemma_get_well_typed(self, field: Field)
        ensures
            self.get(field) matches Some(value) ==> (TagView { field, value }).well_typed(),
    {
    }

    /// Each of the entries is a tag that the snapshot holds.
    pub proof fn lemma_entries_held(self, n: int)
        requires
            0 <= n <= 7,
        ensures
            forall|i: int|
                0 <= i < self.entries_upto(n).len() ==> {
                    let tag = #[trigger] self.entries_upto(n)[i];
                    tag.field.index() < n && self.get(tag.field) == Some(tag.value)
                },
        decreases n,
    {
        if n > 0 {
            self.lemma_entries_held(n - 1);
            let before = self.entries_upto(n - 1);
            let last = Field::at(n - 1);
            let all = self.entries_upto(n);
            Field::lemma_index_at(n - 1);
            assert forall|i: int| 0 <= i < all.len() implies {
                let tag = #[trigger] all[i];
                tag.field.index() < n && self.get(tag.field) == Some(tag.value)
            } by {
                if i < before.len() {
                    assert(all[i] == before[i]);
                } else {
                    assert(all[i] == self.entry(last)[i - before.len()]);
                }
            }
        }
    }

    /// The entries stand in listing order, so no tag has two of them.
    pub proof fn lemma_entries_ordered(self, n: int)
        requires
            0 <= n <= 7,
        ensures
            forall|i: int, j: int|
                0 <= i < j < self.entries_upto(n).len() ==> (#[trigger] self.entries_upto(
                    n,
                )[i]).field.index() < (#[trigger] self.entries_upto(n)[j]).field.index(),
        decreases n,
    {
        if n > 0 {
            self.lemma_entries_ordered(n - 1);
            self.lemma_entries_held(n - 1);
            let before = self.entries_upto(n - 1);
            let last = Field::at(n - 1);
            let all = self.entries_upto(n);
            Field::lemma_index_at(n - 1);
            assert forall|i: int, j: int| 0 <= i < j < all.len() implies (#[trigger] all[i]).field.index()
                < (#[trigger] all[j]).field.index() by {
                assert(all[i] == before[i]);
                if j < before.len() {
                    assert(all[j] == before[j]);
                } else {
                    assert(all[j] == self.entry(last)[j - before.len()]);
                }
            }
        }
    }

    /// Every tag that the snapshot holds has an entry.
    pub proof fn lemma_entries_complete(self, n: int, field: Field)
        requires
            0 <= n <= 7,
            field.index() < n,
            self.get(field) is Some,
        ensures
            exists|i: int|
                0 <= i < self.entries_upto(n).len() && #[trigger] self.entries_upto(n)[i]
                    == (TagView { field, value: self.get(field)->0 }),
        decreases n,
    {
        let before = self.entries_upto(n - 1);
        let all = self.entries_upto(n);
        if field.index() < n - 1 {
            self.lemma_entries_complete(n - 1, field);
            let i = choose|i: int|
                0 <= i < before.len() && #[trigger] before[i] == (TagView {
                    field,
                    value: self.get(field)->0,
                });
            assert(all[i] == before[i]);
        } else {
            Field::lemma_at_index(field);
            assert(all[before.len() as int] == self.entry(field)[0]);
        }
    }
}

impl Clone for AudioTags {
    fn clone(&self) -> (r: Self)
        ensures
            r@ == self@,
    {
        AudioTags {
            title: clone_text(&self.title),
            artist: clone_text(&self.artist),
            album: clone_text(&self.album),
            comment: clone_text(&self.comment),
            genre: clone_text(&self.genre),
            year: self.year,
            track: self.track,
        }
    }
}

/// A copy of an optional text.
pub fn clone_text(text: &Option<String>) -> (r: Option<String>)
    ensures
        text_view(r) == text_view(*text),
{
    match text {
        Some(s) => Some(s.clone()),
        None => None,
    }
}

/// An optional text as an optional tag value.
fn text_value(text: &Option<String>) -> (r: Option<TagValue>)
    ensures
        value_view(r) == text_content(text_view(*text)),
{
    match text {
        Some(s) => Some(TagValue::Text(s.clone())),
        None => None,
    }
}

/// An optional number as an optional tag value.
fn number_value(number: Option<u32>) -> (r: Option<TagValue>)
    ensures
        value_view(r) == number_content(number),
{
    match number {
        Some(n) => Some(TagValue::Number(n)),
        None => None,
    }
}

impl AudioTags {
    /// The snapshot in which every tag is absent.
    pub fn new() -> (r: AudioTags)
        ensures
            r@ == TagsView::empty(),
    {
        AudioTags {
            title: None,
            artist: None,
            album: None,
            comment: None,
            genre: None,
            year: None,
            track: None,
        }
    }

    /// Whether every tag is absent.
    pub fn is_empty(&self) -> (r: bool)
        ensures
            r == (self@ == TagsView::empty()),
    {
        self.title.is_none() && self.artist.is_none() && self.album.is_none()
            && self.comment.is_none() && self.genre.is_none() && self.year.is_none()
            && self.track.is_none()
    }

    /// What the snapshot holds for `field`.
    pub fn get(&self, field: Field) -> (r: Option<TagValue>)
        ensures
            value_view(r) == self@.get(field),
    {
        match field {
            Field::Title => text_value(&self.title),
            Field::Artist => text_value(&self.artist),
            Field::Album => text_value(&self.album),
            Field::Comment => text_value(&self.comment),
            Field::Genre => text_value(&self.genre),
            Field::Year => number_value(self.year),
            Field::Track => number_value(self.track),
        }
    }

    /// The tags that the snapshot holds, in listing order: title, artist, album,
    /// comment, genre, year, track.
    pub fn entries(&self) -> (r: Vec<Tag>)
        ensures
            tag_views(r@) == self@.entries(),
            r@.len() <= 7,
    {
        let mut out: Vec<Tag> = Vec::new();
        let mut i: usize = 0;
        while i < 7
            invariant
                i <= 7,
                out@.len() <= i,
                tag_views(out@) == self@.entries_upto(i as int),
            decreases 7 - i,
        {
            let field = Field::nth(i);
            let ghost before = out@;
            match self.get(field) {
                Some(value) => {
                    out.push(Tag { field, value });
                    assert(tag_views(out@) =~= tag_views(before) + self@.entry(field));
                },
                None => {
                    assert(tag_views(out@) =~= tag_views(before) + self@.entry(field));
                },
            }
            i += 1;
        }
        out
    }
}

} // verus!
