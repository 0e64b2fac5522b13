//! A snapshot as plain text: one line for each tag that it holds.

use crate::decimal::{append_decimal, decimal};
use crate::field::Field;
use crate::snapshot::{tag_views, AudioTags, Content, Tag, TagValue, TagView, TagsView};
use vstd::prelude::*;
use vstd::string::*;

verus! {

/// The text of a tag's value: text as it is, a number in decimal.
pub open spec fn content_text(value: Content) -> Seq<char> {
    match value {
        Content::Text(s) => s,
        Content::Number(n) => decimal(n as nat),
    }
}

/// The line of one tag: its name, a colon, a tab, its value, and a line feed.
pub open spec fn line(tag: TagView) -> Seq<char> {
    tag.field.spec_name() + ":\t"@ + content_text(tag.value) + "\n"@
}

/// The lines of `tags`, one after the other.
pub open spec fn lines(tags: Seq<TagView>) -> Seq<char>
    decreases tags.len(),
{
    if tags.len() == 0 {
        Seq::empty()
    } else {
        lines(tags.drop_last()) + line(tags.last())
    }
}

impl TagsView {
    /// The snapshot as text: the line of each tag that it holds, in listing
    /// order, and nothing for a tag that it does not hold.
    pub open spec fn rendered(self) -> Seq<char> {
        lines(self.entries())
    }
}

/// Appends the line of `tag` to `out`.
pub fn append_line(out: &mut String, tag: &Tag)
    ensures
        final(out)@ == old(out)@ + line(tag@),
{
    out.append(tag.field.name());
    out.append(":\t");
    match &tag.value {
        TagValue::Text(s) => {
            out.append(s.as_str());
        },
        TagValue::Number(n) => {
            append_decimal(out, *n);
        },
    }
    out.append("\n");
    assert(final(out)@ =~= old(out)@ + line(tag@));
}

impl AudioTags {
    /// The snapshot as text: for each tag that it holds, in the order title,
    /// artist, album, comment, genre, year, track, the line `name:<tab>value`;
    /// nothing for a tag that it does not hold.
    pub fn render(&self) -> (r: String)
        ensures
            r@ == self@.rendered(),
    {
        let entries = self.entries();
        let ghost views = tag_views(entries@);
        let mut out = String::new();
        let mut i: usize = 0;
        assert(views.take(0) =~= Seq::<TagView>::empty());
        while i < entries.len()
            invariant
                i <= entries.len(),
                views == tag_views(entries@),
                out@ == lines(views.take(i as int)),
            decreases entries.len() - i,
        {
            append_line(&mut out, &entries[i]);
            proof {
                let next = views.take(i + 1);
                assert(next.drop_last() =~= views.take(i as int));
                assert(next.last() == entries@[i as int]@);
            }
            i += 1;
        }
        assert(views.take(i as int) =~= views);
        out
    }
}

/// The lines of two lists, one after the other, are the lines of the two lists
/// joined.
pub proof fn lemma_lines_joined(first: Seq<TagView>, second: Seq<TagView>)
    ensures
        lines(first + second) == lines(first) + lines(second),
    decreases second.len(),
{
    if second.len() == 0 {
        assert(first + second =~= first);
        assert(lines(first) + lines(second) =~= lines(first));
    } else {
        let joined = first + second;
        assert(joined.drop_last() =~= first + second.drop_last());
        assert(joined.last() == second.last());
        lemma_lines_joined(first, second.drop_last());
        assert(lines(joined) =~= lines(first) + lines(second));
    }
}

impl TagsView {
    /// The line of `field`, or nothing when the snapshot does not hold the tag.
    pub open spec fn line_of(self, field: Field) -> Seq<char> {
        match self.get(field) {
            Some(value) => line(TagView { field, value }),
            None => Seq::empty(),
        }
    }

    /// The text of the first `n` tags is the line of each of them that the
    /// snapshot holds.
    proof fn lemma_rendered_upto(self, n: int)
        requires
            0 < n <= 7,
        ensures
            lines(self.entries_upto(n)) == lines(self.entries_upto(n - 1)) + self.line_of(
                Field::at(n - 1),
            ),
    {
        let field = Field::at(n - 1);
        lemma_lines_joined(self.entries_upto(n - 1), self.entry(field));
        match self.get(field) {
            Some(value) => {
                let tag = TagView { field, value };
                let one = seq![tag];
                assert(one.drop_last() =~= Seq::<TagView>::empty());
                assert(one.last() == tag);
                assert(lines(one.drop_last()) =~= Seq::<char>::empty());
                assert(lines(one) =~= line(tag));
            },
            None => {},
        }
    }

    /// A snapshot as text is one line for each tag that it holds, in the order
    /// title, artist, album, comment, genre, year, track, and nothing for a tag
    /// that it does not hold.
    pub proof fn lemma_rendered_in_listing_order(self)
        ensures
            self.rendered() == self.line_of(Field::Title) + self.line_of(Field::Artist)
                + self.line_of(Field::Album) + self.line_of(Field::Comment) + self.line_of(
                Field::Genre,
            ) + self.line_of(Field::Year) + self.line_of(Field::Track),
    {
        self.lemma_rendered_upto(1);
        self.lemma_rendered_upto(2);
        self.lemma_rendered_upto(3);
        self.lemma_rendered_upto(4);
        self.lemma_rendered_upto(5);
        self.lemma_rendered_upto(6);
        self.lemma_rendered_upto(7);
        assert(self.entries_upto(0) =~= Seq::<TagView>::empty());
        assert(lines(self.entries_upto(1)) =~= self.line_of(Field::Title));
    }
}

} // verus!
